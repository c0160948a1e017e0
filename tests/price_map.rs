use pecunia::price_map::{
    assign_to_none, decode_price_map, decode_price_seq, encode_price_map, field_of,
    PriceField, PriceMapDecoder, PriceMapError, PriceMapVisitor, PriceSeqError,
    RawPriceCurrencyVisitor, UnitValueVisitor,
};

#[test]
fn keys_of_the_two_encodings() {
    assert_eq!(RawPriceCurrencyVisitor.price_key(), "price");
    assert_eq!(RawPriceCurrencyVisitor.currency_key(), "currency");
    assert_eq!(UnitValueVisitor.price_key(), "value");
    assert_eq!(UnitValueVisitor.currency_key(), "unit");
}

#[test]
fn fields_by_key() {
    assert_eq!(field_of(&RawPriceCurrencyVisitor, "price"), Ok(PriceField::RawPrice));
    assert_eq!(field_of(&RawPriceCurrencyVisitor, "currency"), Ok(PriceField::Currency));
    assert_eq!(field_of(&RawPriceCurrencyVisitor, "value"), Err(PriceMapError::UnknownField));
    assert_eq!(field_of(&UnitValueVisitor, "unit"), Ok(PriceField::Currency));
    assert_eq!(field_of(&UnitValueVisitor, "Price"), Err(PriceMapError::UnknownField));
}

#[test]
fn assign_to_none_fills_an_empty_slot_once() {
    let mut slot: Option<u32> = None;
    assert_eq!(assign_to_none(&mut slot, 5, PriceField::RawPrice), Ok(()));
    assert_eq!(slot, Some(5));
    assert_eq!(
        assign_to_none(&mut slot, 6, PriceField::RawPrice),
        Err(PriceMapError::DuplicateField(PriceField::RawPrice))
    );
    assert_eq!(slot, Some(5));
}

#[test]
fn decoder_reports_missing_fields_price_first() {
    let empty: PriceMapDecoder<u32, u32> = PriceMapDecoder::new();
    assert_eq!(empty.finish(), Err(PriceMapError::MissingField(PriceField::RawPrice)));
    let mut only_price: PriceMapDecoder<u32, u32> = PriceMapDecoder::new();
    assert_eq!(only_price.set_raw_price(1), Ok(()));
    assert_eq!(only_price.finish(), Err(PriceMapError::MissingField(PriceField::Currency)));
    let mut both: PriceMapDecoder<u32, u32> = PriceMapDecoder::new();
    assert_eq!(both.set_currency(2), Ok(()));
    assert_eq!(
        both.set_currency(3),
        Err(PriceMapError::DuplicateField(PriceField::Currency))
    );
    assert_eq!(both.set_raw_price(1), Ok(()));
    assert_eq!(both.finish(), Ok((1, 2)));
}

#[test]
fn map_entries_in_either_order() {
    assert_eq!(decode_price_map(&RawPriceCurrencyVisitor, &[("price", 1), ("currency", 2)]), Ok((1, 2)));
    assert_eq!(decode_price_map(&RawPriceCurrencyVisitor, &[("currency", 2), ("price", 1)]), Ok((1, 2)));
    assert_eq!(decode_price_map(&UnitValueVisitor, &[("unit", 2), ("value", 1)]), Ok((1, 2)));
}

#[test]
fn map_with_unknown_key_fails() {
    assert_eq!(
        decode_price_map(&RawPriceCurrencyVisitor, &[("price", 1), ("currency", 2), ("date", 3)]),
        Err(PriceMapError::UnknownField)
    );
    assert_eq!(
        decode_price_map(&UnitValueVisitor, &[("price", 1), ("currency", 2)]),
        Err(PriceMapError::UnknownField)
    );
}

#[test]
fn map_with_duplicate_key_fails() {
    assert_eq!(
        decode_price_map(&RawPriceCurrencyVisitor, &[("price", 1), ("price", 1), ("currency", 2)]),
        Err(PriceMapError::DuplicateField(PriceField::RawPrice))
    );
    assert_eq!(
        decode_price_map(&UnitValueVisitor, &[("unit", 2), ("value", 1), ("unit", 2)]),
        Err(PriceMapError::DuplicateField(PriceField::Currency))
    );
}

#[test]
fn map_with_missing_key_fails() {
    assert_eq!(
        decode_price_map(&RawPriceCurrencyVisitor, &[("currency", 2)]),
        Err(PriceMapError::MissingField(PriceField::RawPrice))
    );
    assert_eq!(
        decode_price_map(&RawPriceCurrencyVisitor, &[("price", 1)]),
        Err(PriceMapError::MissingField(PriceField::Currency))
    );
    assert_eq!(
        decode_price_map::<_, u32>(&UnitValueVisitor, &[]),
        Err(PriceMapError::MissingField(PriceField::RawPrice))
    );
}

#[test]
fn map_round_trip() {
    let entries = encode_price_map(&UnitValueVisitor, 10, 20);
    assert_eq!(decode_price_map(&UnitValueVisitor, &entries), Ok((10, 20)));
    let entries = encode_price_map(&RawPriceCurrencyVisitor, 10, 20);
    assert_eq!(decode_price_map(&RawPriceCurrencyVisitor, &entries), Ok((10, 20)));
}

#[test]
fn sequence_needs_exactly_two_elements() {
    assert_eq!(decode_price_seq(&[1, 2]), Ok((1, 2)));
    assert_eq!(decode_price_seq::<u32>(&[]), Err(PriceSeqError::InvalidLength(0)));
    assert_eq!(decode_price_seq(&[1]), Err(PriceSeqError::InvalidLength(1)));
    assert_eq!(decode_price_seq(&[1, 2, 3]), Err(PriceSeqError::InvalidLength(3)));
}
