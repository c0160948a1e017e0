//! The keyed and sequence encodings of a price: which key holds the raw price
//! and which the unit, and the rules for reading a map back. A map must name
//! each of its two keys exactly once and nothing else.
//!
//! The values themselves are generic: these functions decide which value goes
//! where and when decoding fails, whatever the values are.
use vstd::prelude::*;

use crate::text::str_eq;

verus! {

/// One of the two fields of an encoded price.
#[derive(Clone, Copy, Debug, PartialEq, Eq, Structural, Hash)]
pub enum PriceField {
    /// The raw price.
    RawPrice,
    /// The currency or unit.
    Currency,
}

/// Why a keyed encoding of a price could not be read.
#[derive(Clone, Copy, Debug, PartialEq, Eq, Structural, Hash)]
pub enum PriceMapError {
    /// A key that is neither of the two keys of the encoding.
    UnknownField,
    /// A field whose key came a second time.
    DuplicateField(PriceField),
    /// A field whose key never came.
    MissingField(PriceField),
}

/// Why the sequence encoding of a price could not be read: it must hold
/// exactly two elements, the raw price and then the unit.
#[derive(Clone, Copy, Debug, PartialEq, Eq, Structural, Hash)]
pub enum PriceSeqError {
    /// The sequence held this many elements.
    InvalidLength(usize),
}

/// The two keys of a keyed encoding of a price.
pub trait PriceMapVisitor {
    /// The key of the raw price.
    spec fn spec_price_key() -> Seq<char>;

    /// The key of the currency or unit.
    spec fn spec_currency_key() -> Seq<char>;

    /// The two keys differ.
    proof fn lemma_keys_differ()
        ensures
            Self::spec_price_key() != Self::spec_currency_key(),
    ;

    fn price_key(&self) -> (r: &'static str)
        ensures
            r@ == Self::spec_price_key(),
    ;

    fn currency_key(&self) -> (r: &'static str)
        ensures
            r@ == Self::spec_currency_key(),
    ;
}

/// The encoding `{"price": ..., "currency": ...}`.
pub struct RawPriceCurrencyVisitor;

/// The encoding `{"value": ..., "unit": ...}`.
pub struct UnitValueVisitor;

impl PriceMapVisitor for RawPriceCurrencyVisitor {
    open spec fn spec_price_key() -> Seq<char> {
        "price"@
    }

    open spec fn spec_currency_key() -> Seq<char> {
        "currency"@
    }

    proof fn lemma_keys_differ() {
        reveal_strlit("price");
        reveal_strlit("currency");
        assert("price"@.len() != "currency"@.len());
    }

    fn price_key(&self) -> (r: &'static str) {
        "price"
    }

    fn currency_key(&self) -> (r: &'static str) {
        "currency"
    }
}

impl PriceMapVisitor for UnitValueVisitor {
    open spec fn spec_price_key() -> Seq<char> {
        "value"@
    }

    open spec fn spec_currency_key() -> Seq<char> {
        "unit"@
    }

    proof fn lemma_keys_differ() {
        reveal_strlit("value");
        reveal_strlit("unit");
        assert("value"@.len() != "unit"@.len());
    }

    fn price_key(&self) -> (r: &'static str) {
        "value"
    }

    fn currency_key(&self) -> (r: &'static str) {
        "unit"
    }
}

/// The field that `key` names in the encoding of `V`, if any.
pub open spec fn spec_field_of<V: PriceMapVisitor>(key: Seq<char>) -> Option<PriceField> {
    if key == V::spec_price_key() {
        Some(PriceField::RawPrice)
    } else if key == V::spec_currency_key() {
        Some(PriceField::Currency)
    } else {
        None
    }
}

/// The field that `key` names in the encoding of `visitor`; any other key is
/// an unknown field.
pub fn field_of<V: PriceMapVisitor>(visitor: &V, key: &str) -> (r: Result<PriceField, PriceMapError>)
    ensures
        spec_field_of::<V>(key@) matches Some(f) ==> r == Ok::<PriceField, PriceMapError>(f),
        spec_field_of::<V>(key@) is None ==> r == Err::<PriceField, PriceMapError>(
            PriceMapError::UnknownField,
        ),
{
    if str_eq(key, visitor.price_key()) {
        Ok(PriceField::RawPrice)
    } else if str_eq(key, visitor.currency_key()) {
        Ok(PriceField::Currency)
    } else {
        Err(PriceMapError::UnknownField)
    }
}

/// Stores `value` in an empty slot; a slot that is already filled means the
/// field came twice, and is left as it was.
pub fn assign_to_none<T>(assign_to: &mut Option<T>, value: T, field: PriceField) -> (r: Result<
    (),
    PriceMapError,
>)
    ensures
        (*old(assign_to)) is Some ==> r == Err::<(), PriceMapError>(PriceMapError::DuplicateField(field))
            && *final(assign_to) == *old(assign_to),
        (*old(assign_to)) is None ==> r == Ok::<(), PriceMapError>(()) && *final(assign_to) == Some(
            value,
        ),
{
    match assign_to {
        Some(_) => Err(PriceMapError::DuplicateField(field)),
        None => {
            *assign_to = Some(value);
            Ok(())
        },
    }
}

/// The fields read so far from a keyed encoding of a price.
pub struct PriceMapDecoder<P, C> {
    pub raw_price: Option<P>,
    pub currency: Option<C>,
}

impl<P, C> PriceMapDecoder<P, C> {
    /// A decoder that has read no field yet.
    pub fn new() -> (r: Self)
        ensures
            r.raw_price is None,
            r.currency is None,
    {
        PriceMapDecoder { raw_price: None, currency: None }
    }

    /// Records the raw price; a second raw price is a duplicate field.
    pub fn set_raw_price(&mut self, value: P) -> (r: Result<(), PriceMapError>)
        ensures
            final(self).currency == old(self).currency,
            old(self).raw_price is Some ==> r == Err::<(), PriceMapError>(
                PriceMapError::DuplicateField(PriceField::RawPrice),
            ) && final(self).raw_price == old(self).raw_price,
            old(self).raw_price is None ==> r == Ok::<(), PriceMapError>(())
                && final(self).raw_price == Some(value),
    {
        assign_to_none(&mut self.raw_price, value, PriceField::RawPrice)
    }

    /// Records the currency; a second currency is a duplicate field.
    pub fn set_currency(&mut self, value: C) -> (r: Result<(), PriceMapError>)
        ensures
            final(self).raw_price == old(self).raw_price,
            old(self).currency is Some ==> r == Err::<(), PriceMapError>(
                PriceMapError::DuplicateField(PriceField::Currency),
            ) && final(self).currency == old(self).currency,
            old(self).currency is None ==> r == Ok::<(), PriceMapError>(())
                && final(self).currency == Some(value),
    {
        assign_to_none(&mut self.currency, value, PriceField::Currency)
    }

    /// The two fields, once the map has ended; the raw price is checked first.
    pub fn finish(self) -> (r: Result<(P, C), PriceMapError>)
        ensures
            r == spec_finish(self.raw_price, self.currency),
    {
        match self.raw_price {
            None => Err(PriceMapError::MissingField(PriceField::RawPrice)),
            Some(p) => match self.currency {
                None => Err(PriceMapError::MissingField(PriceField::Currency)),
                Some(c) => Ok((p, c)),
            },
        }
    }
}

/// The result of a map that has ended with the given fields read: a missing
/// raw price is reported before a missing currency.
pub open spec fn spec_finish<P, C>(raw_price: Option<P>, currency: Option<C>) -> Result<
    (P, C),
    PriceMapError,
> {
    match raw_price {
        None => Err(PriceMapError::MissingField(PriceField::RawPrice)),
        Some(p) => match currency {
            None => Err(PriceMapError::MissingField(PriceField::Currency)),
            Some(c) => Ok((p, c)),
        },
    }
}

/// One entry read into the fields read so far.
pub open spec fn spec_step<V: PriceMapVisitor, T>(
    fields: (Option<T>, Option<T>),
    entry: (&str, T),
) -> Result<(Option<T>, Option<T>), PriceMapError> {
    match spec_field_of::<V>(entry.0@) {
        None => Err(PriceMapError::UnknownField),
        Some(PriceField::RawPrice) => if fields.0 is Some {
            Err(PriceMapError::DuplicateField(PriceField::RawPrice))
        } else {
            Ok((Some(entry.1), fields.1))
        },
        Some(PriceField::Currency) => if fields.1 is Some {
            Err(PriceMapError::DuplicateField(PriceField::Currency))
        } else {
            Ok((fields.0, Some(entry.1)))
        },
    }
}

/// The entries read in order, stopping at the first error.
pub open spec fn spec_scan<V: PriceMapVisitor, T>(entries: Seq<(&str, T)>) -> Result<
    (Option<T>, Option<T>),
    PriceMapError,
>
    decreases entries.len(),
{
    if entries.len() == 0 {
        Ok((None, None))
    } else {
        match spec_scan::<V, T>(entries.drop_last()) {
            Err(e) => Err(e),
            Ok(fields) => spec_step::<V, T>(fields, entries.last()),
        }
    }
}

/// What reading the map `entries` (keys with their values, in order) in the
/// encoding of `V` gives: the raw price and the currency, or the first error.
pub open spec fn spec_decode_map<V: PriceMapVisitor, T>(entries: Seq<(&str, T)>) -> Result<
    (T, T),
    PriceMapError,
> {
    match spec_scan::<V, T>(entries) {
        Err(e) => Err(e),
        Ok(fields) => spec_finish(fields.0, fields.1),
    }
}

/// Some entry of `entries` has the key `key`.
pub open spec fn spec_has_key<T>(entries: Seq<(&str, T)>, key: Seq<char>) -> bool {
    exists|i: int| 0 <= i < entries.len() && (#[trigger] entries[i]).0@ == key
}

/// Every key of `entries` is one of the two keys of the encoding of `V`.
pub open spec fn spec_keys_known<V: PriceMapVisitor, T>(entries: Seq<(&str, T)>) -> bool {
    forall|i: int| 0 <= i < entries.len() ==> spec_field_of::<V>((#[trigger] entries[i]).0@) is Some
}

/// No key of `entries` comes twice.
pub open spec fn spec_keys_distinct<T>(entries: Seq<(&str, T)>) -> bool {
    forall|i: int, j: int|
        0 <= i < j < entries.len() ==> (#[trigger] entries[i]).0@ != (#[trigger] entries[j]).0@
}

/// `entries` is the keyed encoding of the raw price `p` and the currency `c`
/// in the encoding of `V`: the raw price first, then the currency.
pub open spec fn spec_is_map_encoding<V: PriceMapVisitor, T>(entries: Seq<(&str, T)>, p: T, c: T) -> bool {
    &&& entries.len() == 2
    &&& entries[0].0@ == V::spec_price_key()
    &&& entries[0].1 == p
    &&& entries[1].0@ == V::spec_currency_key()
    &&& entries[1].1 == c
}

/// What reading the sequence encoding `items` gives: exactly two elements,
/// the raw price and then the currency.
pub open spec fn spec_decode_seq<T>(items: Seq<T>) -> Result<(T, T), PriceSeqError> {
    if items.len() == 2 {
        Ok((items[0], items[1]))
    } else {
        Err(PriceSeqError::InvalidLength(items.len() as usize))
    }
}

/// Reads the map `entries` (keys with their values, in order) in the encoding
/// of `visitor`: an unknown key or a key that comes twice stops it with that
/// error; at the end a missing raw price, then a missing currency, is an
/// error.
pub fn decode_price_map<V: PriceMapVisitor, T: Copy>(visitor: &V, entries: &[(&str, T)]) -> (r:
    Result<(T, T), PriceMapError>)
    ensures
        r == spec_decode_map::<V, T>(entries@),
{
    let mut decoder: PriceMapDecoder<T, T> = PriceMapDecoder::new();
    let n = entries.len();
    let mut i: usize = 0;
    while i < n
        invariant
            n == entries@.len(),
            i <= n,
            spec_scan::<V, T>(entries@.subrange(0, i as int)) == Ok::<
                (Option<T>, Option<T>),
                PriceMapError,
            >((decoder.raw_price, decoder.currency)),
        decreases n - i,
    {
        proof {
            assert(entries@.subrange(0, i + 1).drop_last() =~= entries@.subrange(0, i as int));
        }
        let (key, value) = entries[i];
        let field = field_of(visitor, key);
        match field {
            Err(e) => {
                proof {
                    assert(spec_scan::<V, T>(entries@.subrange(0, i + 1)) == Err::<
                        (Option<T>, Option<T>),
                        PriceMapError,
                    >(e));
                    lemma_scan_stops::<V, T>(entries@, i + 1);
                }
                return Err(e);
            },
            Ok(PriceField::RawPrice) => {
                let set = decoder.set_raw_price(value);
                if let Err(e) = set {
                    proof {
                        lemma_scan_stops::<V, T>(entries@, i + 1);
                    }
                    return Err(e);
                }
            },
            Ok(PriceField::Currency) => {
                let set = decoder.set_currency(value);
                if let Err(e) = set {
                    proof {
                        lemma_scan_stops::<V, T>(entries@, i + 1);
                    }
                    return Err(e);
                }
            },
        }
        i = i + 1;
    }
    proof {
        assert(entries@.subrange(0, n as int) =~= entries@);
    }
    decoder.finish()
}

/// Once reading a prefix of `entries` has failed, reading all of it fails
/// with the same error.
proof fn lemma_scan_stops<V: PriceMapVisitor, T>(entries: Seq<(&str, T)>, k: int)
    requires
        0 <= k <= entries.len(),
        spec_scan::<V, T>(entries.subrange(0, k)) is Err,
    ensures
        spec_scan::<V, T>(entries) == spec_scan::<V, T>(entries.subrange(0, k)),
        spec_decode_map::<V, T>(entries) == Err::<(T, T), PriceMapError>(
            spec_scan::<V, T>(entries.subrange(0, k))->Err_0,
        ),
    decreases entries.len() - k,
{
    if k == entries.len() {
        assert(entries.subrange(0, k) =~= entries);
    } else {
        assert(entries.subrange(0, k + 1).drop_last() =~= entries.subrange(0, k));
        lemma_scan_stops::<V, T>(entries, k + 1);
    }
}

/// Writes the raw price `p` and the currency `c` as the entries of a keyed
/// encoding of `visitor`: the raw price first.
pub fn encode_price_map<V: PriceMapVisitor, T>(visitor: &V, p: T, c: T) -> (r: Vec<(&'static str, T)>)
    ensures
        spec_is_map_encoding::<V, T>(r@, p, c),
{
    let mut entries: Vec<(&'static str, T)> = Vec::new();
    entries.push((visitor.price_key(), p));
    entries.push((visitor.currency_key(), c));
    entries
}

/// Writes the raw price `p` and the currency `c` as the sequence encoding.
pub fn encode_price_seq<T>(p: T, c: T) -> (r: Vec<T>)
    ensures
        r@ == seq![p, c],
{
    let mut items: Vec<T> = Vec::new();
    items.push(p);
    items.push(c);
    proof {
        assert(items@ =~= seq![p, c]);
    }
    items
}

/// Reads the sequence encoding `items`: exactly two elements, the raw price
/// and then the currency.
pub fn decode_price_seq<T: Copy>(items: &[T]) -> (r: Result<(T, T), PriceSeqError>)
    ensures
        r == spec_decode_seq(items@),
{
    if items.len() == 2 {
        Ok((items[0], items[1]))
    } else {
        Err(PriceSeqError::InvalidLength(items.len()))
    }
}

/// What reading a prefix of a map has established: reading succeeds exactly
/// while every key is known and none has come twice, and then each field has
/// been read exactly when its key has come.
proof fn lemma_scan<V: PriceMapVisitor, T>(entries: Seq<(&str, T)>)
    ensures
        spec_scan::<V, T>(entries) is Ok <==> spec_keys_known::<V, T>(entries)
            && spec_keys_distinct(entries),
        spec_scan::<V, T>(entries) matches Ok(fields) ==> (fields.0 is Some <==> spec_has_key(
            entries,
            V::spec_price_key(),
        )) && (fields.1 is Some <==> spec_has_key(entries, V::spec_currency_key())),
    decreases entries.len(),
{
    V::lemma_keys_differ();
    if entries.len() > 0 {
        let prefix = entries.drop_last();
        let last_index = entries.len() - 1;
        lemma_scan::<V, T>(prefix);
        assert forall|i: int| 0 <= i < prefix.len() implies #[trigger] prefix[i] == entries[i] by {}
        assert(spec_has_key(entries, V::spec_price_key()) <==> spec_has_key(
            prefix,
            V::spec_price_key(),
        ) || entries[last_index].0@ == V::spec_price_key()) by {
            if spec_has_key(entries, V::spec_price_key()) {
                let i = choose|i: int|
                    0 <= i < entries.len() && (#[trigger] entries[i]).0@ == V::spec_price_key();
                if i < last_index {
                    assert(prefix[i] == entries[i]);
                }
            }
            if spec_has_key(prefix, V::spec_price_key()) {
                let i = choose|i: int|
                    0 <= i < prefix.len() && (#[trigger] prefix[i]).0@ == V::spec_price_key();
                assert(entries[i] == prefix[i]);
            }
        }
        assert(spec_has_key(entries, V::spec_currency_key()) <==> spec_has_key(
            prefix,
            V::spec_currency_key(),
        ) || entries[last_index].0@ == V::spec_currency_key()) by {
            if spec_has_key(entries, V::spec_currency_key()) {
                let i = choose|i: int|
                    0 <= i < entries.len() && (#[trigger] entries[i]).0@ == V::spec_currency_key();
                if i < last_index {
                    assert(prefix[i] == entries[i]);
                }
            }
            if spec_has_key(prefix, V::spec_currency_key()) {
                let i = choose|i: int|
                    0 <= i < prefix.len() && (#[trigger] prefix[i]).0@ == V::spec_currency_key();
                assert(entries[i] == prefix[i]);
            }
        }
        if spec_keys_known::<V, T>(entries) && spec_keys_distinct(entries) {
            assert(spec_keys_known::<V, T>(prefix));
            assert(spec_keys_distinct(prefix)) by {
                assert forall|i: int, j: int|
                    0 <= i < j < prefix.len() implies (#[trigger] prefix[i]).0@ != (
                    #[trigger] prefix[j]).0@ by {
                    assert(entries[i] == prefix[i] && entries[j] == prefix[j]);
                }
            }
            let last = entries[last_index];
            assert(spec_field_of::<V>(last.0@) is Some);
            if last.0@ == V::spec_price_key() {
                assert(!spec_has_key(prefix, V::spec_price_key())) by {
                    if spec_has_key(prefix, V::spec_price_key()) {
                        let i = choose|i: int|
                            0 <= i < prefix.len() && (#[trigger] prefix[i]).0@
                                == V::spec_price_key();
                        assert(entries[i] == prefix[i]);
                        assert(entries[i].0@ != entries[last_index].0@);
                    }
                }
            } else {
                assert(!spec_has_key(prefix, V::spec_currency_key())) by {
                    if spec_has_key(prefix, V::spec_currency_key()) {
                        let i = choose|i: int|
                            0 <= i < prefix.len() && (#[trigger] prefix[i]).0@
                                == V::spec_currency_key();
                        assert(entries[i] == prefix[i]);
                        assert(entries[i].0@ != entries[last_index].0@);
                    }
                }
            }
        } else if spec_scan::<V, T>(prefix) is Ok {
            let last = entries[last_index];
            if !spec_keys_known::<V, T>(entries) {
                let i = choose|i: int|
                    0 <= i < entries.len() && !(spec_field_of::<V>(
                        (#[trigger] entries[i]).0@,
                    ) is Some);
                if i < last_index {
                    assert(prefix[i] == entries[i]);
                }
            } else {
                let (i, j) = choose|i: int, j: int|
                    0 <= i < j < entries.len() && (#[trigger] entries[i]).0@ == (
                    #[trigger] entries[j]).0@;
                if j < last_index {
                    assert(prefix[i] == entries[i] && prefix[j] == entries[j]);
                } else {
                    assert(prefix[i] == entries[i]);
                    if last.0@ == V::spec_price_key() {
                        assert(spec_has_key(prefix, V::spec_price_key()));
                    } else {
                        assert(spec_has_key(prefix, V::spec_currency_key()));
                    }
                }
            }
        } else {
            assert(!(spec_keys_known::<V, T>(prefix) && spec_keys_distinct(prefix)));
            if !spec_keys_known::<V, T>(prefix) {
                let i = choose|i: int|
                    0 <= i < prefix.len() && !(spec_field_of::<V>(
                        (#[trigger] prefix[i]).0@,
                    ) is Some);
                assert(entries[i] == prefix[i]);
            } else {
                let (i, j) = choose|i: int, j: int|
                    0 <= i < j < prefix.len() && (#[trigger] prefix[i]).0@ == (
                    #[trigger] prefix[j]).0@;
                assert(entries[i] == prefix[i] && entries[j] == prefix[j]);
            }
        }
    }
}

/// A keyed encoding is read without error exactly when every key in it is one
/// of the encoding's two keys, no key comes twice, and both keys come. So a
/// map with an unknown key, a repeated key or a missing key is always
/// refused.
pub proof fn lemma_decode_map_ok<V: PriceMapVisitor, T>(entries: Seq<(&str, T)>)
    ensures
        spec_decode_map::<V, T>(entries) is Ok <==> {
            &&& spec_keys_known::<V, T>(entries)
            &&& spec_keys_distinct(entries)
            &&& spec_has_key(entries, V::spec_price_key())
            &&& spec_has_key(entries, V::spec_currency_key())
        },
{
    lemma_scan::<V, T>(entries);
}

/// Reading the keyed encoding of a raw price and a currency gives them back,
/// and so does reading its two entries in the other order.
pub proof fn lemma_map_round_trip<V: PriceMapVisitor, T>(entries: Seq<(&str, T)>, p: T, c: T)
    requires
        spec_is_map_encoding::<V, T>(entries, p, c),
    ensures
        spec_decode_map::<V, T>(entries) == Ok::<(T, T), PriceMapError>((p, c)),
        spec_decode_map::<V, T>(seq![entries[1], entries[0]]) == Ok::<(T, T), PriceMapError>(
            (p, c),
        ),
{
    V::lemma_keys_differ();
    let none: (Option<T>, Option<T>) = (None, None);
    let first = entries.drop_last();
    assert(first.drop_last() =~= Seq::<(&str, T)>::empty());
    assert(spec_scan::<V, T>(first.drop_last()) == Ok::<_, PriceMapError>(none));
    assert(first.last() == entries[0]);
    assert(spec_scan::<V, T>(first) == Ok::<_, PriceMapError>((Some(p), None::<T>)));
    assert(spec_scan::<V, T>(entries) == Ok::<_, PriceMapError>((Some(p), Some(c))));
    let swapped = seq![entries[1], entries[0]];
    let head = swapped.drop_last();
    assert(head.drop_last() =~= Seq::<(&str, T)>::empty());
    assert(spec_scan::<V, T>(head.drop_last()) == Ok::<_, PriceMapError>(none));
    assert(head.last() == entries[1]);
    assert(spec_scan::<V, T>(head) == Ok::<_, PriceMapError>((None::<T>, Some(c))));
    assert(swapped.last() == entries[0]);
    assert(spec_scan::<V, T>(swapped) == Ok::<_, PriceMapError>((Some(p), Some(c))));
}

/// The sequence encoding and the two keyed encodings of one raw price and one
/// currency all read back as that raw price and that currency.
pub proof fn lemma_encodings_agree<T>(
    price_currency: Seq<(&str, T)>,
    value_unit: Seq<(&str, T)>,
    p: T,
    c: T,
)
    requires
        spec_is_map_encoding::<RawPriceCurrencyVisitor, T>(price_currency, p, c),
        spec_is_map_encoding::<UnitValueVisitor, T>(value_unit, p, c),
    ensures
        spec_decode_map::<RawPriceCurrencyVisitor, T>(price_currency) == Ok::<
            (T, T),
            PriceMapError,
        >((p, c)),
        spec_decode_map::<UnitValueVisitor, T>(value_unit) == Ok::<(T, T), PriceMapError>((p, c)),
        spec_decode_seq(seq![p, c]) == Ok::<(T, T), PriceSeqError>((p, c)),
{
    lemma_map_round_trip::<RawPriceCurrencyVisitor, T>(price_currency, p, c);
    lemma_map_round_trip::<UnitValueVisitor, T>(value_unit, p, c);
}

} // verus!
