use pecunia::primitive_value::{PrimitiveValueError, PrimitiveValueVisitor};

#[test]
fn booleans_are_one_and_zero() {
    assert_eq!(PrimitiveValueVisitor.visit_bool(true), 1);
    assert_eq!(PrimitiveValueVisitor.visit_bool(false), 0);
}

#[test]
fn digits_are_read_and_other_characters_refused() {
    assert_eq!(PrimitiveValueVisitor.visit_char('0'), Ok(0));
    assert_eq!(PrimitiveValueVisitor.visit_char('7'), Ok(7));
    assert_eq!(PrimitiveValueVisitor.visit_char('9'), Ok(9));
    assert_eq!(PrimitiveValueVisitor.visit_char('a'), Err(PrimitiveValueError::NotADigit('a')));
    assert_eq!(PrimitiveValueVisitor.visit_char('/'), Err(PrimitiveValueError::NotADigit('/')));
}

#[test]
fn exactly_eight_bytes_are_accepted() {
    let bytes = 10.1f64.to_le_bytes();
    let read = PrimitiveValueVisitor.visit_bytes(&bytes).unwrap();
    assert_eq!(read, bytes);
    assert_eq!(f64::from_le_bytes(read), 10.1);
    assert_eq!(
        PrimitiveValueVisitor.visit_bytes(&bytes[..7]),
        Err(PrimitiveValueError::NotEightBytes(7))
    );
    assert_eq!(
        PrimitiveValueVisitor.visit_bytes(&[0u8; 9]),
        Err(PrimitiveValueError::NotEightBytes(9))
    );
}
