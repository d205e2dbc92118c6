use autocompletable::doubles::{Double, DoubleStrategy};
use autocompletable::error::ExtractError;
use autocompletable::integers::IntegerStrategy;
use autocompletable::singles::{Single, SingleStrategy};
use autocompletable::strategy::AutocompletableHack;
use autocompletable::text::StringStrategy;
use autocompletable::value::{JsonNumber, StructuredValue};

#[test]
fn integer_extracts_in_range_number() {
    let v = StructuredValue::Number(JsonNumber::PosInt(42));
    let r: Result<u8, ExtractError> = IntegerStrategy.extract_partial(&v);
    assert_eq!(r, Ok(42u8));
}

#[test]
fn integer_out_of_bounds_for_narrow_target() {
    let v = StructuredValue::Number(JsonNumber::PosInt(1000));
    let r: Result<u8, ExtractError> = IntegerStrategy.extract_partial(&v);
    assert_eq!(r, Err(ExtractError::IntegerOutOfBounds));
}

#[test]
fn integer_negative_out_of_bounds_for_unsigned_target() {
    let v = StructuredValue::Number(JsonNumber::NegInt(-1));
    let r: Result<u32, ExtractError> = IntegerStrategy.extract_partial(&v);
    assert_eq!(r, Err(ExtractError::IntegerOutOfBounds));
}

#[test]
fn integer_rejects_string_with_expected_integer() {
    let v = StructuredValue::String("x".to_string());
    let r: Result<u32, ExtractError> = IntegerStrategy.extract_partial(&v);
    assert_eq!(
        r,
        Err(ExtractError::CommandStructureMismatch("expected integer"))
    );
}

#[test]
fn integer_rejects_float_number() {
    let v = StructuredValue::Number(JsonNumber::Float(3.5f64.to_bits()));
    let r: Result<i64, ExtractError> = IntegerStrategy.extract_partial(&v);
    assert_eq!(
        r,
        Err(ExtractError::CommandStructureMismatch("expected integer"))
    );
}

#[test]
fn integer_rejects_unsigned_number_above_signed_range() {
    let v = StructuredValue::Number(JsonNumber::PosInt(u64::MAX));
    let r: Result<i64, ExtractError> = IntegerStrategy.extract_partial(&v);
    assert_eq!(
        r,
        Err(ExtractError::CommandStructureMismatch("expected integer"))
    );
}

#[test]
fn integer_extracts_extreme_values() {
    let v = StructuredValue::Number(JsonNumber::NegInt(i64::MIN));
    let r: Result<i64, ExtractError> = IntegerStrategy.extract_partial(&v);
    assert_eq!(r, Ok(i64::MIN));

    let v = StructuredValue::Number(JsonNumber::PosInt(i64::MAX as u64));
    let r: Result<i64, ExtractError> = IntegerStrategy.extract_partial(&v);
    assert_eq!(r, Ok(i64::MAX));
}

#[test]
fn double_extracts_float_number_exactly() {
    let v = StructuredValue::Number(JsonNumber::Float(3.14f64.to_bits()));
    let r: Result<Double, ExtractError> = DoubleStrategy.extract_partial(&v);
    let d = r.unwrap();
    assert_eq!(f64::from_bits(d.bits), 3.14);
}

#[test]
fn double_decodes_integer_numbers() {
    let v = StructuredValue::Number(JsonNumber::PosInt(3));
    let d = DoubleStrategy.extract_partial(&v).unwrap();
    assert_eq!(d.bits, 3.0f64.to_bits());

    let v = StructuredValue::Number(JsonNumber::NegInt(-2));
    let d = DoubleStrategy.extract_partial(&v).unwrap();
    assert_eq!(d.bits, (-2.0f64).to_bits());

    let v = StructuredValue::Number(JsonNumber::PosInt(u64::MAX));
    let d = DoubleStrategy.extract_partial(&v).unwrap();
    assert_eq!(d.bits, (u64::MAX as f64).to_bits());
}

#[test]
fn double_rejects_string_with_expected_float() {
    let v = StructuredValue::String("x".to_string());
    let r: Result<Double, ExtractError> = DoubleStrategy.extract_partial(&v);
    assert_eq!(
        r,
        Err(ExtractError::CommandStructureMismatch("expected float"))
    );
}

#[test]
fn single_extracts_nearest_single() {
    // the verified narrowing must agree with the platform conversion,
    // including ties to even, overflow to infinity and subnormal underflow
    let cases: &[f64] = &[
        0.0,
        -0.0,
        2.5,
        3.14,
        -1.0e-40,
        1.0e-45,
        7.0e-46,
        1.0 + 2.0f64.powi(-24),
        1.0 + 3.0 * 2.0f64.powi(-24),
        -1.0 - 2.0f64.powi(-24),
        f64::MAX,
        -f64::MAX,
        1.0e39,
        3.402_823_5e38,
        3.402_823_7e38,
        2.0 - 2.0f64.powi(-30),
        2.0f64.powi(-126),
        2.0f64.powi(-149),
        2.0f64.powi(-150),
        1.5 * 2.0f64.powi(-150),
        -2.0f64.powi(-1060),
        (1u64 << 53) as f64 - 1.0,
    ];
    for &x in cases {
        let v = StructuredValue::Number(JsonNumber::Float(x.to_bits()));
        let r: Result<Single, ExtractError> = SingleStrategy.extract_partial(&v);
        assert_eq!(r.unwrap().bits, (x as f32).to_bits(), "narrowing {x:e}");
    }
}

#[test]
fn single_extracts_integer_numbers_with_rounding() {
    // 2^24 + 1 is exact as a double but rounds down as a single
    let v = StructuredValue::Number(JsonNumber::PosInt(16_777_217));
    let r: Result<Single, ExtractError> = SingleStrategy.extract_partial(&v);
    assert_eq!(r.unwrap().bits, 16_777_216.0f32.to_bits());

    let v = StructuredValue::Number(JsonNumber::NegInt(-3));
    let r: Result<Single, ExtractError> = SingleStrategy.extract_partial(&v);
    assert_eq!(r.unwrap().bits, (-3.0f32).to_bits());
}

#[test]
fn single_rejects_null_with_expected_float() {
    let r: Result<Single, ExtractError> = SingleStrategy.extract_partial(&StructuredValue::Null);
    assert_eq!(
        r,
        Err(ExtractError::CommandStructureMismatch("expected float"))
    );
}

#[test]
fn string_extracts_text_unparsed() {
    let v = StructuredValue::String("127.0.0.1".to_string());
    let r: Result<String, ExtractError> =
        <StringStrategy as AutocompletableHack<String>>::extract_partial(&StringStrategy, &v);
    assert_eq!(r, Ok("127.0.0.1".to_string()));
}

#[test]
fn string_rejects_number_with_expected_string() {
    let v = StructuredValue::Number(JsonNumber::PosInt(5));
    let r: Result<String, ExtractError> =
        <StringStrategy as AutocompletableHack<String>>::extract_partial(&StringStrategy, &v);
    assert_eq!(
        r,
        Err(ExtractError::CommandStructureMismatch("expected string"))
    );
}

#[test]
fn extraction_rejects_other_tags() {
    let arr = StructuredValue::Array(vec![StructuredValue::Bool(true)]);
    let r: Result<u8, ExtractError> = IntegerStrategy.extract_partial(&arr);
    assert_eq!(
        r,
        Err(ExtractError::CommandStructureMismatch("expected integer"))
    );

    let obj = StructuredValue::Object(vec![("k".to_string(), StructuredValue::Null)]);
    let r: Result<Double, ExtractError> = DoubleStrategy.extract_partial(&obj);
    assert_eq!(
        r,
        Err(ExtractError::CommandStructureMismatch("expected float"))
    );
}

#[test]
fn extraction_is_pure() {
    // the same input extracts the same way twice: no state is held across
    // calls
    let v = StructuredValue::Number(JsonNumber::PosInt(7));
    let a: Result<u16, ExtractError> = IntegerStrategy.extract_partial(&v);
    let b: Result<u16, ExtractError> = IntegerStrategy.extract_partial(&v);
    assert_eq!(a, b);
}
