use autocompletable::doubles::{Double, DoubleStrategy};
use autocompletable::error::ExtractError;
use autocompletable::integers::IntegerStrategy;
use autocompletable::singles::{Single, SingleStrategy};
use autocompletable::strategy::AutocompletableHack;
use autocompletable::text::StringStrategy;
use autocompletable::value::{JsonNumber, StructuredValue};

#[test]
fn integer_serializes_exactly() {
    let r = IntegerStrategy.into_json(200u8);
    assert_eq!(r, StructuredValue::Number(JsonNumber::PosInt(200)));

    let r = IntegerStrategy.into_json(-7i32);
    assert_eq!(r, StructuredValue::Number(JsonNumber::NegInt(-7)));

    let r = IntegerStrategy.into_json(u64::MAX);
    assert_eq!(r, StructuredValue::Number(JsonNumber::PosInt(u64::MAX)));

    let r = IntegerStrategy.into_json(i64::MIN);
    assert_eq!(r, StructuredValue::Number(JsonNumber::NegInt(i64::MIN)));
}

#[test]
fn integer_round_trips_through_serialization() {
    for n in [0i16, 1, -1, i16::MAX, i16::MIN] {
        let v = IntegerStrategy.into_json(n);
        let r: Result<i16, ExtractError> = IntegerStrategy.extract_partial(&v);
        assert_eq!(r, Ok(n));
    }
}

#[test]
fn double_serializes_finite_value_exactly() {
    let d = Double {
        bits: 3.14f64.to_bits(),
    };
    let r = DoubleStrategy.into_json(d);
    assert_eq!(
        r,
        StructuredValue::Number(JsonNumber::Float(3.14f64.to_bits()))
    );
}

#[test]
fn double_round_trips_finite_value() {
    let d = Double {
        bits: (-0.5f64).to_bits(),
    };
    let v = DoubleStrategy.into_json(d);
    let r = DoubleStrategy.extract_partial(&v).unwrap();
    assert_eq!(r, d);
}

#[test]
fn double_non_finite_serializes_to_zero() {
    for x in [f64::NAN, f64::INFINITY, f64::NEG_INFINITY] {
        let d = Double { bits: x.to_bits() };
        let r = DoubleStrategy.into_json(d);
        assert_eq!(r, StructuredValue::Number(JsonNumber::PosInt(0)));
    }
}

#[test]
fn single_non_finite_serializes_to_zero() {
    for x in [f32::NAN, f32::INFINITY, f32::NEG_INFINITY] {
        let s = Single { bits: x.to_bits() };
        let r = SingleStrategy.into_json(s);
        assert_eq!(r, StructuredValue::Number(JsonNumber::PosInt(0)));
    }
}

#[test]
fn single_serializes_by_exact_widening() {
    for x in [
        1.5f32,
        -3.25f32,
        0.0f32,
        -0.0f32,
        f32::MAX,
        f32::MIN_POSITIVE,
        f32::from_bits(1),          // smallest subnormal
        f32::from_bits(0x007f_ffff), // largest subnormal
        f32::from_bits(0x8000_0001), // negative subnormal
    ] {
        let s = Single { bits: x.to_bits() };
        let r = SingleStrategy.into_json(s);
        let expected = (x as f64).to_bits();
        assert_eq!(r, StructuredValue::Number(JsonNumber::Float(expected)));
    }
}

#[test]
fn single_round_trips_finite_value() {
    for x in [
        1.5f32,
        -0.0f32,
        f32::MIN_POSITIVE,
        f32::from_bits(1),
        f32::MAX,
        -123.456f32,
    ] {
        let s = Single { bits: x.to_bits() };
        let v = SingleStrategy.into_json(s);
        let r = SingleStrategy.extract_partial(&v).unwrap();
        assert_eq!(r, s);
    }
}

#[test]
fn string_serializes_formatted_text() {
    let r = <StringStrategy as AutocompletableHack<String>>::into_json(
        &StringStrategy,
        "hello".to_string(),
    );
    assert_eq!(r, StructuredValue::String("hello".to_string()));
}
