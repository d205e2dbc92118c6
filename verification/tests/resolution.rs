use autocompletable::error::ExtractError;
use autocompletable::resolver::{resolve, StrategyKind, TypeCapabilities};
use autocompletable::strategy::{Autocompletable, AutocompletableHack, CompositeStrategy};
use autocompletable::value::{JsonNumber, StructuredValue};

fn caps(
    composite: bool,
    double_precision: bool,
    single_precision: bool,
    integer_convertible: bool,
    string_convertible: bool,
) -> TypeCapabilities {
    TypeCapabilities {
        composite,
        double_precision,
        single_precision,
        integer_convertible,
        string_convertible,
    }
}

#[test]
fn composite_shadows_string_convertible() {
    // a type offering both the composite and the string-convertible
    // capability resolves to the composite strategy exclusively
    let r = resolve(&caps(true, false, false, false, true));
    assert_eq!(r, Some(StrategyKind::Composite));
}

#[test]
fn specificity_order_is_respected() {
    assert_eq!(
        resolve(&caps(true, true, true, true, true)),
        Some(StrategyKind::Composite)
    );
    assert_eq!(
        resolve(&caps(false, true, true, true, true)),
        Some(StrategyKind::DoublePrecision)
    );
    assert_eq!(
        resolve(&caps(false, false, true, true, true)),
        Some(StrategyKind::SinglePrecision)
    );
    assert_eq!(
        resolve(&caps(false, false, false, true, true)),
        Some(StrategyKind::Integer)
    );
    assert_eq!(
        resolve(&caps(false, false, false, false, true)),
        Some(StrategyKind::StringConvertible)
    );
}

#[test]
fn no_capability_resolves_to_no_strategy() {
    assert_eq!(resolve(&caps(false, false, false, false, false)), None);
}

#[test]
fn composite_strategy_delegates_to_the_type() {
    // String declares its own pair, so the composite strategy serves it even
    // though it is also string-convertible
    let v = StructuredValue::String("partial".to_string());
    let r: Result<String, ExtractError> =
        <CompositeStrategy as AutocompletableHack<String>>::extract_partial(&CompositeStrategy, &v);
    assert_eq!(r, Ok("partial".to_string()));

    let r = <CompositeStrategy as AutocompletableHack<String>>::into_json(
        &CompositeStrategy,
        "choice".to_string(),
    );
    assert_eq!(r, StructuredValue::String("choice".to_string()));
}

#[test]
fn composite_capability_rejects_wrong_tag() {
    let v = StructuredValue::Number(JsonNumber::PosInt(1));
    let r: Result<String, ExtractError> = <String as Autocompletable>::extract_partial(&v);
    assert_eq!(
        r,
        Err(ExtractError::CommandStructureMismatch("expected string"))
    );
}
