use rlox::value::Value;
use rlox::value::ValuePosition;
use rlox::value::Values;

#[test]
fn values_write_adds_value_and_returns_position() {
    let mut values = Values::default();
    let number = 42.0_f64;
    let value = Value::Number(number.to_string());

    let position = values.write(value);
    let output = values.get(&position);

    assert_eq!(output, Value::Number(number.to_string()));
}

#[test]
fn values_get_empty_position_returns_null() {
    let values = Values::default();
    let position = ValuePosition(42);

    let output = values.get(&position);

    assert_eq!(output, Value::Nil);
}

#[test]
fn values_get_returns_each_written_value() {
    let mut values = Values::default();
    let first = values.write(Value::Number(1.5_f64.to_string()));
    let second = values.write(Value::Nil);
    let third = values.write(Value::Number(300.0_f64.to_string()));

    assert_eq!(values.get(&first), Value::Number("1.5".to_string()));
    assert_eq!(values.get(&second), Value::Nil);
    assert_eq!(values.get(&third), Value::Number("300".to_string()));
}

#[test]
fn value_display_text_renders_numeral_or_nil() {
    assert_eq!(Value::Number(42.0_f64.to_string()).to_display_text(), "42");
    assert_eq!(Value::Number(1.2_f64.to_string()).to_display_text(), "1.2");
    assert_eq!(Value::Nil.to_display_text(), "nil");
}

#[test]
fn value_default_is_nil() {
    assert_eq!(Value::default(), Value::Nil);
}

#[test]
fn value_equality_is_structural() {
    assert_eq!(Value::Number(42.0_f64.to_string()), Value::Number(42.0_f64.to_string()));
    assert_ne!(Value::Number(42.0_f64.to_string()), Value::Number(1.2_f64.to_string()));
    assert_ne!(Value::Number(42.0_f64.to_string()), Value::Nil);
    assert_eq!(Value::Nil, Value::Nil);
}

#[test]
fn value_position_displays_raw_numeral() {
    assert_eq!(ValuePosition(0).to_display_text(), "0");
    assert_eq!(ValuePosition(42).to_display_text(), "42");
    assert_eq!(ValuePosition(90210).to_display_text(), "90210");
}
