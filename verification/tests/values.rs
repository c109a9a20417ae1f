use script_host::binding::{Arguments, ReturnValue};
use script_host::error::{ConversionError, NativeType};
use script_host::handle::FunctionHandle;
use script_host::value::{render_decimal, render_integer, Value, ValueKind};

#[test]
fn decimal_text_of_small_numbers() {
    assert_eq!(render_decimal(0), "0");
    assert_eq!(render_decimal(7), "7");
    assert_eq!(render_decimal(10), "10");
    assert_eq!(render_decimal(45), "45");
    assert_eq!(render_decimal(1234567890), "1234567890");
}

#[test]
fn decimal_text_of_the_largest_number() {
    assert_eq!(render_decimal(u64::MAX), "18446744073709551615");
}

#[test]
fn integer_text_carries_a_minus_sign() {
    assert_eq!(render_integer(0), "0");
    assert_eq!(render_integer(25), "25");
    assert_eq!(render_integer(-1), "-1");
    assert_eq!(render_integer(-907), "-907");
    assert_eq!(render_integer(i64::MAX), "9223372036854775807");
    assert_eq!(render_integer(i64::MIN), "-9223372036854775808");
}

#[test]
fn string_converts_to_itself() {
    assert_eq!(Value::new_string("hello").to_rust_string(), Ok("hello".to_string()));
    assert_eq!(Value::new_string("").to_rust_string(), Ok(String::new()));
}

#[test]
fn integer_converts_to_decimal_text() {
    assert_eq!(Value::Integer(40).to_rust_string(), Ok("40".to_string()));
    assert_eq!(Value::Integer(-3).to_rust_string(), Ok("-3".to_string()));
}

#[test]
fn values_without_text_fail_to_convert() {
    assert_eq!(
        Value::Undefined.to_rust_string(),
        Err(ConversionError { wanted: NativeType::Text, found: ValueKind::Undefined })
    );
    assert_eq!(
        Value::Function(FunctionHandle(3)).to_rust_string(),
        Err(ConversionError { wanted: NativeType::Text, found: ValueKind::Function })
    );
    assert_eq!(
        Value::Opaque(None).to_rust_string(),
        Err(ConversionError { wanted: NativeType::Text, found: ValueKind::Opaque })
    );
}

#[test]
fn opaque_value_converts_to_the_engines_text() {
    assert_eq!(Value::Opaque(Some("true".to_string())).to_rust_string(), Ok("true".to_string()));
    assert_eq!(Value::Opaque(Some("1.5".to_string())).to_rust_string(), Ok("1.5".to_string()));
    assert_eq!(Value::Opaque(Some("null".to_string())).to_rust_string(), Ok("null".to_string()));
    assert_eq!(
        Value::Opaque(Some("[object Object]".to_string())).to_rust_string(),
        Ok("[object Object]".to_string())
    );
    assert_eq!(Value::Opaque(Some(String::new())).to_rust_string(), Ok(String::new()));
}

#[test]
fn integers_in_range_convert_to_u32() {
    assert_eq!(Value::Integer(0).uint32_value(), Ok(0));
    assert_eq!(Value::Integer(25).uint32_value(), Ok(25));
    assert_eq!(Value::Integer(4294967295).uint32_value(), Ok(u32::MAX));
    assert_eq!(Value::from_unsigned(u32::MAX).uint32_value(), Ok(u32::MAX));
}

#[test]
fn integers_out_of_range_fail_to_convert() {
    let failure = ConversionError { wanted: NativeType::Unsigned32, found: ValueKind::Integer };
    assert_eq!(Value::Integer(-1).uint32_value(), Err(failure));
    assert_eq!(Value::Integer(4294967296).uint32_value(), Err(failure));
    assert_eq!(Value::Integer(i64::MIN).uint32_value(), Err(failure));
    assert_eq!(Value::Integer(i64::MAX).uint32_value(), Err(failure));
}

#[test]
fn other_kinds_fail_to_convert_to_u32() {
    assert_eq!(
        Value::new_string("25").uint32_value(),
        Err(ConversionError { wanted: NativeType::Unsigned32, found: ValueKind::Text })
    );
    assert_eq!(
        Value::Undefined.uint32_value(),
        Err(ConversionError { wanted: NativeType::Unsigned32, found: ValueKind::Undefined })
    );
    assert_eq!(
        Value::Opaque(None).uint32_value(),
        Err(ConversionError { wanted: NativeType::Unsigned32, found: ValueKind::Opaque })
    );
    assert_eq!(
        Value::Opaque(Some("25".to_string())).uint32_value(),
        Err(ConversionError { wanted: NativeType::Unsigned32, found: ValueKind::Opaque })
    );
    assert_eq!(
        Value::Function(FunctionHandle(1)).uint32_value(),
        Err(ConversionError { wanted: NativeType::Unsigned32, found: ValueKind::Function })
    );
}

#[test]
fn conversion_failure_in_words() {
    let e = ConversionError { wanted: NativeType::Unsigned32, found: ValueKind::Text };
    assert_eq!(e.message(), "cannot convert string to u32");
    let e = ConversionError { wanted: NativeType::Text, found: ValueKind::Undefined };
    assert_eq!(e.message(), "cannot convert undefined to string");
    let e = ConversionError { wanted: NativeType::Text, found: ValueKind::Opaque };
    assert_eq!(e.message(), "cannot convert opaque value to string");
    let e = ConversionError { wanted: NativeType::Text, found: ValueKind::Function };
    assert_eq!(e.message(), "cannot convert function to string");
    let e = ConversionError { wanted: NativeType::Unsigned32, found: ValueKind::Integer };
    assert_eq!(e.message(), "cannot convert integer to u32");
}

#[test]
fn kinds_of_values() {
    assert_eq!(Value::Undefined.kind(), ValueKind::Undefined);
    assert_eq!(Value::Integer(1).kind(), ValueKind::Integer);
    assert_eq!(Value::new_string("x").kind(), ValueKind::Text);
    assert_eq!(Value::Function(FunctionHandle(0)).kind(), ValueKind::Function);
    assert_eq!(Value::Opaque(None).kind(), ValueKind::Opaque);
    assert_eq!(Value::Opaque(Some("true".to_string())).kind(), ValueKind::Opaque);
    assert!(Value::Undefined.is_undefined());
    assert!(!Value::Integer(0).is_undefined());
}

#[test]
fn clone_keeps_the_value() {
    let v = Value::new_string("kept");
    assert_eq!(v.clone(), v);
    assert_eq!(Value::Integer(5).clone(), Value::Integer(5));
    let opaque = Value::Opaque(Some("1.5".to_string()));
    assert_eq!(opaque.clone(), opaque);
    assert_eq!(Value::Opaque(None).clone(), Value::Opaque(None));
}

#[test]
fn missing_arguments_read_as_undefined() {
    let args = Arguments::new(vec![Value::Integer(1), Value::new_string("two")]);
    assert_eq!(args.length(), 2);
    assert_eq!(args.get(0), Value::Integer(1));
    assert_eq!(args.get(1), Value::new_string("two"));
    assert_eq!(args.get(2), Value::Undefined);
    assert_eq!(args.get(usize::MAX), Value::Undefined);
    let none = Arguments::new(vec![]);
    assert_eq!(none.length(), 0);
    assert_eq!(none.get(0), Value::Undefined);
}

#[test]
fn unwritten_slot_reads_as_undefined() {
    let slot = ReturnValue::new();
    assert!(!slot.is_set());
    assert_eq!(slot.get(), Value::Undefined);
}

#[test]
fn slot_holds_the_last_value_written() {
    let mut slot = ReturnValue::new();
    slot.set(Value::Integer(1));
    slot.set(Value::new_string("last"));
    assert!(slot.is_set());
    assert_eq!(slot.get(), Value::new_string("last"));
}
