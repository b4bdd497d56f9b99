use crowbar::ContextError;
use crowbar::ConversionError;
use crowbar::Diagnostic;
use crowbar::HandlerError;
use crowbar::LambdaContext;
use crowbar::LambdaResult;
use crowbar::Value;
use crowbar::handler;
use crowbar::translate;

fn full_context() -> LambdaContext {
    LambdaContext::new(
        Some(String::from("f")),
        Some(String::from("1")),
        Some(String::from("arn:aws:lambda:...:function:f")),
        Some(String::from("128")),
        Some(String::from("req-1")),
        Some(String::from("/aws/lambda/f")),
        Some(String::from("2024/01/01/[$LATEST]abc")),
    )
    .expect("all seven fields are present")
}

#[test]
fn context_construction_succeeds_with_all_seven_fields() {
    let cx = full_context();
    assert_eq!(cx.function_name(), "f");
    assert_eq!(cx.function_version(), "1");
    assert_eq!(cx.invoked_function_arn(), "arn:aws:lambda:...:function:f");
    assert_eq!(cx.memory_limit_in_mb(), "128");
    assert_eq!(cx.aws_request_id(), "req-1");
    assert_eq!(cx.log_group_name(), "/aws/lambda/f");
    assert_eq!(cx.log_stream_name(), "2024/01/01/[$LATEST]abc");
}

#[test]
fn context_remaining_time_returns_host_value() {
    let cx = full_context();
    assert_eq!(cx.get_remaining_time_in_millis(Some(5000)), Ok(5000));
}

#[test]
fn context_remaining_time_failure_collapses_to_one_error() {
    let cx = full_context();
    assert_eq!(
        cx.get_remaining_time_in_millis(None),
        Err(ContextError::GetRemainingTimeFailed)
    );
}

#[test]
fn context_construction_fails_without_function_name() {
    let r = LambdaContext::new(
        None,
        Some(String::from("1")),
        Some(String::from("arn")),
        Some(String::from("128")),
        Some(String::from("req-1")),
        Some(String::from("lg")),
        Some(String::from("ls")),
    );
    assert!(matches!(r, Err(ContextError::AttributeExtractionFailed)));
}

#[test]
fn context_construction_fails_without_log_stream_name() {
    let r = LambdaContext::new(
        Some(String::from("f")),
        Some(String::from("1")),
        Some(String::from("arn")),
        Some(String::from("128")),
        Some(String::from("req-1")),
        Some(String::from("lg")),
        None,
    );
    assert!(matches!(r, Err(ContextError::AttributeExtractionFailed)));
}

#[test]
fn echo_handler_returns_event_unchanged() {
    let event = Value::Object(vec![(String::from("x"), Value::Int(1))]);
    let r = handler(|event: Value, _cx: LambdaContext| Ok(event), Ok(event), Ok(full_context()));
    let expected = Value::Object(vec![(String::from("x"), Value::Int(1))]);
    match r {
        Ok(out) => assert!(out.deep_eq(&expected)),
        Err(_) => panic!("the echo invocation must succeed"),
    }
}

#[test]
fn handler_error_text_crosses_verbatim() {
    let event = Value::Null;
    let r = handler(
        |_event: Value, _cx: LambdaContext| -> LambdaResult {
            Err(HandlerError::wrap(String::from("boom")))
        },
        Ok(event),
        Ok(full_context()),
    );
    match r {
        Err(x) => assert_eq!(x.message(), "boom"),
        Ok(_) => panic!("the handler failed, so the adapter must fail"),
    }
}

#[test]
fn decode_failure_skips_handler() {
    let r = handler(
        |_event: Value, _cx: LambdaContext| -> LambdaResult {
            panic!("the handler must not run when decoding failed")
        },
        Err(ConversionError::new(String::from("<class 'object'> is not JSON serializable"))),
        Ok(full_context()),
    );
    match r {
        Err(x) => assert_eq!(x.message(), "<class 'object'> is not JSON serializable"),
        Ok(_) => panic!("a decode failure must become a host exception"),
    }
}

#[test]
fn context_failure_skips_handler() {
    let r = handler(
        |event: Value, _cx: LambdaContext| -> LambdaResult { Ok(event) },
        Ok(Value::Null),
        Err(ContextError::AttributeExtractionFailed),
    );
    match r {
        Err(x) => assert_eq!(x.message(), "failed to extract context attribute"),
        Ok(_) => panic!("a context failure must become a host exception"),
    }
}

#[test]
fn translate_keeps_diagnostic_text() {
    let x = translate(&HandlerError::wrap(String::from("out of cheese")));
    assert_eq!(x.message(), "out of cheese");
    let x = translate(&ContextError::GetRemainingTimeFailed);
    assert_eq!(x.message(), "failed to call get_remaining_time_in_millis");
}

#[test]
fn diagnostic_texts_are_exact() {
    assert_eq!(
        ContextError::AttributeExtractionFailed.diagnostic(),
        "failed to extract context attribute"
    );
    assert_eq!(
        ConversionError::new(String::from("cycle detected")).diagnostic(),
        "cycle detected"
    );
}

#[test]
fn null_value_is_null() {
    assert!(Value::Null.is_null());
    assert!(!Value::Bool(false).is_null());
    assert!(!Value::Text(String::from("null")).is_null());
}

#[test]
fn deep_eq_ignores_object_pair_order() {
    let a = Value::Object(vec![
        (String::from("x"), Value::Int(1)),
        (String::from("y"), Value::Text(String::from("two"))),
    ]);
    let b = Value::Object(vec![
        (String::from("y"), Value::Text(String::from("two"))),
        (String::from("x"), Value::Int(1)),
    ]);
    assert!(a.deep_eq(&b));
    assert!(b.deep_eq(&a));
}

#[test]
fn deep_eq_respects_array_order() {
    let a = Value::Array(vec![Value::Int(1), Value::Int(2)]);
    let b = Value::Array(vec![Value::Int(2), Value::Int(1)]);
    assert!(!a.deep_eq(&b));
    let c = Value::Array(vec![Value::Int(1), Value::Int(2)]);
    assert!(a.deep_eq(&c));
}

#[test]
fn deep_eq_distinguishes_values_under_equal_keys() {
    let a = Value::Object(vec![(String::from("k"), Value::Bool(true))]);
    let b = Value::Object(vec![(String::from("k"), Value::Bool(false))]);
    assert!(!a.deep_eq(&b));
}

#[test]
fn deep_eq_matches_integer_across_carriers() {
    assert!(Value::Int(7).deep_eq(&Value::UInt(7)));
    assert!(Value::UInt(7).deep_eq(&Value::Int(7)));
    assert!(!Value::Int(-1).deep_eq(&Value::UInt(u64::MAX)));
}

#[test]
fn deep_eq_on_nested_structures() {
    let a = Value::Object(vec![(
        String::from("items"),
        Value::Array(vec![Value::Object(vec![
            (String::from("a"), Value::Null),
            (String::from("b"), Value::Float(0u64)),
        ])]),
    )]);
    let b = Value::Object(vec![(
        String::from("items"),
        Value::Array(vec![Value::Object(vec![
            (String::from("b"), Value::Float(0u64)),
            (String::from("a"), Value::Null),
        ])]),
    )]);
    assert!(a.deep_eq(&b));
    let c = Value::Object(vec![(String::from("items"), Value::Array(vec![]))]);
    assert!(!a.deep_eq(&c));
}
