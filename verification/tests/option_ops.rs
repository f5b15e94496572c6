use better_unwrap::BEOption;
use std::cell::Cell;

#[test]
fn test_or_panic_with_some() {
    let option: Option<u32> = Some(42);
    assert_eq!(option.or_panic(), 42);
}

#[test]
fn test_or_panic_with_string_option() {
    let option: Option<String> = Some("hello".to_string());
    assert_eq!(option.or_panic(), "hello");
}

#[test]
#[should_panic(expected = "called `or_panic()` on a `None` value")]
fn test_or_panic_panics_on_none() {
    let option: Option<u32> = None;
    let _ = option.or_panic();
}

#[test]
fn test_panic_or_with_option_some() {
    let option: Option<u32> = Some(42);
    assert_eq!(option.panic_or(100), 42);
}

#[test]
fn test_panic_or_with_option_none() {
    let option: Option<u32> = None;
    assert_eq!(option.panic_or(100), 100);
}

#[test]
fn test_panic_or_else_with_option_some() {
    let option: Option<u32> = Some(42);
    assert_eq!(option.panic_or_else(|| 200), 42);
}

#[test]
fn test_panic_or_else_with_option_none() {
    let option: Option<u32> = None;
    assert_eq!(option.panic_or_else(|| 200), 200);
}

#[test]
fn test_panic_or_default_with_option_some() {
    let option: Option<String> = Some("hello".to_string());
    assert_eq!(option.panic_or_default(), "hello".to_string());
}

#[test]
fn test_panic_or_default_with_option_none() {
    let option: Option<String> = None;
    assert_eq!(option.panic_or_default(), String::new());
}

#[test]
fn test_panic_with_option_some() {
    let option: Option<u32> = Some(42);
    assert_eq!(option.panic_with("should not panic"), 42);
}

#[test]
#[should_panic(expected = "Custom error message")]
fn test_panic_with_option_none() {
    let option: Option<u32> = None;
    let _ = option.panic_with("Custom error message");
}

#[test]
fn option_absent_producer_computes_the_value() {
    let option: Option<u32> = None;
    assert_eq!(option.panic_or_else(|| 2 * 21), 42);
}

#[test]
fn option_producer_runs_once_when_absent() {
    let calls = Cell::new(0u32);
    let option: Option<u32> = None;
    let value = option.panic_or_else(|| {
        calls.set(calls.get() + 1);
        7
    });
    assert_eq!(value, 7);
    assert_eq!(calls.get(), 1);
}

#[test]
fn option_producer_does_not_run_when_present() {
    let calls = Cell::new(0u32);
    let option: Option<u32> = Some(5);
    let value = option.panic_or_else(|| {
        calls.set(calls.get() + 1);
        7
    });
    assert_eq!(value, 5);
    assert_eq!(calls.get(), 0);
}

#[test]
fn option_default_of_integer_is_zero() {
    let option: Option<i64> = None;
    assert_eq!(option.panic_or_default(), 0);
}

#[test]
fn option_default_of_vec_is_empty() {
    let option: Option<Vec<u8>> = None;
    assert_eq!(option.panic_or_default(), Vec::<u8>::new());
}

#[test]
fn option_present_value_passes_through_every_operation() {
    let held = String::from("kept");
    assert_eq!(Some(held.clone()).or_panic(), held);
    assert_eq!(Some(held.clone()).panic_or(String::from("other")), held);
    assert_eq!(Some(held.clone()).panic_or_else(|| String::from("other")), held);
    assert_eq!(Some(held.clone()).panic_or_default(), held);
    assert_eq!(Some(held.clone()).panic_with("unused"), held);
}

#[test]
fn option_present_default_value_is_not_confused_with_fallback() {
    // A held value that equals the type's default is still the held value.
    assert_eq!(Some(0u32).panic_or(9), 0);
    assert_eq!(Some(0u32).panic_or_else(|| 9), 0);
    assert_eq!(Some(String::new()).panic_or(String::from("x")), "");
}

#[test]
fn option_fallback_is_returned_exactly() {
    let option: Option<String> = None;
    assert_eq!(option.panic_or(String::from("fallback")), "fallback");
    let nested: Option<Option<u8>> = None;
    assert_eq!(nested.panic_or(Some(3)), Some(3));
}
