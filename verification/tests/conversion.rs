use leptos_react::{
    expect_function, finish_call, finish_call_with, optional_from_js, CallbackError, ErrorMessage, JsDisplay, JsRet, JsVal, Json,
    NotAJsFunction, NotAVoid, RetFromJs, Void,
};

fn object(json: Json, debug: &str) -> JsVal {
    JsVal::Object { callable: false, json, debug: debug.to_string() }
}

fn function() -> JsVal {
    JsVal::Object { callable: true, json: Json::Absent, debug: "JsValue(Function)".to_string() }
}

fn text(v: JsVal) -> String {
    JsDisplay(v).text()
}

#[test]
fn display_string_as_it_is() {
    assert_eq!(text(JsVal::Str("hello".to_string())), "hello");
}

#[test]
fn display_number() {
    assert_eq!(text(JsVal::Number("1.5".to_string())), "num 1.5");
}

#[test]
fn display_booleans() {
    assert_eq!(text(JsVal::Bool(true)), "boolean true");
    assert_eq!(text(JsVal::Bool(false)), "boolean false");
}

#[test]
fn display_null_as_json() {
    assert_eq!(text(JsVal::Null), "null");
}

#[test]
fn display_object_as_json() {
    assert_eq!(text(object(Json::Text("{\"a\":1}".to_string()), "JsValue(Object)")), "{\"a\":1}");
}

#[test]
fn display_object_without_json_by_debug() {
    assert_eq!(text(object(Json::Thrown, "JsValue(BigInt)")), "object JsValue(BigInt)");
}

#[test]
fn void_accepts_null_and_undefined() {
    assert!(matches!(Void::from_js(JsVal::Null), Ok(Void)));
    assert!(matches!(Void::from_js(JsVal::Undefined), Ok(Void)));
}

#[test]
fn void_refuses_other_values() {
    match Void::from_js(JsVal::Bool(false)) {
        Err(NotAVoid(JsDisplay(JsVal::Bool(false)))) => {}
        _ => panic!("a boolean is not void"),
    }
    assert!(Void::from_js(JsVal::Str(String::new())).is_err());
    assert!(Void::from_js(JsVal::Number("0".to_string())).is_err());
}

#[test]
fn not_a_void_message() {
    let err = Void::from_js(JsVal::Number("3".to_string())).err().unwrap();
    assert_eq!(err.message(), "Not a javascript function: num 3");
}

#[test]
fn option_of_null_or_undefined_is_none() {
    assert!(matches!(<Option<Void>>::from_js(JsVal::Null), Ok(None)));
    assert!(matches!(<Option<Void>>::from_js(JsVal::Undefined), Ok(None)));
}

#[test]
fn option_passes_other_values_on() {
    match <Option<Void>>::from_js(JsVal::Str("x".to_string())) {
        Err(NotAVoid(JsDisplay(JsVal::Str(s)))) => assert_eq!(s, "x"),
        _ => panic!("a string is not void"),
    }
}

#[test]
fn option_of_option_is_none_on_null() {
    assert!(matches!(<Option<Option<Void>>>::from_js(JsVal::Null), Ok(None)));
}

#[test]
fn functions_are_accepted() {
    assert!(matches!(expect_function(function()), Ok(JsVal::Object { callable: true, .. })));
}

#[test]
fn other_values_are_not_functions() {
    match expect_function(JsVal::Number("2".to_string())) {
        Err(e) => assert_eq!(e.message(), "Not a javascript function: num 2"),
        Ok(_) => panic!("a number is not a function"),
    }
    assert!(expect_function(JsVal::Null).is_err());
    assert!(expect_function(object(Json::Text("{}".to_string()), "JsValue(Object)")).is_err());
}

#[test]
fn not_a_function_keeps_the_value() {
    match expect_function(JsVal::Bool(true)) {
        Err(NotAJsFunction(JsDisplay(JsVal::Bool(true)))) => {}
        _ => panic!("a boolean is not a function"),
    }
}

#[test]
fn thrown_value_is_a_js_error() {
    let r: Result<Void, CallbackError<NotAVoid>> = finish_call(Err(JsVal::Str("boom".to_string())));
    match r {
        Err(e) => {
            assert!(matches!(e, CallbackError::JsError(_)));
            assert_eq!(e.message(), "Javascript error: boom");
        }
        Ok(_) => panic!("the callback threw"),
    }
}

#[test]
fn returned_value_converts() {
    let r: Result<Option<Void>, CallbackError<NotAVoid>> = finish_call(Ok(JsVal::Undefined));
    assert!(matches!(r, Ok(None)));
}

#[test]
fn unconvertible_value_is_a_conversion_error() {
    let r: Result<Void, CallbackError<NotAVoid>> = finish_call(Ok(JsVal::Bool(true)));
    match r {
        Err(e) => {
            assert!(matches!(e, CallbackError::Convert(_)));
            assert_eq!(e.message(), "Conversion error: Not a javascript function: boolean true");
        }
        Ok(_) => panic!("true is not void"),
    }
}

#[test]
fn ret_from_js_holds_its_value() {
    let r = RetFromJs(5u8);
    assert_eq!(r.0, 5);
}

#[test]
fn optional_from_js_gives_none_on_nullish() {
    let r: Result<Option<u8>, ()> = optional_from_js(true, "ignored", |_| Ok(1));
    assert_eq!(r, Ok(None));
}

#[test]
fn optional_from_js_converts_other_values() {
    let r: Result<Option<usize>, ()> = optional_from_js(false, "four", |s: &str| Ok(s.len()));
    assert_eq!(r, Ok(Some(4)));
    let r: Result<Option<usize>, &str> = optional_from_js(false, "x", |_| Err("bad"));
    assert_eq!(r, Err("bad"));
}

#[test]
fn finish_call_with_keeps_the_returned_value() {
    let r: Result<usize, CallbackError<()>> = finish_call_with(Ok("abc"), |s: &str| Ok(s.len()));
    assert!(matches!(r, Ok(3)));
}

#[test]
fn finish_call_with_reports_a_thrown_value() {
    let r: Result<usize, CallbackError<()>> =
        finish_call_with(Err(JsVal::Number("7".to_string())), |s: &str| Ok(s.len()));
    match r {
        Err(CallbackError::JsError(JsDisplay(JsVal::Number(t)))) => assert_eq!(t, "7"),
        _ => panic!("the call threw"),
    }
}

#[test]
fn finish_call_with_reports_a_conversion_error() {
    let r: Result<usize, CallbackError<&str>> = finish_call_with(Ok("abc"), |_: &str| Err("no"));
    assert!(matches!(r, Err(CallbackError::Convert("no"))));
}

#[test]
fn undefined_and_unserialisable_values_cannot_be_shown() {
    assert!(!JsVal::Undefined.can_display());
    assert!(!function().can_display());
    assert!(JsVal::Null.can_display());
    assert!(object(Json::Thrown, "x").can_display());
    let err = expect_function(JsVal::Undefined).err().unwrap();
    assert!(!err.can_show());
    let err = expect_function(JsVal::Null).err().unwrap();
    assert!(err.can_show());
    assert_eq!(err.message(), "Not a javascript function: null");
}

#[test]
fn value_kinds() {
    assert!(JsVal::Null.is_null_or_undefined());
    assert!(JsVal::Undefined.is_null_or_undefined());
    assert!(!JsVal::Bool(false).is_null_or_undefined());
    assert!(function().is_function());
    assert!(!JsVal::Str("f".to_string()).is_function());
}
