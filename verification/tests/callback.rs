use leptos_react::{plan_callback, ts_type_declaration, ts_type_of, CallbackPlan};

#[test]
fn continuation_is_mounted() {
    let p: CallbackPlan<&str, ()> = plan_callback(Ok(Some("cont")));
    assert!(matches!(p, CallbackPlan::Mount("cont")));
}

#[test]
fn no_continuation_is_skipped() {
    let p: CallbackPlan<&str, ()> = plan_callback(Ok(None));
    assert!(matches!(p, CallbackPlan::Skip));
}

#[test]
fn failed_callback_is_reported() {
    let p: CallbackPlan<&str, &str> = plan_callback(Err("oops"));
    assert!(matches!(p, CallbackPlan::Report("oops")));
}

#[test]
fn ts_types_of_rust_types() {
    assert_eq!(ts_type_of(&"String".to_string()), "string");
    assert_eq!(ts_type_of(&"bool".to_string()), "boolean");
    assert_eq!(ts_type_of(&"u32".to_string()), "u32");
    assert_eq!(ts_type_of(&"Strings".to_string()), "Strings");
}

#[test]
fn ts_declaration_without_parameters() {
    assert_eq!(
        ts_type_declaration("ReactWrapper", &vec![]),
        "export type ReactWrapper = () => (LeptosContinuation | undefined);"
    );
}

#[test]
fn ts_declaration_with_one_parameter() {
    assert_eq!(
        ts_type_declaration("Wrap", &vec![("uri".to_string(), "String".to_string())]),
        "export type Wrap = (uri:string) => (LeptosContinuation | undefined);"
    );
}

#[test]
fn ts_declaration_with_three_parameters() {
    let params = vec![
        ("uri".to_string(), "String".to_string()),
        ("open".to_string(), "bool".to_string()),
        ("data".to_string(), "DocumentData".to_string()),
    ];
    assert_eq!(
        ts_type_declaration("Insert", &params),
        "export type Insert = (uri:string, open:boolean, data:DocumentData) => (LeptosContinuation | undefined);"
    );
}

use leptos_react::{finish_call, CallbackError, JsVal, NotAVoid, Void};

fn outcome_plan(outcome: Result<JsVal, JsVal>) -> CallbackPlan<Void, CallbackError<NotAVoid>> {
    plan_callback(finish_call::<Option<Void>>(outcome))
}

#[test]
fn thrown_callback_is_reported() {
    assert!(matches!(
        outcome_plan(Err(JsVal::Str("boom".to_string()))),
        CallbackPlan::Report(CallbackError::JsError(_))
    ));
}

#[test]
fn undefined_from_callback_leaves_children() {
    assert!(matches!(outcome_plan(Ok(JsVal::Undefined)), CallbackPlan::Skip));
    assert!(matches!(outcome_plan(Ok(JsVal::Null)), CallbackPlan::Skip));
}

#[test]
fn unconvertible_return_is_reported() {
    assert!(matches!(
        outcome_plan(Ok(JsVal::Bool(true))),
        CallbackPlan::Report(CallbackError::Convert(_))
    ));
}
