use vstd::prelude::*;

use crate::functions::{callback_result, CallbackError, JsRet};
use crate::js_value::JsVal;

verus! {

/// What a view does with the outcome of the callback that a React component handed it.
pub enum CallbackPlan<C, E> {
    /// The callback returned a continuation: the view renders a `div` and, once it is in
    /// the page, calls the continuation with that element and the current context.
    Mount(C),
    /// The callback returned nothing: the view renders its children as they are (a wrapper),
    /// or nothing (an insertion).
    Skip,
    /// The callback failed: the view reports the error and goes on as in `Skip`.
    Report(E),
}

/// The plan for each outcome of the callback.
pub open spec fn callback_plan<C, E>(outcome: Result<Option<C>, E>) -> CallbackPlan<C, E> {
    match outcome {
        Ok(Some(cont)) => CallbackPlan::Mount(cont),
        Ok(None) => CallbackPlan::Skip,
        Err(e) => CallbackPlan::Report(e),
    }
}

/// Decides what a view does with the outcome of its callback.
pub fn plan_callback<C, E>(outcome: Result<Option<C>, E>) -> (p: CallbackPlan<C, E>)
    ensures
        p == callback_plan(outcome),
{
    match outcome {
        Ok(Some(cont)) => CallbackPlan::Mount(cont),
        Ok(None) => CallbackPlan::Skip,
        Err(e) => CallbackPlan::Report(e),
    }
}

/// What a view does after calling a callback that returns an optional continuation `C`:
/// it reports a callback that threw or returned what is not a continuation; it leaves its
/// children as they are where the callback returned `null` or `undefined`; and it mounts the
/// continuation that the callback returned.
pub proof fn lemma_callback_outcomes<C: JsRet>(outcome: Result<JsVal, JsVal>)
    ensures
        outcome is Err ==> callback_plan(callback_result::<Option<C>>(outcome)) matches CallbackPlan::Report(
            CallbackError::JsError(_),
        ),
        outcome matches Ok(v) ==> (v.is_nullish() ==> callback_plan(
            callback_result::<Option<C>>(outcome),
        ) is Skip),
        outcome matches Ok(v) ==> (!v.is_nullish() ==> (C::from_js_spec(v) matches Ok(c) ==> callback_plan(
            callback_result::<Option<C>>(outcome),
        ) == CallbackPlan::<C, CallbackError<C::Error>>::Mount(c))),
        outcome matches Ok(v) ==> (!v.is_nullish() ==> (C::from_js_spec(v) matches Err(e) ==> callback_plan(
            callback_result::<Option<C>>(outcome),
        ) == CallbackPlan::<C, CallbackError<C::Error>>::Report(CallbackError::Convert(e)))),
{
}

} // verus!
