//! The verified core of a bridge between Leptos views and JavaScript (React) callers.
//!
//! The library decides what the bridge does: how JavaScript values convert and show, what a
//! view does with the outcome of a callback, how contexts and mounted views are let go of,
//! and how the TypeScript type of a callback reads. The calls into the JavaScript host that
//! carry these decisions out stand outside it.

mod callback;
mod context;
mod functions;
mod js_value;
mod owner;
mod typescript;

pub use callback::{callback_plan, lemma_callback_outcomes, plan_callback, CallbackPlan};
pub use context::{
    cleans_up, cleanup_step, lemma_cleanup_cleans_its_owner, lemma_cleanup_idempotent,
    lemma_unmount_idempotent, unmount_step, ContextState, MountState,
};
pub use functions::{
    callback_result, expect_function, finish_call, finish_call_with, function_from_js,
    lemma_callback_errors, lemma_function_from_js, lemma_option_from_js,
    lemma_void_accepts_nullish, option_from_js, optional_from_js, CallbackError, ErrorMessage,
    JsRet, NotAJsFunction, NotAVoid, RetFromJs, Void,
};
pub use js_value::{
    display_text, lemma_callable_exactly, lemma_display_text, lemma_nullish_exactly, JsDisplay,
    JsVal, Json,
};
pub use owner::Retired;
pub use typescript::{
    lemma_ts_declaration_shape, lemma_ts_params_in_order, lemma_ts_params_two, lemma_ts_type,
    params_view, ts_declaration, ts_param, ts_params, ts_type, ts_type_declaration, ts_type_of,
};
