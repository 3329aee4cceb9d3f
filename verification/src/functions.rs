use vstd::prelude::*;

use crate::js_value::{display_text, JsDisplay, JsVal};

verus! {

/// A call of a JavaScript callback failed.
#[derive(Debug)]
pub enum CallbackError<E> {
    /// The callback threw this value.
    JsError(JsDisplay),
    /// The callback returned a value that did not convert to the expected type.
    Convert(E),
}

/// The value was expected to be a JavaScript function and is not.
#[derive(Debug)]
pub struct NotAJsFunction(pub JsDisplay);

/// The value was expected to be `null` or `undefined` and is not.
#[derive(Debug)]
pub struct NotAVoid(pub JsDisplay);

/// A value converted from JavaScript by its own conversion.
#[derive(Debug)]
pub struct RetFromJs<R>(pub R);

/// The result of a callback that returns nothing (`null` or `undefined`).
#[derive(Debug)]
pub struct Void;

/// A type that a value returned from JavaScript converts to.
pub trait JsRet: Sized {
    type Error;

    /// What the conversion gives for a value; the conversion is a function of the value.
    spec fn from_js_spec(value: JsVal) -> Result<Self, Self::Error>;

    fn from_js(value: JsVal) -> (r: Result<Self, Self::Error>)
        ensures
            r == Self::from_js_spec(value),
    ;
}

impl JsRet for Void {
    type Error = NotAVoid;

    /// `null` and `undefined` are accepted; every other value is refused and kept in the error.
    open spec fn from_js_spec(value: JsVal) -> Result<Void, NotAVoid> {
        if value.is_nullish() {
            Ok(Void)
        } else {
            Err(NotAVoid(JsDisplay(value)))
        }
    }

    fn from_js(value: JsVal) -> (r: Result<Void, NotAVoid>) {
        if value.is_null_or_undefined() {
            Ok(Void)
        } else {
            Err(NotAVoid(JsDisplay(value)))
        }
    }
}

/// The conversion of an optional value: `null` and `undefined` give `None`, any other value
/// converts as `R` does.
pub open spec fn option_from_js<R: JsRet>(value: JsVal) -> Result<Option<R>, R::Error> {
    if value.is_nullish() {
        Ok(None)
    } else {
        match R::from_js_spec(value) {
            Ok(x) => Ok(Some(x)),
            Err(e) => Err(e),
        }
    }
}

/// Converts an optional value held by the host: where it is `null` or `undefined` (as
/// `nullish` tells) the result is `None`; otherwise `convert` converts it, and its value is
/// wrapped in `Some` and its error passed on.
pub fn optional_from_js<V, T, E, F: FnOnce(V) -> Result<T, E>>(nullish: bool, value: V, convert: F) -> (r:
    Result<Option<T>, E>)
    requires
        !nullish ==> convert.requires((value,)),
    ensures
        nullish ==> r == Ok::<Option<T>, E>(None),
        !nullish ==> match r {
            Ok(Some(x)) => convert.ensures((value,), Ok::<T, E>(x)),
            Ok(None) => false,
            Err(e) => convert.ensures((value,), Err::<T, E>(e)),
        },
{
    if nullish {
        return Ok(None);
    }
    match convert(value) {
        Ok(x) => Ok(Some(x)),
        Err(e) => Err(e),
    }
}

impl<R: JsRet> JsRet for Option<R> {
    type Error = R::Error;

    open spec fn from_js_spec(value: JsVal) -> Result<Option<R>, R::Error> {
        option_from_js::<R>(value)
    }

    fn from_js(value: JsVal) -> (r: Result<Option<R>, R::Error>) {
        let nullish = value.is_null_or_undefined();
        let convert = |x: JsVal| -> (c: Result<R, R::Error>)
            ensures
                c == R::from_js_spec(x),
            { R::from_js(x) };
        optional_from_js(nullish, value, convert)
    }
}

/// What a function-typed value converts to: a function is kept, any other value is refused
/// and kept in the error.
pub open spec fn function_from_js(value: JsVal) -> Result<JsVal, NotAJsFunction> {
    if value.is_callable() {
        Ok(value)
    } else {
        Err(NotAJsFunction(JsDisplay(value)))
    }
}

/// Accepts a value as a JavaScript function.
pub fn expect_function(value: JsVal) -> (r: Result<JsVal, NotAJsFunction>)
    ensures
        r == function_from_js(value),
        (r is Ok) <==> (value matches JsVal::Object { callable: true, .. }),
        r matches Ok(x) ==> x == value,
{
    if value.is_function() {
        Ok(value)
    } else {
        Err(NotAJsFunction(JsDisplay(value)))
    }
}

/// What a callback call gives, from what the JavaScript call did: a thrown value is a
/// `JsError`; a returned value converts to `R`, and a refused conversion is a `Convert` error.
pub open spec fn callback_result<R: JsRet>(outcome: Result<JsVal, JsVal>) -> Result<
    R,
    CallbackError<R::Error>,
> {
    match outcome {
        Err(thrown) => Err(CallbackError::JsError(JsDisplay(thrown))),
        Ok(returned) => match R::from_js_spec(returned) {
            Ok(x) => Ok(x),
            Err(e) => Err(CallbackError::Convert(e)),
        },
    }
}

/// Finishes a call of a JavaScript callback whose returned value the host still holds: a
/// thrown value (already read) is a `JsError`; a returned value is converted by `convert`,
/// whose value is the result and whose error is a `Convert` error.
pub fn finish_call_with<V, T, E, F: FnOnce(V) -> Result<T, E>>(
    outcome: Result<V, JsVal>,
    convert: F,
) -> (r: Result<T, CallbackError<E>>)
    requires
        outcome matches Ok(v) ==> convert.requires((v,)),
    ensures
        outcome matches Err(thrown) ==> r == Err::<T, CallbackError<E>>(
            CallbackError::JsError(JsDisplay(thrown)),
        ),
        outcome matches Ok(v) ==> match r {
            Ok(x) => convert.ensures((v,), Ok::<T, E>(x)),
            Err(CallbackError::Convert(e)) => convert.ensures((v,), Err::<T, E>(e)),
            Err(CallbackError::JsError(_)) => false,
        },
{
    match outcome {
        Err(thrown) => Err(CallbackError::JsError(JsDisplay(thrown))),
        Ok(returned) => match convert(returned) {
            Ok(x) => Ok(x),
            Err(e) => Err(CallbackError::Convert(e)),
        },
    }
}

/// Finishes a call of a JavaScript callback: takes what the JavaScript call did and gives
/// the callback's result.
pub fn finish_call<R: JsRet>(outcome: Result<JsVal, JsVal>) -> (r: Result<R, CallbackError<R::Error>>)
    ensures
        r == callback_result::<R>(outcome),
{
    let convert = |x: JsVal| -> (c: Result<R, R::Error>)
        ensures
            c == R::from_js_spec(x),
        { R::from_js(x) };
    finish_call_with(outcome, convert)
}

/// An error that can be shown as a message.
pub trait ErrorMessage {
    /// Whether the message can be shown (the value inside can be shown as text).
    spec fn showable(&self) -> bool;

    /// The message.
    spec fn message_spec(&self) -> Seq<char>;

    fn can_show(&self) -> (r: bool)
        ensures
            r == self.showable(),
    ;

    fn message(&self) -> (r: String)
        requires
            self.showable(),
        ensures
            r@ == self.message_spec(),
    ;
}

impl ErrorMessage for NotAJsFunction {
    open spec fn showable(&self) -> bool {
        self.0.0.displayable()
    }

    open spec fn message_spec(&self) -> Seq<char> {
        "Not a javascript function: "@ + display_text(self.0.0)
    }

    fn can_show(&self) -> (r: bool) {
        self.0.0.can_display()
    }

    fn message(&self) -> (r: String) {
        String::from_str("Not a javascript function: ").concat(self.0.text().as_str())
    }
}

impl ErrorMessage for NotAVoid {
    open spec fn showable(&self) -> bool {
        self.0.0.displayable()
    }

    /// The same message as that of `NotAJsFunction`.
    open spec fn message_spec(&self) -> Seq<char> {
        "Not a javascript function: "@ + display_text(self.0.0)
    }

    fn can_show(&self) -> (r: bool) {
        self.0.0.can_display()
    }

    fn message(&self) -> (r: String) {
        String::from_str("Not a javascript function: ").concat(self.0.text().as_str())
    }
}

impl<E: ErrorMessage> ErrorMessage for CallbackError<E> {
    open spec fn showable(&self) -> bool {
        match self {
            CallbackError::JsError(d) => d.0.displayable(),
            CallbackError::Convert(e) => e.showable(),
        }
    }

    open spec fn message_spec(&self) -> Seq<char> {
        match self {
            CallbackError::JsError(d) => "Javascript error: "@ + display_text(d.0),
            CallbackError::Convert(e) => "Conversion error: "@ + e.message_spec(),
        }
    }

    fn can_show(&self) -> (r: bool) {
        match self {
            CallbackError::JsError(d) => d.0.can_display(),
            CallbackError::Convert(e) => e.can_show(),
        }
    }

    fn message(&self) -> (r: String) {
        match self {
            CallbackError::JsError(d) => String::from_str("Javascript error: ").concat(
                d.text().as_str(),
            ),
            CallbackError::Convert(e) => String::from_str("Conversion error: ").concat(
                e.message().as_str(),
            ),
        }
    }
}

/// `Void` accepts exactly `null` and `undefined`, and refuses every other value, keeping it
/// in the error.
pub proof fn lemma_void_accepts_nullish(value: JsVal)
    ensures
        (<Void as JsRet>::from_js_spec(value) is Ok) <==> (value is Null || value is Undefined),
        !(value is Null || value is Undefined) ==> <Void as JsRet>::from_js_spec(value) == Err::<
            Void,
            NotAVoid,
        >(NotAVoid(JsDisplay(value))),
{
}

/// An optional value is `None` exactly on `null` and `undefined`; any other value (an
/// object, a function among them) converts as `R` does, its value wrapped in `Some` and its
/// error passed on.
pub proof fn lemma_option_from_js<R: JsRet>(value: JsVal)
    ensures
        (value is Null || value is Undefined) ==> <Option<R> as JsRet>::from_js_spec(value) == Ok::<
            Option<R>,
            R::Error,
        >(None),
        !(value is Null || value is Undefined) ==> (R::from_js_spec(value) matches Ok(x)
            ==> <Option<R> as JsRet>::from_js_spec(value) == Ok::<Option<R>, R::Error>(Some(x))),
        !(value is Null || value is Undefined) ==> (R::from_js_spec(value) matches Err(e)
            ==> <Option<R> as JsRet>::from_js_spec(value) == Err::<Option<R>, R::Error>(e)),
        (<Option<R> as JsRet>::from_js_spec(value) matches Ok(None)) ==> (value is Null
            || value is Undefined),
{
}

/// A value is accepted as a function exactly when it is callable, whatever its JSON or
/// `Debug` text, and is then kept as it is; any other value is refused and kept in the error.
pub proof fn lemma_function_from_js(value: JsVal)
    ensures
        (function_from_js(value) is Ok) <==> (value matches JsVal::Object { callable: true, .. }),
        function_from_js(value) matches Ok(x) ==> x == value,
        function_from_js(value) matches Err(e) ==> e == NotAJsFunction(JsDisplay(value)),
{
}

/// A callback that throws fails with a JavaScript error, whatever it was to return; one that
/// returns fails only where the returned value does not convert, with a conversion error.
pub proof fn lemma_callback_errors<R: JsRet>(outcome: Result<JsVal, JsVal>)
    ensures
        outcome is Err ==> callback_result::<R>(outcome) matches Err(CallbackError::JsError(_)),
        outcome matches Ok(v) ==> (callback_result::<R>(outcome) is Ok <==> R::from_js_spec(v) is Ok),
        outcome is Ok ==> !(callback_result::<R>(outcome) matches Err(CallbackError::JsError(_))),
{
}

} // verus!
