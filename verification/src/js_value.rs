use vstd::prelude::*;

verus! {

/// What `JSON.stringify` gives for a JavaScript object.
#[derive(Debug)]
pub enum Json {
    /// The JSON text.
    Text(String),
    /// No string came back (the value of a function or a symbol serialises to `undefined`).
    Absent,
    /// The call threw (a cyclic object, a `BigInt`).
    Thrown,
}

/// A JavaScript value, as much of it as the bridge reads.
///
/// The kinds are those that `typeof` tells apart; each holds what the bridge reads of a
/// value of that kind.
#[derive(Debug)]
pub enum JsVal {
    Undefined,
    Null,
    Bool(bool),
    /// A number, with the text that Rust's `Display` writes for it as an `f64`.
    Number(String),
    Str(String),
    /// Any other value: an object, a function, a symbol or a `BigInt`.
    Object {
        /// Whether the value can be called (it is a function).
        callable: bool,
        json: Json,
        /// The text of the value's `Debug` formatting.
        debug: String,
    },
}

impl JsVal {
    /// `null` or `undefined`.
    pub open spec fn is_nullish(self) -> bool {
        self is Null || self is Undefined
    }

    /// A function.
    pub open spec fn is_callable(self) -> bool {
        self matches JsVal::Object { callable, .. } && callable
    }

    /// The value can be shown as text: showing `undefined`, or a value whose JSON text is
    /// absent, throws in the host.
    pub open spec fn displayable(self) -> bool {
        match self {
            JsVal::Undefined => false,
            JsVal::Object { json: Json::Absent, .. } => false,
            _ => true,
        }
    }

    pub fn is_null_or_undefined(&self) -> (r: bool)
        ensures
            r == self.is_nullish(),
            r == (self is Null || self is Undefined),
    {
        match self {
            JsVal::Null | JsVal::Undefined => true,
            _ => false,
        }
    }

    /// Whether the value can be shown as text.
    pub fn can_display(&self) -> (r: bool)
        ensures
            r == self.displayable(),
    {
        match self {
            JsVal::Undefined => false,
            JsVal::Object { json: Json::Absent, .. } => false,
            _ => true,
        }
    }

    pub fn is_function(&self) -> (r: bool)
        ensures
            r == self.is_callable(),
            r == (self matches JsVal::Object { callable: true, .. }),
    {
        match self {
            JsVal::Object { callable, .. } => *callable,
            _ => false,
        }
    }
}

/// The text that shows a JavaScript value: a string as it is, a number or a boolean with
/// its kind in front, otherwise the value's JSON text, and where that throws, its `Debug`
/// text after the word `object`.
pub open spec fn display_text(v: JsVal) -> Seq<char> {
    match v {
        JsVal::Str(s) => s@,
        JsVal::Number(t) => "num "@ + t@,
        JsVal::Bool(b) => "boolean "@ + (if b { "true"@ } else { "false"@ }),
        JsVal::Null => "null"@,
        JsVal::Object { json: Json::Text(s), .. } => s@,
        JsVal::Object { debug, .. } => "object "@ + debug@,
        JsVal::Undefined => Seq::empty(),
    }
}

/// A JavaScript value that is shown as text.
#[derive(Debug)]
pub struct JsDisplay(pub JsVal);

impl JsDisplay {
    /// The text that shows the value.
    pub fn text(&self) -> (r: String)
        requires
            self.0.displayable(),
        ensures
            r@ == display_text(self.0),
            self.0 matches JsVal::Str(s) ==> r@ == s@,
    {
        match &self.0 {
            JsVal::Str(s) => s.clone(),
            JsVal::Number(t) => String::from_str("num ").concat(t.as_str()),
            JsVal::Bool(b) => {
                let word = if *b { "true" } else { "false" };
                String::from_str("boolean ").concat(word)
            },
            JsVal::Null => String::from_str("null"),
            JsVal::Object { json: Json::Text(s), .. } => s.clone(),
            JsVal::Object { debug, .. } => String::from_str("object ").concat(debug.as_str()),
            JsVal::Undefined => String::new(),
        }
    }
}

/// Exactly `null` and `undefined` are nullish: a boolean, a number, a string and every
/// object (functions among them) are not.
pub proof fn lemma_nullish_exactly(v: JsVal)
    ensures
        v.is_nullish() <==> (v is Null || v is Undefined),
        v is Object ==> !v.is_nullish(),
{
}

/// Exactly the callable objects are functions, whatever their JSON or `Debug` text.
pub proof fn lemma_callable_exactly(v: JsVal)
    ensures
        v.is_callable() <==> (v matches JsVal::Object { callable: true, .. }),
{
}

/// How each kind of value shows: a string as exactly its characters, a number as `num `
/// and its text, a boolean as `boolean true` or `boolean false`, `null` as `null`, an object
/// as its JSON text, or as `object ` and its `Debug` text where `JSON.stringify` throws.
pub proof fn lemma_display_text(s: String, callable: bool, debug: String)
    ensures
        display_text(JsVal::Str(s)) == s@,
        display_text(JsVal::Str(s)).len() == s@.len(),
        display_text(JsVal::Number(s)) == "num "@ + s@,
        display_text(JsVal::Bool(true)) == "boolean true"@,
        display_text(JsVal::Bool(false)) == "boolean false"@,
        display_text(JsVal::Null) == "null"@,
        display_text(JsVal::Object { callable, json: Json::Text(s), debug }) == s@,
        display_text(JsVal::Object { callable, json: Json::Thrown, debug }) == "object "@ + debug@,
{
    reveal_strlit("boolean ");
    reveal_strlit("true");
    reveal_strlit("false");
    reveal_strlit("boolean true");
    reveal_strlit("boolean false");
    assert("boolean "@ + "true"@ =~= "boolean true"@);
    assert("boolean "@ + "false"@ =~= "boolean false"@);
}

} // verus!
