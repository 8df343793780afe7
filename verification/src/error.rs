//! Field-level validation failures and the path-prefixing step.

use vstd::prelude::*;

verus! {

/// Mathematical model of a validation failure: the field path and the
/// message, each as a sequence of characters.
pub ghost struct ErrorSpec {
    pub field: Seq<char>,
    pub message: Seq<char>,
}

/// The model of a freshly constructed error: the bare local field name and
/// the message, stored verbatim.
pub open spec fn spec_error(field: Seq<char>, message: Seq<char>) -> ErrorSpec {
    ErrorSpec { field, message }
}

/// The prefixing step on the model: one path segment and a separating dot
/// are prepended to the field path; the message is unchanged.
pub open spec fn spec_prefixed(prefix: Seq<char>, e: ErrorSpec) -> ErrorSpec {
    ErrorSpec { field: prefix + seq!['.'] + e.field, message: e.message }
}

/// An error that occurs during validation of a struct's field: the
/// dot-separated path of the field that failed and a message describing the
/// failure. Once constructed, the only supported mutation is [`Self::add_prefix`].
#[derive(Debug)]
pub struct ValidationError {
    /// The dot-separated path of the field that failed validation.
    pub field: String,
    /// A message describing the validation error.
    pub message: String,
}

impl View for ValidationError {
    type V = ErrorSpec;

    open spec fn view(&self) -> ErrorSpec {
        ErrorSpec { field: self.field@, message: self.message@ }
    }
}

impl ValidationError {
    /// Creates a new `ValidationError` for a field with a given message,
    /// storing both verbatim. The field starts as the bare local name: dots
    /// are introduced only by later prefixing.
    pub fn new(field: &str, message: &str) -> (r: Self)
        ensures
            r@ == spec_error(field@, message@),
    {
        ValidationError { field: field.to_owned(), message: message.to_owned() }
    }

    /// Prepends `prefix` and a separating dot to the field path, so the path
    /// gains exactly one leading segment; the message is unchanged.
    ///
    /// An empty prefix is accepted and yields a leading dot, as the same
    /// concatenation says. Callers that compose members never pass one:
    /// [`crate::Composer::member`] requires a non-empty member name, so
    /// composed paths are never malformed.
    pub fn add_prefix(&mut self, prefix: &str)
        ensures
            final(self)@ == spec_prefixed(prefix@, old(self)@),
    {
        let mut f = prefix.to_owned();
        f.append(".");
        f.append(self.field.as_str());
        proof {
            reveal_strlit(".");
            assert(f@ =~= prefix@ + seq!['.'] + self.field@);
        }
        self.field = f;
    }
}

/// Prefixing law: prefixing with `p` turns field `f` into `p`, a dot, then
/// `f`, and leaves the message alone.
pub proof fn lemma_prefixed_field(p: Seq<char>, e: ErrorSpec)
    ensures
        spec_prefixed(p, e).field == p + seq!['.'] + e.field,
        spec_prefixed(p, e).message == e.message,
{
}

/// Repeated prefixing accumulates segments outermost-first: prefixing with
/// `p` and then with `q` yields the field path `q`, dot, `p`, dot, then the
/// original field.
pub proof fn lemma_prefixed_twice(p: Seq<char>, q: Seq<char>, e: ErrorSpec)
    ensures
        spec_prefixed(q, spec_prefixed(p, e)).field == q + seq!['.'] + p + seq!['.'] + e.field,
        spec_prefixed(q, spec_prefixed(p, e)).message == e.message,
{
    assert(spec_prefixed(q, spec_prefixed(p, e)).field =~= q + seq!['.'] + p + seq!['.']
        + e.field);
}

} // verus!
