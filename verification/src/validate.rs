//! The validation capability: a value answers, as an ordered error list,
//! "what is wrong with me, from my own local perspective".

use vstd::prelude::*;

use crate::error::spec_error;
use crate::error::ErrorSpec;
use crate::error::ValidationError;

verus! {

/// The models of a sequence of validation errors, element by element.
pub open spec fn views_of(errors: Seq<ValidationError>) -> Seq<ErrorSpec> {
    errors.map_values(|e: ValidationError| e@)
}

/// A trait for validating structs.
///
/// Implement it for a leaf type with direct domain rules, or for a composite
/// type by aggregating the members' results (see [`crate::Composer`]). The
/// errors a value reports carry field paths local to that value; positional
/// context is attached by the owning composite's prefixing step.
pub trait Validate {
    /// The model of the error list this value currently reports. `validate`
    /// is a pure function of the value and returns exactly this sequence.
    spec fn spec_errors(&self) -> Seq<ErrorSpec>;

    /// Validates the current instance and returns the list of validation
    /// errors, empty exactly when the instance is valid.
    fn validate(&self) -> (r: Vec<ValidationError>)
        ensures
            views_of(r@) == self.spec_errors(),
    ;
}

/// Validity on the model: a value satisfies every rule its implementer
/// defined for it exactly when it reports no errors.
pub open spec fn spec_valid<T: Validate>(v: &T) -> bool {
    v.spec_errors().len() == 0
}

/// Emptiness law, executed: `validate(v)` returns an empty list iff `v`
/// satisfies every rule defined for it. There is no separate boolean state:
/// validity is defined as the emptiness of the report.
pub fn is_valid<T: Validate>(v: &T) -> (r: bool)
    ensures
        r == spec_valid(v),
{
    let errors = v.validate();
    errors.is_empty()
}

/// Appends `ValidationError::new(field, message)` to `errors` iff `test`
/// holds: the conditional-append utility leaf checks are written with.
pub fn push_error_if(errors: &mut Vec<ValidationError>, test: bool, field: &str, message: &str)
    ensures
        test ==> views_of(final(errors)@) == views_of(old(errors)@).push(
            spec_error(field@, message@),
        ),
        !test ==> final(errors)@ == old(errors)@,
{
    if test {
        errors.push(ValidationError::new(field, message));
        proof {
            assert(views_of(errors@) =~= views_of(old(errors)@).push(
                spec_error(field@, message@),
            ));
        }
    }
}

/// Determinism law: two calls of `validate` on an unchanged value return
/// equal sequences. Both results are pinned to the value's `spec_errors`
/// model, and equal models force the errors to agree pairwise.
pub proof fn lemma_validate_deterministic<T: Validate>(
    v: &T,
    r1: Seq<ValidationError>,
    r2: Seq<ValidationError>,
)
    requires
        views_of(r1) == v.spec_errors(),
        views_of(r2) == v.spec_errors(),
    ensures
        r1.len() == r2.len(),
        forall|i: int| 0 <= i < r1.len() ==> r1[i]@ == r2[i]@,
{
    assert(views_of(r1).len() == r1.len());
    assert(views_of(r2).len() == r2.len());
    assert forall|i: int| 0 <= i < r1.len() implies r1[i]@ == r2[i]@ by {
        assert(views_of(r1)[i] == r1[i]@);
        assert(views_of(r2)[i] == r2[i]@);
    }
}

/// Emptiness law, on the model: the list `validate` returns is empty iff the
/// value satisfies every rule defined for it.
pub proof fn lemma_emptiness<T: Validate>(v: &T, r: Seq<ValidationError>)
    requires
        views_of(r) == v.spec_errors(),
    ensures
        r.len() == 0 <==> spec_valid(v),
{
}

} // verus!
