//! The composition protocol: a composite's validation result derived from
//! its members' results, one path segment per nesting level, concatenated in
//! member declaration order.

use vstd::prelude::*;

use crate::error::spec_prefixed;
use crate::error::ErrorSpec;
use crate::error::ValidationError;
use crate::validate::views_of;
use crate::validate::Validate;

verus! {

/// The prefixing step on a whole member result: every error of the member
/// gains the member's declared name as exactly one leading path segment.
pub open spec fn spec_prefix_all(prefix: Seq<char>, es: Seq<ErrorSpec>) -> Seq<ErrorSpec> {
    es.map_values(|e: ErrorSpec| spec_prefixed(prefix, e))
}

/// Builds a composite's validation result member by member: a composite type
/// registers each member under its declared name, in declaration order, and
/// the builder validates it, prefixes its errors with that name, and appends
/// them to one flat list. Writing a composite's `validate` this way replaces
/// hand-written aggregation boilerplate.
pub struct Composer {
    errors: Vec<ValidationError>,
}

impl View for Composer {
    type V = Seq<ErrorSpec>;

    closed spec fn view(&self) -> Seq<ErrorSpec> {
        views_of(self.errors@)
    }
}

impl Composer {
    /// Starts a composition with no errors collected: a composite with zero
    /// members reports the empty list, whatever its other state.
    pub fn new() -> (r: Self)
        ensures
            r@ == Seq::<ErrorSpec>::empty(),
    {
        let r = Composer { errors: Vec::new() };
        proof {
            assert(r@ =~= Seq::<ErrorSpec>::empty());
        }
        r
    }

    /// One composition step: validates `member`, prepends `name` — the
    /// member's declared name, never empty — to each resulting field path,
    /// and appends the outcome, in order, to what was collected so far.
    ///
    /// A member that is itself composite already carries its own internal
    /// dotted paths; this step adds exactly one more leading segment, so the
    /// full path reads root to leaf, left to right.
    pub fn member<T: Validate>(&mut self, name: &str, member: &T)
        requires
            name@.len() > 0,
        ensures
            final(self)@ == old(self)@ + spec_prefix_all(name@, member.spec_errors()),
    {
        let ghost collected = self@;
        let mut es = member.validate();
        let ghost member_errors = views_of(es@);
        assert(member_errors.subrange(0, member_errors.len() as int) == member_errors);
        while es.len() > 0
            invariant
                es@.len() <= member_errors.len(),
                views_of(es@) == member_errors.subrange(
                    member_errors.len() - es@.len(),
                    member_errors.len() as int,
                ),
                self@ == collected + spec_prefix_all(
                    name@,
                    member_errors.take(member_errors.len() - es@.len()),
                ),
            decreases es@.len(),
        {
            let ghost done = member_errors.len() - es@.len();
            let ghost es_before = es@;
            let mut e = es.remove(0);
            proof {
                assert(views_of(es_before)[0] == es_before[0]@);
                assert(e@ == member_errors[done]);
                assert(views_of(es@) =~= views_of(es_before).subrange(
                    1,
                    views_of(es_before).len() as int,
                ));
            }
            e.add_prefix(name);
            let ghost prefixed = e@;
            let ghost prev = self.errors@;
            self.errors.push(e);
            proof {
                let before = spec_prefix_all(name@, member_errors.take(done));
                let after = spec_prefix_all(name@, member_errors.take(done + 1));
                assert(prefixed == spec_prefixed(name@, member_errors[done]));
                assert(views_of(self.errors@) =~= views_of(prev).push(prefixed));
                assert(member_errors.take(done + 1) =~= member_errors.take(done).push(
                    member_errors[done],
                ));
                assert(after =~= before.push(prefixed));
                assert(collected + before.push(prefixed) =~= (collected + before).push(
                    prefixed,
                ));
                assert(self@ == collected + after);
            }
        }
        proof {
            assert(member_errors.take(member_errors.len() as int) == member_errors);
            assert(self@ == collected + spec_prefix_all(name@, member_errors));
        }
    }

    /// Hands back the flat aggregated list, the composite's `validate`
    /// result: no deduplication, no reordering, no filtering.
    pub fn finish(self) -> (r: Vec<ValidationError>)
        ensures
            views_of(r@) == self@,
    {
        self.errors
    }
}

/// Composition order law: where a composite's members, declared in order
/// `(a, b)`, report one error each, the composite reports exactly those two,
/// `a`'s first, each prefixed with its own member's name.
pub proof fn lemma_composition_order(
    na: Seq<char>,
    ea: Seq<ErrorSpec>,
    nb: Seq<char>,
    eb: Seq<ErrorSpec>,
)
    requires
        ea.len() == 1,
        eb.len() == 1,
    ensures
        spec_prefix_all(na, ea) + spec_prefix_all(nb, eb) == seq![
            spec_prefixed(na, ea[0]),
            spec_prefixed(nb, eb[0]),
        ],
{
    assert(spec_prefix_all(na, ea) + spec_prefix_all(nb, eb) =~= seq![
        spec_prefixed(na, ea[0]),
        spec_prefixed(nb, eb[0]),
    ]);
}

/// Nesting law: across two composition levels each level contributes exactly
/// one leading path segment, outer level first, so a full path reads root to
/// leaf, left to right; messages pass through unchanged.
pub proof fn lemma_nesting(outer: Seq<char>, inner: Seq<char>, es: Seq<ErrorSpec>, i: int)
    requires
        0 <= i < es.len(),
    ensures
        spec_prefix_all(outer, spec_prefix_all(inner, es)).len() == es.len(),
        spec_prefix_all(outer, spec_prefix_all(inner, es))[i].field == outer + seq!['.'] + inner
            + seq!['.'] + es[i].field,
        spec_prefix_all(outer, spec_prefix_all(inner, es))[i].message == es[i].message,
{
    assert(spec_prefix_all(outer, spec_prefix_all(inner, es))[i] == spec_prefixed(
        outer,
        spec_prefixed(inner, es[i]),
    ));
    crate::error::lemma_prefixed_twice(inner, outer, es[i]);
}

} // verus!
