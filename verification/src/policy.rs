//! The host's verification policy: which test cases run at all, and the
//! three-way judgment over a guest's digest — against the expected
//! post-state's commitment, against the unchanged pre-state's commitment,
//! and against a digest recomputed outside the sandbox.

use crate::digest::{
    digest_lines, parse_state_root_from_hex, spec_parse_state_root, Digest32, DigestParseError,
};
use vstd::prelude::*;

verus! {

/// Whether a test-case name stands in the exclusion list.
pub open spec fn spec_excluded(name: Seq<char>, excluded: Seq<String>) -> bool {
    exists|i: int| 0 <= i < excluded.len() && excluded[i]@ == name
}

/// Whether this test case is skipped: skipped cases get no guest invocation
/// and no entry in the pass/fail counts.
pub fn should_skip(name: &String, excluded: &Vec<String>) -> (r: bool)
    ensures
        r == spec_excluded(name@, excluded@),
{
    let n = excluded.len();
    for i in 0..n
        invariant
            n == excluded@.len(),
            forall|j: int| 0 <= j < i ==> excluded@[j]@ != name@,
    {
        if excluded[i].eq(name) {
            return true;
        }
    }
    false
}

/// One step of a filter: pushing an element keeps what was selected and
/// appends the new element exactly when the predicate holds of it.
proof fn lemma_filter_push<A>(s: Seq<A>, pred: spec_fn(A) -> bool, x: A)
    ensures
        pred(x) ==> s.push(x).filter(pred) == s.filter(pred).push(x),
        !pred(x) ==> s.push(x).filter(pred) == s.filter(pred),
{
    reveal(Seq::filter);
    assert(s.push(x).drop_last() =~= s);
    assert(s.push(x).last() == x);
}

/// The test cases that run: those whose name is not excluded, in their
/// discovery order.
pub open spec fn spec_selected(cases: Seq<String>, excluded: Seq<String>) -> Seq<String> {
    cases.filter(|c: String| !spec_excluded(c@, excluded))
}

/// The test cases that will run: those whose name is not excluded, in their
/// discovery order.
pub fn select_cases(cases: &Vec<String>, excluded: &Vec<String>) -> (r: Vec<String>)
    ensures
        r@ == spec_selected(cases@, excluded@),
{
    let ghost pred = |c: String| !spec_excluded(c@, excluded@);
    let mut r: Vec<String> = Vec::new();
    let n = cases.len();
    proof {
        assert(cases@.take(0) =~= Seq::<String>::empty());
        reveal(Seq::filter);
    }
    for i in 0..n
        invariant
            n == cases@.len(),
            r@ == cases@.take(i as int).filter(pred),
            pred == (|c: String| !spec_excluded(c@, excluded@)),
    {
        let skip = should_skip(&cases[i], excluded);
        proof {
            lemma_filter_push(cases@.take(i as int), pred, cases@[i as int]);
            assert(cases@.take(i + 1) =~= cases@.take(i as int).push(cases@[i as int]));
        }
        if !skip {
            r.push(cases[i].clone());
        }
    }
    proof {
        assert(cases@.take(n as int) =~= cases@);
    }
    r
}

/// An excluded name never appears among the selected test cases.
pub proof fn lemma_excluded_never_selected(cases: Seq<String>, excluded: Seq<String>, name: Seq<char>)
    requires
        spec_excluded(name, excluded),
    ensures
        forall|i: int|
            0 <= i < spec_selected(cases, excluded).len() ==> (#[trigger] spec_selected(
                cases,
                excluded,
            )[i])@ != name,
{
    let pred = |c: String| !spec_excluded(c@, excluded);
    assert forall|i: int| 0 <= i < spec_selected(cases, excluded).len() implies (
    #[trigger] spec_selected(cases, excluded)[i])@ != name by {
        cases.lemma_filter_pred(pred, i);
    }
}

/// The commitments a digest view of an optional snapshot gives.
pub open spec fn spec_opt_view(o: Option<Digest32>) -> Option<Seq<u8>> {
    match o {
        Option::Some(d) => Option::Some(d@),
        Option::None => Option::None,
    }
}

/// The spec-comparison rule: with an expected post-state, the guest digest
/// must equal its commitment (the operation must mutate exactly as
/// specified); without one, it must equal the pre-state's commitment (the
/// operation must not mutate the state).
pub open spec fn spec_specs_verdict(guest: Seq<u8>, pre: Seq<u8>, post: Option<Seq<u8>>) -> bool {
    match post {
        Option::Some(p) => guest == p,
        Option::None => guest == pre,
    }
}

/// Judges the guest digest against the fixtures' commitments.
pub fn state_root_matches_specs(
    guest: &Digest32,
    pre_commit: &Digest32,
    post_commit: &Option<Digest32>,
) -> (r: bool)
    ensures
        r == spec_specs_verdict(guest@, pre_commit@, spec_opt_view(*post_commit)),
{
    match post_commit {
        Option::Some(p) => guest.equals(p),
        Option::None => guest.equals(pre_commit),
    }
}

/// When a test case supplies no expected post-state, the spec comparison
/// passes exactly when the guest digest equals the commitment of the
/// unmodified pre-state.
pub proof fn lemma_no_post_state_means_unchanged(guest: Seq<u8>, pre: Seq<u8>)
    ensures
        spec_specs_verdict(guest, pre, Option::None) == (guest == pre),
{
}

/// Judges the guest digest against one recomputed by applying the same
/// operation directly, outside the sandbox.
pub fn state_root_matches_recompute(guest: &Digest32, recomputed: &Digest32) -> (r: bool)
    ensures
        r == (guest@ == recomputed@),
{
    guest.equals(recomputed)
}

/// The host's verdict on one executed test case.
#[derive(PartialEq, Eq, Debug)]
pub enum CaseOutcome {
    /// The guest exited non-zero; fatal to the whole run.
    GuestExecutionFailed,
    /// No unambiguous digest line in the guest's output; fatal to the run.
    OutputNotParsed(DigestParseError),
    /// The guest produced a digest, but an enabled comparison rejected it.
    DigestMismatch { specs_ok: bool, recompute_ok: bool },
    /// Every enabled comparison accepted the guest's digest.
    Passed,
}

/// The run-policy core for one test case that was not skipped: a failed
/// guest invocation and an unparseable output are fatal; otherwise the
/// enabled comparisons judge the digest, together, without short-circuiting.
pub fn judge_case(
    guest_exit_ok: bool,
    guest_stdout: &[u8],
    compare_specs: bool,
    compare_recompute: bool,
    pre_commit: &Digest32,
    post_commit: &Option<Digest32>,
    recomputed: &Option<Digest32>,
) -> (r: CaseOutcome)
    requires
        compare_recompute ==> recomputed is Some,
    ensures
        !guest_exit_ok ==> r is GuestExecutionFailed,
        guest_exit_ok ==> match spec_parse_state_root(guest_stdout@) {
            Option::None => r is OutputNotParsed,
            Option::Some(g) => {
                let specs_ok = !compare_specs || spec_specs_verdict(
                    g,
                    pre_commit@,
                    spec_opt_view(*post_commit),
                );
                let recompute_ok = !compare_recompute || g == recomputed->0@;
                if specs_ok && recompute_ok {
                    r is Passed
                } else {
                    r == (CaseOutcome::DigestMismatch { specs_ok, recompute_ok })
                }
            },
        },
        guest_exit_ok && r is OutputNotParsed ==> digest_lines(guest_stdout@).len() != 1,
{
    if !guest_exit_ok {
        return CaseOutcome::GuestExecutionFailed;
    }
    let digest = match parse_state_root_from_hex(guest_stdout) {
        Result::Ok(d) => d,
        Result::Err(e) => {
            return CaseOutcome::OutputNotParsed(e);
        },
    };
    let specs_ok = if compare_specs {
        state_root_matches_specs(&digest, pre_commit, post_commit)
    } else {
        true
    };
    let recompute_ok = if compare_recompute {
        if let Option::Some(rc) = recomputed {
            state_root_matches_recompute(&digest, rc)
        } else {
            true
        }
    } else {
        true
    };
    if specs_ok && recompute_ok {
        CaseOutcome::Passed
    } else {
        CaseOutcome::DigestMismatch { specs_ok, recompute_ok }
    }
}

} // verus!
