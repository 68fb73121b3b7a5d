use consenzisk::digest::{to_hex, Digest32};
use consenzisk::policy::{
    judge_case, select_cases, should_skip, state_root_matches_recompute,
    state_root_matches_specs, CaseOutcome,
};

fn digest(fill: u8) -> Digest32 {
    Digest32::new(vec![fill; 32])
}

fn output_of(d: &Digest32) -> Vec<u8> {
    let mut out = b"stage:start\n".to_vec();
    out.extend_from_slice(&to_hex(d));
    out.push(b'\n');
    out
}

#[test]
fn skip_hits_only_listed_names() {
    let excluded = vec!["flaky_case".to_string(), "slow_case".to_string()];
    assert!(should_skip(&"flaky_case".to_string(), &excluded));
    assert!(should_skip(&"slow_case".to_string(), &excluded));
    assert!(!should_skip(&"deposit_basic".to_string(), &excluded));
    assert!(!should_skip(&"flaky".to_string(), &excluded));
}

#[test]
fn excluded_case_never_runs_nor_counts() {
    let cases = vec![
        "deposit_basic".to_string(),
        "flaky_case".to_string(),
        "deposit_top_up".to_string(),
    ];
    let excluded = vec!["flaky_case".to_string()];
    let selected = select_cases(&cases, &excluded);
    assert_eq!(
        selected,
        vec!["deposit_basic".to_string(), "deposit_top_up".to_string()]
    );
}

#[test]
fn selection_keeps_order_and_duplicates() {
    let cases = vec!["a".to_string(), "b".to_string(), "a".to_string()];
    let excluded = vec!["b".to_string()];
    assert_eq!(select_cases(&cases, &excluded), vec!["a".to_string(), "a".to_string()]);
}

#[test]
fn specs_check_with_post_state_wants_the_post_commitment() {
    let pre = digest(1);
    let post = digest(2);
    assert!(state_root_matches_specs(&digest(2), &pre, &Some(post)));
    assert!(!state_root_matches_specs(&digest(1), &pre, &Some(digest(2))));
}

#[test]
fn specs_check_without_post_state_wants_the_state_unchanged() {
    let pre = digest(7);
    assert!(state_root_matches_specs(&digest(7), &pre, &None));
    assert!(!state_root_matches_specs(&digest(8), &pre, &None));
}

#[test]
fn recompute_check_wants_exact_agreement() {
    assert!(state_root_matches_recompute(&digest(3), &digest(3)));
    assert!(!state_root_matches_recompute(&digest(3), &digest(4)));
}

#[test]
fn epoch_no_op_scenario_passes_when_commitment_is_unchanged() {
    // all validators already maximally effective: the apply stage changes
    // nothing, there is no post-state fixture, and the guest emits the
    // pre-state's own commitment
    let pre_commit = digest(0x11);
    let guest = digest(0x11);
    let outcome = judge_case(true, &output_of(&guest), true, false, &pre_commit, &None, &None);
    assert_eq!(outcome, CaseOutcome::Passed);
}

#[test]
fn epoch_scenario_fails_when_state_moved_without_fixture() {
    let pre_commit = digest(0x11);
    let guest = digest(0x22);
    let outcome = judge_case(true, &output_of(&guest), true, false, &pre_commit, &None, &None);
    assert_eq!(
        outcome,
        CaseOutcome::DigestMismatch { specs_ok: false, recompute_ok: true }
    );
}

#[test]
fn deposit_mutation_scenario_wants_the_post_fixture_commitment() {
    let pre_commit = digest(0x11);
    let post_commit = digest(0x33);
    let guest = digest(0x33);
    let outcome = judge_case(
        true,
        &output_of(&guest),
        true,
        false,
        &pre_commit,
        &Some(post_commit),
        &None,
    );
    assert_eq!(outcome, CaseOutcome::Passed);
    let stale = judge_case(
        true,
        &output_of(&digest(0x11)),
        true,
        false,
        &pre_commit,
        &Some(digest(0x33)),
        &None,
    );
    assert_eq!(
        stale,
        CaseOutcome::DigestMismatch { specs_ok: false, recompute_ok: true }
    );
}

#[test]
fn recompute_agreement_scenario_is_independent_of_fixtures() {
    // the host re-applies the same deposit outside the sandbox; agreement is
    // judged against the guest digest alone, fixture or no fixture
    let guest = digest(0x44);
    let with_fixture = judge_case(
        true,
        &output_of(&guest),
        false,
        true,
        &digest(0x11),
        &Some(digest(0x44)),
        &Some(digest(0x44)),
    );
    assert_eq!(with_fixture, CaseOutcome::Passed);
    let without_fixture = judge_case(
        true,
        &output_of(&guest),
        false,
        true,
        &digest(0x11),
        &None,
        &Some(digest(0x44)),
    );
    assert_eq!(without_fixture, CaseOutcome::Passed);
    let disagreeing = judge_case(
        true,
        &output_of(&guest),
        false,
        true,
        &digest(0x11),
        &None,
        &Some(digest(0x45)),
    );
    assert_eq!(
        disagreeing,
        CaseOutcome::DigestMismatch { specs_ok: true, recompute_ok: false }
    );
}

#[test]
fn both_checks_report_together() {
    let guest = digest(0x50);
    let outcome = judge_case(
        true,
        &output_of(&guest),
        true,
        true,
        &digest(0x51),
        &None,
        &Some(digest(0x52)),
    );
    assert_eq!(
        outcome,
        CaseOutcome::DigestMismatch { specs_ok: false, recompute_ok: false }
    );
}

#[test]
fn guest_failure_is_fatal_before_any_comparison() {
    let outcome = judge_case(false, b"", true, false, &digest(1), &None, &None);
    assert_eq!(outcome, CaseOutcome::GuestExecutionFailed);
}

#[test]
fn unparseable_output_is_fatal() {
    let outcome = judge_case(true, b"no digest here\n", true, false, &digest(1), &None, &None);
    assert!(matches!(outcome, CaseOutcome::OutputNotParsed(_)));
}
