use covax::slot_verifier::{
    build_verification_plan, classify_claim_answer, count_free, filter_short_notice_at,
    VerificationOutcome, VerifyAction,
};

const SLOT: &str = "2021-05-21T10:00:00.000+02:00";

fn slot_epoch(s: &str) -> i64 {
    chrono::DateTime::parse_from_str(s, "%Y-%m-%dT%H:%M:%S%.f%:z")
        .unwrap()
        .timestamp()
}

#[test]
fn empty_candidate_list_plans_nothing() {
    let plan = build_verification_plan(&vec![]).expect("an empty plan");
    assert!(plan.is_empty());
}

#[test]
fn plan_claims_each_candidate_then_settles_then_releases_once() {
    let slots = vec![SLOT.to_string(), "2021-05-21T11:20:00.000+02:00".to_string()];
    let plan = build_verification_plan(&slots).expect("a plan");
    assert_eq!(plan.len(), 4);
    match &plan[0] {
        VerifyAction::Claim { slot } => assert_eq!(slot, SLOT),
        _ => panic!("first action must claim the first candidate"),
    }
    match &plan[1] {
        VerifyAction::Claim { slot } => assert_eq!(slot, "2021-05-21T11:20:00.000+02:00"),
        _ => panic!("second action must claim the second candidate"),
    }
    assert!(matches!(plan[2], VerifyAction::Settle));
    match &plan[3] {
        VerifyAction::ReleaseDecoy { slot } => assert_eq!(slot, "2021-05-31T10:00:00+02:00"),
        _ => panic!("the pass must end with the decoy release"),
    }
    let releases = plan
        .iter()
        .filter(|a| matches!(a, VerifyAction::ReleaseDecoy { .. }))
        .count();
    assert_eq!(releases, 1);
}

#[test]
fn claims_are_planned_strictly_in_sequence() {
    let slots: Vec<String> = (0..5)
        .map(|h| format!("2021-05-21T0{}:00:00.000+02:00", h))
        .collect();
    let plan = build_verification_plan(&slots).expect("a plan");
    for (i, s) in slots.iter().enumerate() {
        match &plan[i] {
            VerifyAction::Claim { slot } => assert_eq!(slot, s),
            _ => panic!("claims must come one per candidate, in order"),
        }
    }
    for a in &plan[..slots.len()] {
        assert!(matches!(a, VerifyAction::Claim { .. }));
    }
    assert!(matches!(plan[slots.len()], VerifyAction::Settle));
    assert!(matches!(plan[slots.len() + 1], VerifyAction::ReleaseDecoy { .. }));
}

#[test]
fn unreadable_first_candidate_yields_no_plan() {
    assert!(build_verification_plan(&vec!["not a timestamp".to_string()]).is_none());
}

#[test]
fn classification_of_claim_answers() {
    assert_eq!(classify_claim_answer(None), VerificationOutcome::ProbeFailed);
    assert_eq!(classify_claim_answer(Some(true)), VerificationOutcome::Taken);
    assert_eq!(classify_claim_answer(Some(false)), VerificationOutcome::Free);
}

#[test]
fn counts_only_free_outcomes() {
    let outcomes = vec![
        VerificationOutcome::Free,
        VerificationOutcome::Taken,
        VerificationOutcome::ProbeFailed,
        VerificationOutcome::Free,
    ];
    assert_eq!(count_free(&outcomes), 2);
    assert_eq!(count_free(&vec![]), 0);
}

#[test]
fn short_notice_window_keeps_the_next_day_only() {
    let ts = slot_epoch(SLOT);
    let slots = vec![SLOT.to_string()];
    // The slot lies exactly at the reference time: kept.
    assert_eq!(filter_short_notice_at(&slots, ts), slots);
    // Just inside the truncated-minute window: kept.
    assert_eq!(filter_short_notice_at(&slots, ts - 86459), slots);
    // One second further out: dropped.
    assert!(filter_short_notice_at(&slots, ts - 86460).is_empty());
    // A slot already in the past is still short-notice.
    assert_eq!(filter_short_notice_at(&slots, ts + 500_000), slots);
}

#[test]
fn unreadable_candidates_are_dropped_by_the_filter() {
    let slots = vec!["garbage".to_string(), SLOT.to_string()];
    let kept = filter_short_notice_at(&slots, slot_epoch(SLOT));
    assert_eq!(kept, vec![SLOT.to_string()]);
}
