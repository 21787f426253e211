//! Slot verification: the availability calendar over-reports, so the only
//! ground truth is attempting a real reservation per candidate slot. A claim
//! either creates a short-lived hold (the slot was free) or fails with a
//! structured error (it was taken). The session holds at most one slot at a
//! time, so after the batch a decoy claim on a harmless out-of-window
//! timestamp evicts whichever real hold remains.
//!
//! The pass is planned here as an explicit action sequence; the unverified
//! shell executes the actions strictly in order over one cookie-carrying
//! session, so claims are never concurrent and the decoy release always comes
//! last.

use vstd::prelude::*;
use crate::clock::{decoy_of, parse_slot, slot_epoch_of, decoy_slot};

verus! {

/// Seconds to let the remote system settle between the last real claim and
/// the decoy release.
pub const SETTLE_SECONDS: u64 = 1;

/// Days past the first candidate at which the decoy timestamp is placed,
/// far outside any real calendar window.
pub const DECOY_SHIFT_DAYS: u64 = 10;

/// A candidate slot is short-notice when its instant is at most this many
/// seconds past the reference time; a truncated minute count of at most
/// twenty-four hours allows up to fifty-nine seconds more.
pub const SHORT_NOTICE_SECONDS: u64 = 86459;

/// The outcome of one claim attempt.
#[derive(Clone, Copy, PartialEq, Eq, Structural, Debug)]
pub enum VerificationOutcome {
    /// The claim created a reservation: the slot was genuinely free.
    Free,
    /// The claim answered with a structured error: the slot was taken.
    Taken,
    /// The claim itself failed in transport; nothing is known of the slot.
    ProbeFailed,
}

/// One step of a verification pass, executed strictly in sequence.
pub enum VerifyAction {
    /// Attempt a real reservation of the slot.
    Claim { slot: String },
    /// Wait `SETTLE_SECONDS` before the decoy release.
    Settle,
    /// Claim the harmless decoy timestamp to evict the remaining hold.
    ReleaseDecoy { slot: String },
}

/// Classifies one claim answer: a transport failure tells nothing, a
/// structured error means taken, a created reservation means free.
pub fn classify_claim_answer(error_present: Option<bool>) -> (r: VerificationOutcome)
    ensures
        r == (match error_present {
            None => VerificationOutcome::ProbeFailed,
            Some(true) => VerificationOutcome::Taken,
            Some(false) => VerificationOutcome::Free,
        }),
{
    match error_present {
        None => VerificationOutcome::ProbeFailed,
        Some(true) => VerificationOutcome::Taken,
        Some(false) => VerificationOutcome::Free,
    }
}

/// The plan has one claim per candidate, in the candidates' order, then the
/// settle wait, then exactly one decoy release carrying `decoy`.
pub open spec fn plan_shape(plan: Seq<VerifyAction>, slots: Seq<Seq<char>>, decoy: Seq<char>) -> bool {
    &&& plan.len() == slots.len() + 2
    &&& forall|i: int|
        0 <= i < slots.len() ==> ((#[trigger] plan[i]) matches VerifyAction::Claim { slot }
            && slot@ == slots[i])
    &&& plan[slots.len() as int] is Settle
    &&& (plan[slots.len() as int + 1] matches VerifyAction::ReleaseDecoy { slot } && slot@ == decoy)
}

/// How many real claims a plan holds.
pub open spec fn claim_count(s: Seq<VerifyAction>) -> nat
    decreases s.len(),
{
    if s.len() == 0 {
        0
    } else {
        claim_count(s.drop_last()) + if s.last() is Claim {
            1nat
        } else {
            0nat
        }
    }
}

proof fn lemma_claim_count_all(s: Seq<VerifyAction>, k: int)
    requires
        0 <= k <= s.len(),
        forall|i: int| 0 <= i < k ==> (#[trigger] s[i]) is Claim,
        forall|i: int| k <= i < s.len() ==> !((#[trigger] s[i]) is Claim),
    ensures
        claim_count(s) == k,
    decreases s.len(),
{
    if s.len() > 0 {
        if k == s.len() {
            lemma_claim_count_all(s.drop_last(), k - 1);
        } else {
            lemma_claim_count_all(s.drop_last(), k);
        }
    }
}

/// How many decoy releases a plan holds.
pub open spec fn release_count(s: Seq<VerifyAction>) -> nat
    decreases s.len(),
{
    if s.len() == 0 {
        0
    } else {
        release_count(s.drop_last()) + if s.last() is ReleaseDecoy {
            1nat
        } else {
            0nat
        }
    }
}

proof fn lemma_release_count_zero(s: Seq<VerifyAction>)
    requires
        forall|i: int| 0 <= i < s.len() ==> !((#[trigger] s[i]) is ReleaseDecoy),
    ensures
        release_count(s) == 0,
    decreases s.len(),
{
    if s.len() > 0 {
        lemma_release_count_zero(s.drop_last());
    }
}

/// Whenever at least one real claim stands in a well-shaped plan, exactly one
/// decoy release stands in it too, at the very end, after every claim — and
/// the plan, hence the release, is fixed before any outcome is known, so the
/// release follows even if every claim fails in transport.
pub proof fn lemma_one_release_after_claims(
    plan: Seq<VerifyAction>,
    slots: Seq<Seq<char>>,
    decoy: Seq<char>,
)
    requires
        plan_shape(plan, slots, decoy),
    ensures
        release_count(plan) == 1,
        plan[plan.len() - 1] is ReleaseDecoy,
        forall|i: int| 0 <= i < plan.len() && (#[trigger] plan[i]) is Claim ==> i < plan.len() - 1,
{
    let body = plan.drop_last();
    assert(forall|i: int| 0 <= i < body.len() ==> !((#[trigger] body[i]) is ReleaseDecoy));
    lemma_release_count_zero(body);
    assert(release_count(plan) == release_count(body) + 1);
}

/// Claims within one pass are issued one at a time: the plan is a totally
/// ordered sequence holding exactly one claim per candidate, one at each of
/// the first positions and nowhere else, so executing it in order never has
/// two claims in flight, and every claim precedes the settle wait and the
/// release.
pub proof fn lemma_claims_sequential(plan: Seq<VerifyAction>, slots: Seq<Seq<char>>, decoy: Seq<char>)
    requires
        plan_shape(plan, slots, decoy),
    ensures
        claim_count(plan) == slots.len(),
        forall|i: int| 0 <= i < slots.len() ==> (#[trigger] plan[i]) is Claim,
        forall|i: int| slots.len() <= i < plan.len() ==> !((#[trigger] plan[i]) is Claim),
{
    lemma_claim_count_all(plan, slots.len() as int);
}

/// Plans one verification pass. An empty candidate list yields an empty plan:
/// no session is opened and no call of any kind, decoy included, is made.
/// With candidates present, the plan claims each in order, settles, and
/// releases through the decoy placed `DECOY_SHIFT_DAYS` past the first
/// candidate; when that decoy cannot be derived from the first candidate's
/// timestamp, no plan is returned and nothing may be claimed.
#[verifier::loop_isolation(false)]
pub fn build_verification_plan(slots: &Vec<String>) -> (r: Option<Vec<VerifyAction>>)
    ensures
        slots@.len() == 0 ==> (r matches Some(p) && p@.len() == 0),
        (r is None) == (slots@.len() > 0 && decoy_of(
            slots@[0]@,
            DECOY_SHIFT_DAYS as int,
        ) is None),
        (slots@.len() > 0 && r is Some) ==> {
            &&& plan_shape(
                r.unwrap()@,
                slots.deep_view(),
                decoy_of(slots@[0]@, DECOY_SHIFT_DAYS as int).unwrap(),
            )
        },
{
    if slots.len() == 0 {
        let empty: Vec<VerifyAction> = Vec::new();
        return Some(empty);
    }
    let decoy = match decoy_slot(slots[0].as_str(), DECOY_SHIFT_DAYS) {
        Some(decoy) => decoy,
        None => {
            return None;
        },
    };
    let mut plan: Vec<VerifyAction> = Vec::new();
    for i in 0..slots.len()
        invariant
            plan@.len() == i,
            forall|k: int|
                0 <= k < i ==> ((#[trigger] plan@[k]) matches VerifyAction::Claim { slot }
                    && slot@ == slots@[k]@),
    {
        plan.push(VerifyAction::Claim { slot: slots[i].clone() });
    }
    plan.push(VerifyAction::Settle);
    plan.push(VerifyAction::ReleaseDecoy { slot: decoy });
    proof {
        assert(forall|i: int|
            0 <= i < slots@.len() ==> slots.deep_view()[i] == (#[trigger] slots@[i])@);
    }
    Some(plan)
}

/// How many outcomes of a pass say the slot was genuinely free.
pub open spec fn free_count(s: Seq<VerificationOutcome>) -> nat
    decreases s.len(),
{
    if s.len() == 0 {
        0
    } else {
        free_count(s.drop_last()) + if s.last() is Free {
            1nat
        } else {
            0nat
        }
    }
}

/// Counts the outcomes classified free; taken slots and failed probes do not
/// contribute.
#[verifier::loop_isolation(false)]
pub fn count_free(outcomes: &Vec<VerificationOutcome>) -> (n: usize)
    ensures
        n == free_count(outcomes@),
{
    let mut n: usize = 0;
    for i in 0..outcomes.len()
        invariant
            n == free_count(outcomes@.take(i as int)),
            n <= i,
    {
        proof {
            let t = outcomes@.take(i + 1);
            assert(t.drop_last() =~= outcomes@.take(i as int));
            assert(t.last() == outcomes@[i as int]);
        }
        if matches!(outcomes[i], VerificationOutcome::Free) {
            n = n + 1;
        }
    }
    proof {
        assert(outcomes@.take(outcomes@.len() as int) =~= outcomes@);
    }
    n
}

/// The slot's instant parses and lies no later than `SHORT_NOTICE_SECONDS`
/// past the reference time: the product's short-notice window of twenty-four
/// hours, to the truncated minute.
pub open spec fn short_notice(slot: Seq<char>, now: int) -> bool {
    match slot_epoch_of(slot) {
        Some(ts) => ts - now <= SHORT_NOTICE_SECONDS,
        None => false,
    }
}

/// The candidates within the short-notice window of `now`, in order.
pub open spec fn short_notice_filter(slots: Seq<Seq<char>>, now: int) -> Seq<Seq<char>>
    decreases slots.len(),
{
    if slots.len() == 0 {
        Seq::empty()
    } else {
        short_notice_filter(slots.drop_last(), now) + if short_notice(slots.last(), now) {
            seq![slots.last()]
        } else {
            Seq::<Seq<char>>::empty()
        }
    }
}

/// Keeps the candidates whose instant lies within the short-notice window of
/// the reference time `now`; candidates that do not parse are dropped.
#[verifier::loop_isolation(false)]
pub fn filter_short_notice_at(slots: &Vec<String>, now: i64) -> (r: Vec<String>)
    ensures
        r.deep_view() == short_notice_filter(slots.deep_view(), now as int),
{
    let mut out: Vec<String> = Vec::new();
    proof {
        assert(slots.deep_view().take(0) =~= Seq::<Seq<char>>::empty());
        assert(out.deep_view() =~= short_notice_filter(slots.deep_view().take(0), now as int));
    }
    for i in 0..slots.len()
        invariant
            slots.deep_view().len() == slots@.len(),
            forall|k: int| 0 <= k < slots@.len() ==> slots.deep_view()[k] == (#[trigger] slots@[k])@,
            out.deep_view() == short_notice_filter(slots.deep_view().take(i as int), now as int),
    {
        let ghost pre = out.deep_view();
        let keep = match parse_slot(slots[i].as_str()) {
            Some((ts, _)) => {
                match ts.checked_sub(now) {
                    Some(d) => d <= SHORT_NOTICE_SECONDS as i64,
                    None => ts < now,
                }
            },
            None => false,
        };
        if keep {
            out.push(slots[i].clone());
            proof {
                assert(out.deep_view() =~= pre + seq![slots@[i as int]@]);
            }
        }
        proof {
            let t = slots.deep_view().take(i + 1);
            assert(t.drop_last() =~= slots.deep_view().take(i as int));
            assert(t.last() == slots.deep_view()[i as int]);
            assert(keep == short_notice(slots.deep_view()[i as int], now as int));
            assert(out.deep_view() =~= short_notice_filter(t, now as int));
        }
    }
    proof {
        assert(slots.deep_view().take(slots.deep_view().len() as int) =~= slots.deep_view());
    }
    out
}


} // verus!
