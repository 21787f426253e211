//! The availability calendar document and the wire messages of the booking
//! protocol: the availability query, the second-shot availability query and
//! the reservation (claim) request body.

use vstd::prelude::*;
use vstd::string::*;
use crate::resolve::ResolvedIdentifierSet;
use crate::text::{dash_join_dec, dash_join_seqs, dash_join_strings, dash_join_u64, dec_of};
use crate::clock::gen_random_limit;

verus! {

/// One slot record of the calendar document; the timestamp is `None` where
/// the document carried none that could be read.
pub struct RawSlot {
    pub start_date: Option<String>,
}

/// One day's bucket of slots; `None` where the document carried no list.
pub struct DayBucket {
    pub slots: Option<Vec<RawSlot>>,
}

/// The availability calendar document as it came off the wire.
pub struct AvailabilityDoc {
    pub availabilities: Option<Vec<DayBucket>>,
}

/// The usable timestamps of a slot list, in order; slots without one are
/// dropped silently.
pub open spec fn slots_candidates(slots: Seq<RawSlot>) -> Seq<Seq<char>>
    decreases slots.len(),
{
    if slots.len() == 0 {
        Seq::empty()
    } else {
        slots_candidates(slots.drop_last()) + match slots.last().start_date {
            Some(d) => seq![d@],
            None => Seq::<Seq<char>>::empty(),
        }
    }
}

/// The usable timestamps of one day's bucket.
pub open spec fn bucket_candidates(b: DayBucket) -> Seq<Seq<char>> {
    match b.slots {
        Some(v) => slots_candidates(v@),
        None => Seq::empty(),
    }
}

/// The candidate timestamps of the whole document: only the first two daily
/// buckets contribute, today and tomorrow, whatever else the document holds.
pub open spec fn doc_candidates(doc: AvailabilityDoc) -> Seq<Seq<char>> {
    match doc.availabilities {
        Some(bs) => {
            if bs@.len() == 0 {
                Seq::empty()
            } else if bs@.len() == 1 {
                bucket_candidates(bs@[0])
            } else {
                bucket_candidates(bs@[0]) + bucket_candidates(bs@[1])
            }
        },
        None => Seq::empty(),
    }
}

#[verifier::loop_isolation(false)]
fn push_bucket(b: &DayBucket, out: &mut Vec<String>)
    ensures
        final(out).deep_view() == old(out).deep_view() + bucket_candidates(*b),
{
    let slots = match &b.slots {
        Some(slots) => slots,
        None => {
            proof {
                assert(final(out).deep_view() =~= old(out).deep_view() + bucket_candidates(*b));
            }
            return ;
        },
    };
    for k in 0..slots.len()
        invariant
            out.deep_view() == old(out).deep_view() + slots_candidates(slots@.take(k as int)),
    {
        let ghost pre = out.deep_view();
        if let Some(d) = &slots[k].start_date {
            out.push(d.clone());
            proof {
                assert(out.deep_view() =~= pre + seq![d@]);
            }
        }
        proof {
            let t = slots@.take(k + 1);
            assert(t.drop_last() =~= slots@.take(k as int));
            assert(t.last() == slots@[k as int]);
            assert(out.deep_view() =~= old(out).deep_view() + slots_candidates(t));
        }
    }
    proof {
        assert(slots@.take(slots@.len() as int) =~= slots@);
    }
}

/// Flattens the calendar document to its candidate timestamps, taking at most
/// the first two daily buckets and dropping slots without a usable timestamp.
pub fn flatten_two_days(doc: &AvailabilityDoc) -> (r: Vec<String>)
    ensures
        r.deep_view() == doc_candidates(*doc),
{
    let mut out: Vec<String> = Vec::new();
    proof {
        assert(out.deep_view() =~= Seq::<Seq<char>>::empty());
    }
    let buckets = match &doc.availabilities {
        Some(buckets) => buckets,
        None => {
            return out;
        },
    };
    if buckets.len() >= 1 {
        push_bucket(&buckets[0], &mut out);
    }
    if buckets.len() >= 2 {
        push_bucket(&buckets[1], &mut out);
    }
    proof {
        if buckets@.len() == 0 {
            assert(out.deep_view() =~= doc_candidates(*doc));
        } else if buckets@.len() == 1 {
            assert(out.deep_view() =~= doc_candidates(*doc));
        } else {
            assert(out.deep_view() =~= doc_candidates(*doc));
        }
    }
    out
}

/// However many daily buckets two documents hold, equal first two buckets
/// mean equal candidates: days beyond tomorrow never contribute.
pub proof fn lemma_only_first_two_days_contribute(d1: AvailabilityDoc, d2: AvailabilityDoc)
    requires
        d1.availabilities is Some,
        d2.availabilities is Some,
        d1.availabilities.unwrap()@.len() >= 2,
        d2.availabilities.unwrap()@.len() >= 2,
        d1.availabilities.unwrap()@[0] == d2.availabilities.unwrap()@[0],
        d1.availabilities.unwrap()@[1] == d2.availabilities.unwrap()@[1],
    ensures
        doc_candidates(d1) == doc_candidates(d2),
{
}

/// The identifier sets rendered for the wire: each set dash-joined, numbers
/// in decimal.
pub struct WireIds {
    pub agenda_ids: String,
    pub practice_ids: String,
    pub visit_motive_ids: String,
}

impl WireIds {
    /// The wire rendering of a resolved triple set.
    pub open spec fn renders(self, ids: ResolvedIdentifierSet) -> bool {
        &&& self.agenda_ids@ == dash_join_dec(ids.agenda_ids@)
        &&& self.practice_ids@ == dash_join_seqs(ids.practice_ids.deep_view())
        &&& self.visit_motive_ids@ == dash_join_dec(ids.visit_motive_ids@)
    }

    /// Joins each identifier set with dashes for the query string.
    pub fn new(ids: &ResolvedIdentifierSet) -> (r: WireIds)
        ensures
            r.renders(*ids),
    {
        WireIds {
            agenda_ids: dash_join_u64(&ids.agenda_ids),
            practice_ids: dash_join_strings(&ids.practice_ids),
            visit_motive_ids: dash_join_u64(&ids.visit_motive_ids),
        }
    }
}

/// The query string of one availability probe: one GET round trip carries the
/// joined identifier strings, the target date, the public insurance-sector
/// tag, the flag asking the server to destroy temporary holds, and the small
/// page-size parameter.
pub struct ProbeQuery {
    pub start_date: String,
    pub visit_motive_ids: String,
    pub agenda_ids: String,
    pub insurance_sector: String,
    pub practice_ids: String,
    pub destroy_temporary: String,
    pub limit: String,
}

/// Builds the availability query for a resolved identifier set and a target
/// date.
pub fn build_probe_query(ids: &WireIds, start_date: &String) -> (q: ProbeQuery)
    ensures
        q.start_date@ == start_date@,
        q.visit_motive_ids@ == ids.visit_motive_ids@,
        q.agenda_ids@ == ids.agenda_ids@,
        q.insurance_sector@ == "public"@,
        q.practice_ids@ == ids.practice_ids@,
        q.destroy_temporary@ == "true"@,
        q.limit@ == dec_of(4),
{
    ProbeQuery {
        start_date: start_date.clone(),
        visit_motive_ids: ids.visit_motive_ids.clone(),
        agenda_ids: ids.agenda_ids.clone(),
        insurance_sector: String::from_str("public"),
        practice_ids: ids.practice_ids.clone(),
        destroy_temporary: String::from_str("true"),
        limit: gen_random_limit(),
    }
}

/// The query string of a second-shot availability probe; it carries the first
/// shot's slot besides the usual availability parameters.
pub struct SecondProbeQuery {
    pub start_date: String,
    pub visit_motive_ids: String,
    pub agenda_ids: String,
    pub first_slot: String,
    pub insurance_sector: String,
    pub practice_ids: String,
    pub destroy_temporary: String,
    pub limit: String,
}

/// Builds the second-shot availability query.
pub fn build_second_probe_query(ids: &WireIds, start_date: &String, first_slot: &String) -> (q:
    SecondProbeQuery)
    ensures
        q.start_date@ == start_date@,
        q.visit_motive_ids@ == ids.visit_motive_ids@,
        q.agenda_ids@ == ids.agenda_ids@,
        q.first_slot@ == first_slot@,
        q.insurance_sector@ == "public"@,
        q.practice_ids@ == ids.practice_ids@,
        q.destroy_temporary@ == "true"@,
        q.limit@ == dec_of(4),
{
    SecondProbeQuery {
        start_date: start_date.clone(),
        visit_motive_ids: ids.visit_motive_ids.clone(),
        agenda_ids: ids.agenda_ids.clone(),
        first_slot: first_slot.clone(),
        insurance_sector: String::from_str("public"),
        practice_ids: ids.practice_ids.clone(),
        destroy_temporary: String::from_str("true"),
        limit: gen_random_limit(),
    }
}

/// The body of one reservation attempt: the joined agenda and motive strings,
/// the practice string as a one-element list, and the slot being claimed.
pub struct ClaimRequest {
    pub agenda_ids: String,
    pub practice_ids: Vec<String>,
    pub start_date: String,
    pub visit_motive_ids: String,
}

/// Builds the reservation request body for one candidate slot.
pub fn build_claim_request(ids: &WireIds, slot: &String) -> (r: ClaimRequest)
    ensures
        r.agenda_ids@ == ids.agenda_ids@,
        r.practice_ids.deep_view() == seq![ids.practice_ids@],
        r.start_date@ == slot@,
        r.visit_motive_ids@ == ids.visit_motive_ids@,
{
    let mut practice_ids: Vec<String> = Vec::new();
    practice_ids.push(ids.practice_ids.clone());
    proof {
        assert(practice_ids.deep_view() =~= seq![ids.practice_ids@]);
    }
    ClaimRequest {
        agenda_ids: ids.agenda_ids.clone(),
        practice_ids,
        start_date: slot.clone(),
        visit_motive_ids: ids.visit_motive_ids.clone(),
    }
}

} // verus!
