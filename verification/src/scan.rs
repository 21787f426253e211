//! One center's scan, as the decisions of the orchestrator: extract the
//! center slug and practice-id hint from the booking-page URL, resolve
//! identifiers from the fetched metadata, plan the availability probe, and
//! plan the verification pass over the probed candidates. The unverified
//! shell performs the HTTP round trips between the steps and hands their
//! decoded documents back; every failure on the way degrades the center's
//! count to zero.

use vstd::prelude::*;
use vstd::string::*;
use crate::{ScanError, ScanResult};
use crate::clock::{decoy_of, now_epoch_seconds};
use crate::metadata::BookingMetadata;
use crate::probe::{build_probe_query, doc_candidates, flatten_two_days, AvailabilityDoc,
    ProbeQuery, WireIds};
use crate::resolve::{any_survivor, lemma_empty_together, lemma_no_match_nothing_eligible, resolve,
    ResolvedIdentifierSet};
use crate::motive::motive_matches;
use crate::slot_verifier::{build_verification_plan, filter_short_notice_at, plan_shape,
    short_notice_filter, VerifyAction, DECOY_SHIFT_DAYS};
use crate::text::{find_char, find_sub, find_sub_index, index_of_char, rfind_char, rindex_of_char,
    str_eq};

verus! {

/// Where the path of the URL begins: the first '/' after the scheme
/// separator.
pub open spec fn path_start_of(url: Seq<char>) -> Option<int> {
    match find_sub_index(url, "://"@, 0) {
        Some(i) => find_char(url, '/', i + 3, url.len() as int),
        None => None,
    }
}

/// Where the path of the URL ends: at its '?' or at the end.
pub open spec fn path_end_of(url: Seq<char>, path_start: int) -> int {
    match find_char(url, '?', path_start, url.len() as int) {
        Some(q) => q,
        None => url.len() as int,
    }
}

/// The center slug: the last, non-empty path segment of the booking URL.
pub open spec fn slug_of(url: Seq<char>) -> Option<Seq<char>> {
    match path_start_of(url) {
        Some(p) => {
            let e = path_end_of(url, p);
            match rfind_char(url, '/', p, e) {
                Some(l) => if l + 1 < e {
                    Some(url.subrange(l + 1, e))
                } else {
                    None
                },
                None => None,
            }
        },
        None => None,
    }
}

/// The raw value of the first `pid` query parameter, scanning '&'-separated
/// pairs whose key stands before their first '='.
pub open spec fn pid_in_query(q: Seq<char>) -> Option<Seq<char>>
    decreases q.len(),
{
    let pair_end = match find_char(q, '&', 0, q.len() as int) {
        Some(a) => a,
        None => q.len() as int,
    };
    let pair = q.subrange(0, pair_end);
    let key = match find_char(pair, '=', 0, pair.len() as int) {
        Some(eq) => pair.subrange(0, eq),
        None => pair,
    };
    let value = match find_char(pair, '=', 0, pair.len() as int) {
        Some(eq) => pair.subrange(eq + 1, pair.len() as int),
        None => Seq::<char>::empty(),
    };
    if key == "pid"@ {
        Some(value)
    } else {
        match find_char(q, '&', 0, q.len() as int) {
            Some(a) => if 0 <= a < q.len() {
                pid_in_query(q.subrange(a + 1, q.len() as int))
            } else {
                None
            },
            None => None,
        }
    }
}

/// The practice-id hint: what follows the first '-' of the `pid` query
/// parameter's value.
pub open spec fn practice_hint_of(url: Seq<char>) -> Option<Seq<char>> {
    match path_start_of(url) {
        Some(p) => match find_char(url, '?', p, url.len() as int) {
            Some(q) => match pid_in_query(url.subrange(q + 1, url.len() as int)) {
                Some(v) => match find_char(v, '-', 0, v.len() as int) {
                    Some(d) => Some(v.subrange(d + 1, v.len() as int)),
                    None => None,
                },
                None => None,
            },
            None => None,
        },
        None => None,
    }
}

#[verifier::loop_isolation(false)]
fn find_pid_value(q: &str) -> (r: Option<String>)
    ensures
        (r is Some) == (pid_in_query(q@) is Some),
        r matches Some(v) ==> pid_in_query(q@) == Some(v@),
    decreases q@.len(),
{
    let qlen = q.unicode_len();
    let amp = index_of_char(q, '&', 0, qlen);
    let pair_end = match amp {
        Some(a) => a,
        None => qlen,
    };
    let pair = q.substring_char(0, pair_end);
    let eq = index_of_char(pair, '=', 0, pair_end);
    let key = match eq {
        Some(e) => pair.substring_char(0, e),
        None => pair,
    };
    if str_eq(key, "pid") {
        let value = match eq {
            Some(e) => pair.substring_char(e + 1, pair_end),
            None => "",
        };
        proof {
            if eq is None {
                reveal_strlit("");
                assert(value@ =~= Seq::<char>::empty());
            }
        }
        Some(String::from_str(value))
    } else {
        match amp {
            Some(a) => {
                let rest = q.substring_char(a + 1, qlen);
                find_pid_value(rest)
            },
            None => None,
        }
    }
}

/// Extracts the center slug and the practice-id hint from a booking-page
/// URL, failing with `MalformedUrl` when either is absent.
pub fn parse_booking_url(url: &str) -> (r: Result<(String, String), ScanError>)
    ensures
        (r is Ok) == (slug_of(url@) is Some && practice_hint_of(url@) is Some),
        r matches Ok(p) ==> slug_of(url@) == Some(p.0@) && practice_hint_of(url@) == Some(p.1@),
        r matches Err(e) ==> e == ScanError::MalformedUrl,
{
    let len = url.unicode_len();
    proof {
        reveal_strlit("://");
    }
    let sep = match find_sub(url, "://") {
        Some(sep) => sep,
        None => {
            return Err(ScanError::MalformedUrl);
        },
    };
    let p = match index_of_char(url, '/', sep + 3, len) {
        Some(p) => p,
        None => {
            return Err(ScanError::MalformedUrl);
        },
    };
    let qpos = index_of_char(url, '?', p, len);
    let path_end = match qpos {
        Some(q) => q,
        None => len,
    };
    let last_slash = match rindex_of_char(url, '/', p, path_end) {
        Some(l) => l,
        None => {
            return Err(ScanError::MalformedUrl);
        },
    };
    if last_slash + 1 >= path_end {
        return Err(ScanError::MalformedUrl);
    }
    let slug = url.substring_char(last_slash + 1, path_end);
    let q = match qpos {
        Some(q) => q,
        None => {
            return Err(ScanError::MalformedUrl);
        },
    };
    let query = url.substring_char(q + 1, len);
    let value = match find_pid_value(query) {
        Some(value) => value,
        None => {
            return Err(ScanError::MalformedUrl);
        },
    };
    let vlen = value.as_str().unicode_len();
    let dash = match index_of_char(value.as_str(), '-', 0, vlen) {
        Some(dash) => dash,
        None => {
            return Err(ScanError::MalformedUrl);
        },
    };
    let hint = value.as_str().substring_char(dash + 1, vlen);
    Ok((String::from_str(slug), String::from_str(hint)))
}

/// The URL of a center's metadata document.
pub fn metadata_url(slug: &String) -> (r: String)
    ensures
        r@ == "https://www.doctolib.fr/booking/"@ + slug@ + ".json"@,
{
    let mut s = String::from_str("https://www.doctolib.fr/booking/");
    s.append(slug.as_str());
    s.append(".json");
    s
}

/// What follows the metadata fetch: either the scan is already decided at
/// zero, or the availability probe is to be sent.
pub enum MetadataStep {
    /// The center has no eligible slot type; the scan ends here, no probe and
    /// no verification call is made.
    Done { count: usize },
    /// Probe the availability calendar with this query.
    Probe { ids: ResolvedIdentifierSet, wire: WireIds, query: ProbeQuery },
}

/// Resolves the identifier triple set from the validated metadata and either
/// short-circuits to a count of zero or plans the availability probe.
pub fn plan_after_metadata(meta: &BookingMetadata, hint: &String, start_date: &String) -> (r:
    MetadataStep)
    ensures
        (r is Done) == !any_survivor(*meta, hint@),
        r matches MetadataStep::Done { count } ==> count == 0,
        r matches MetadataStep::Probe { ids, wire, query } ==> {
            &&& ids.resolves(*meta, hint@)
            &&& wire.renders(ids)
            &&& query.start_date@ == start_date@
            &&& query.agenda_ids@ == wire.agenda_ids@
            &&& query.visit_motive_ids@ == wire.visit_motive_ids@
            &&& query.practice_ids@ == wire.practice_ids@
        },
{
    let ids = resolve(meta, hint);
    proof {
        lemma_empty_together(ids, *meta, hint@);
    }
    if ids.is_empty() {
        MetadataStep::Done { count: 0 }
    } else {
        let wire = WireIds::new(&ids);
        let query = build_probe_query(&wire, start_date);
        MetadataStep::Probe { ids, wire, query }
    }
}

/// When no motive name of the document satisfies the predicate, the metadata
/// step is the short circuit: the scan reports zero without planning a probe.
pub proof fn lemma_no_match_scan_short_circuits(
    step: MetadataStep,
    meta: BookingMetadata,
    hint: Seq<char>,
)
    requires
        (step is Done) == !any_survivor(meta, hint),
        forall|i: int|
            0 <= i < meta.visit_motives@.len() ==> !motive_matches(
                (#[trigger] meta.visit_motives@[i]).name@,
            ),
    ensures
        step is Done,
{
    lemma_no_match_nothing_eligible(meta, hint);
}

/// What follows the availability probe: either the scan is decided at zero,
/// or the verification pass is to be run.
pub enum ProbeStep {
    /// No short-notice candidate remains (or no safe decoy can be derived):
    /// the scan ends at zero and no verification session is opened.
    Done { count: usize },
    /// Run the planned actions strictly in order over one session.
    Verify { slots: Vec<String>, actions: Vec<VerifyAction> },
}

/// Flattens the probed calendar, keeps the candidates short-notice relative
/// to the reference time `now`, and plans the verification pass over them.
/// The scan ends at zero, opening no session, exactly when no candidate
/// remains or no safe decoy can be derived from the first one.
pub fn plan_after_probe_at(doc: &AvailabilityDoc, now: i64) -> (r: ProbeStep)
    ensures
        ({
            let kept = short_notice_filter(doc_candidates(*doc), now as int);
            &&& (r is Done) == (kept.len() == 0 || decoy_of(
                kept[0],
                DECOY_SHIFT_DAYS as int,
            ) is None)
            &&& (r matches ProbeStep::Done { count } ==> count == 0)
            &&& (r matches ProbeStep::Verify { slots, actions } ==> slots.deep_view() == kept
                && plan_shape(actions@, kept, decoy_of(kept[0], DECOY_SHIFT_DAYS as int).unwrap()))
        }),
{
    let cand = flatten_two_days(doc);
    let kept = filter_short_notice_at(&cand, now);
    proof {
        assert(kept.deep_view().len() == kept@.len());
        if kept@.len() > 0 {
            assert(kept.deep_view()[0] == kept@[0]@);
        }
    }
    if kept.len() == 0 {
        return ProbeStep::Done { count: 0 };
    }
    match build_verification_plan(&kept) {
        Some(actions) => ProbeStep::Verify { slots: kept, actions },
        None => ProbeStep::Done { count: 0 },
    }
}

/// Plans the verification pass against the clock's present reading.
pub fn plan_after_probe(doc: &AvailabilityDoc) -> (r: ProbeStep)
    ensures
        r matches ProbeStep::Done { count } ==> count == 0,
        doc_candidates(*doc).len() == 0 ==> r is Done,
        r matches ProbeStep::Verify { slots, actions } ==> {
            &&& exists|now: int| slots.deep_view() == short_notice_filter(doc_candidates(*doc), now)
            &&& slots@.len() > 0
            &&& plan_shape(
                actions@,
                slots.deep_view(),
                decoy_of(slots@[0]@, DECOY_SHIFT_DAYS as int).unwrap(),
            )
        },
{
    let now = now_epoch_seconds();
    let r = plan_after_probe_at(doc, now);
    proof {
        let kept = short_notice_filter(doc_candidates(*doc), now as int);
        assert(r matches ProbeStep::Verify { slots, actions } ==> (slots.deep_view() == kept
            && slots@.len() == kept.len() && (kept.len() > 0 ==> slots.deep_view()[0]
            == slots@[0]@)));
    }
    r
}

/// The orchestrator's degradation policy: a failed step reports zero slots
/// for the center instead of failing the whole run.
pub fn scan_result_of(r: &Result<usize, ScanError>) -> (c: ScanResult)
    ensures
        c.count == (match *r {
            Ok(n) => n,
            Err(_) => 0usize,
        }),
{
    match r {
        Ok(n) => ScanResult { count: *n },
        Err(_) => ScanResult { count: 0 },
    }
}

} // verus!
