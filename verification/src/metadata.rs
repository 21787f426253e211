//! The booking-page metadata document: visit motives and agendas.
//!
//! The document arrives as loosely-structured JSON; unverified code maps it
//! field by field into the `Raw*` records below, where a missing or wrongly
//! typed field becomes `None`. `validate` then either rejects the document as
//! malformed or produces the fully typed `BookingMetadata` that the resolver
//! works on.

use vstd::prelude::*;
use crate::ScanError;

verus! {

/// One appointment type offered by the center.
pub struct VisitMotive {
    pub id: u64,
    pub name: String,
}

/// One entry of an agenda's per-practice motive map: the practice identifier
/// (a decimal string on the wire) and the motive identifiers it offers.
pub struct PracticeEntry {
    pub practice_id: String,
    pub motive_ids: Vec<u64>,
}

/// One calendar resource of the center.
pub struct Agenda {
    pub id: u64,
    pub motive_map: Vec<PracticeEntry>,
}

/// The booking-page metadata document, fully typed.
pub struct BookingMetadata {
    pub visit_motives: Vec<VisitMotive>,
    pub agendas: Vec<Agenda>,
}

/// A visit motive as it came off the wire; a field is `None` where the
/// document lacked it or held the wrong type.
pub struct RawVisitMotive {
    pub id: Option<u64>,
    pub name: Option<String>,
}

/// A per-practice motive-map entry as it came off the wire. Keys of a JSON
/// object are always strings; a list element that was not a number is `None`.
pub struct RawPracticeEntry {
    pub practice_id: String,
    pub motive_ids: Option<Vec<Option<u64>>>,
}

/// An agenda as it came off the wire.
pub struct RawAgenda {
    pub id: Option<u64>,
    pub motive_map: Option<Vec<RawPracticeEntry>>,
}

/// The whole metadata document as it came off the wire.
pub struct RawBookingMetadata {
    pub visit_motives: Option<Vec<RawVisitMotive>>,
    pub agendas: Option<Vec<RawAgenda>>,
}

/// Every required field of the motive is present.
pub open spec fn raw_motive_ok(m: RawVisitMotive) -> bool {
    m.id is Some && m.name is Some
}

/// Every element of the entry's motive list is a number.
pub open spec fn raw_entry_ok(e: RawPracticeEntry) -> bool {
    &&& e.motive_ids is Some
    &&& forall|k: int|
        0 <= k < e.motive_ids.unwrap()@.len() ==> e.motive_ids.unwrap()@[k] is Some
}

/// Every required field of the agenda is present and well typed.
pub open spec fn raw_agenda_ok(a: RawAgenda) -> bool {
    &&& a.id is Some
    &&& a.motive_map is Some
    &&& forall|j: int|
        0 <= j < a.motive_map.unwrap()@.len() ==> raw_entry_ok(#[trigger] a.motive_map.unwrap()@[j])
}

/// The document carries both lists and every record in them is well formed.
pub open spec fn raw_metadata_ok(r: RawBookingMetadata) -> bool {
    &&& r.visit_motives is Some
    &&& r.agendas is Some
    &&& forall|i: int|
        0 <= i < r.visit_motives.unwrap()@.len() ==> raw_motive_ok(
            #[trigger] r.visit_motives.unwrap()@[i],
        )
    &&& forall|i: int|
        0 <= i < r.agendas.unwrap()@.len() ==> raw_agenda_ok(#[trigger] r.agendas.unwrap()@[i])
}

/// The typed entry carries exactly the raw entry's key and numbers.
pub open spec fn entry_corresponds(raw: RawPracticeEntry, e: PracticeEntry) -> bool {
    &&& e.practice_id@ == raw.practice_id@
    &&& e.motive_ids@.len() == raw.motive_ids.unwrap()@.len()
    &&& forall|k: int|
        0 <= k < e.motive_ids@.len() ==> e.motive_ids@[k] == raw.motive_ids.unwrap()@[k].unwrap()
}

/// The typed agenda carries exactly the raw agenda's fields.
pub open spec fn agenda_corresponds(raw: RawAgenda, a: Agenda) -> bool {
    &&& a.id == raw.id.unwrap()
    &&& a.motive_map@.len() == raw.motive_map.unwrap()@.len()
    &&& forall|j: int|
        0 <= j < a.motive_map@.len() ==> entry_corresponds(
            raw.motive_map.unwrap()@[j],
            #[trigger] a.motive_map@[j],
        )
}

/// The typed document carries exactly the raw document's fields.
pub open spec fn metadata_corresponds(raw: RawBookingMetadata, m: BookingMetadata) -> bool {
    &&& m.visit_motives@.len() == raw.visit_motives.unwrap()@.len()
    &&& forall|i: int|
        0 <= i < m.visit_motives@.len() ==> {
            &&& (#[trigger] m.visit_motives@[i]).id == raw.visit_motives.unwrap()@[i].id.unwrap()
            &&& m.visit_motives@[i].name@ == raw.visit_motives.unwrap()@[i].name.unwrap()@
        }
    &&& m.agendas@.len() == raw.agendas.unwrap()@.len()
    &&& forall|i: int|
        0 <= i < m.agendas@.len() ==> agenda_corresponds(
            raw.agendas.unwrap()@[i],
            #[trigger] m.agendas@[i],
        )
}

#[verifier::loop_isolation(false)]
fn validate_entry(raw: &RawPracticeEntry) -> (r: Result<PracticeEntry, ScanError>)
    ensures
        r is Ok <==> raw_entry_ok(*raw),
        r matches Ok(e) ==> entry_corresponds(*raw, e),
        r matches Err(err) ==> err == ScanError::MalformedMetadata,
{
    let ids = match &raw.motive_ids {
        Some(ids) => ids,
        None => {
            return Err(ScanError::MalformedMetadata);
        },
    };
    let mut out: Vec<u64> = Vec::new();
    for k in 0..ids.len()
        invariant
            out@.len() == k,
            forall|m: int| 0 <= m < k ==> ids@[m] is Some,
            forall|m: int| 0 <= m < k ==> out@[m] == ids@[m].unwrap(),
    {
        match ids[k] {
            Some(v) => {
                out.push(v);
            },
            None => {
                return Err(ScanError::MalformedMetadata);
            },
        }
    }
    Ok(PracticeEntry { practice_id: raw.practice_id.clone(), motive_ids: out })
}

#[verifier::loop_isolation(false)]
fn validate_agenda(raw: &RawAgenda) -> (r: Result<Agenda, ScanError>)
    ensures
        r is Ok <==> raw_agenda_ok(*raw),
        r matches Ok(a) ==> agenda_corresponds(*raw, a),
        r matches Err(err) ==> err == ScanError::MalformedMetadata,
{
    let id = match raw.id {
        Some(id) => id,
        None => {
            return Err(ScanError::MalformedMetadata);
        },
    };
    let entries = match &raw.motive_map {
        Some(entries) => entries,
        None => {
            return Err(ScanError::MalformedMetadata);
        },
    };
    let mut out: Vec<PracticeEntry> = Vec::new();
    for j in 0..entries.len()
        invariant
            out@.len() == j,
            forall|m: int| 0 <= m < j ==> raw_entry_ok(#[trigger] entries@[m]),
            forall|m: int| 0 <= m < j ==> entry_corresponds(entries@[m], #[trigger] out@[m]),
    {
        match validate_entry(&entries[j]) {
            Ok(e) => {
                out.push(e);
            },
            Err(err) => {
                return Err(err);
            },
        }
    }
    Ok(Agenda { id, motive_map: out })
}

/// Checks that every required field of the document is present, failing fast
/// with `MalformedMetadata` otherwise, and produces the typed document.
#[verifier::loop_isolation(false)]
pub fn validate_metadata(raw: &RawBookingMetadata) -> (r: Result<BookingMetadata, ScanError>)
    ensures
        r is Ok <==> raw_metadata_ok(*raw),
        r matches Ok(m) ==> metadata_corresponds(*raw, m),
        r matches Err(err) ==> err == ScanError::MalformedMetadata,
{
    let motives = match &raw.visit_motives {
        Some(motives) => motives,
        None => {
            return Err(ScanError::MalformedMetadata);
        },
    };
    let agendas = match &raw.agendas {
        Some(agendas) => agendas,
        None => {
            return Err(ScanError::MalformedMetadata);
        },
    };
    let mut out_motives: Vec<VisitMotive> = Vec::new();
    for i in 0..motives.len()
        invariant
            out_motives@.len() == i,
            forall|m: int| 0 <= m < i ==> raw_motive_ok(#[trigger] motives@[m]),
            forall|m: int|
                0 <= m < i ==> {
                    &&& (#[trigger] out_motives@[m]).id == motives@[m].id.unwrap()
                    &&& out_motives@[m].name@ == motives@[m].name.unwrap()@
                },
    {
        let id = match motives[i].id {
            Some(id) => id,
            None => {
                return Err(ScanError::MalformedMetadata);
            },
        };
        let name = match &motives[i].name {
            Some(name) => name.clone(),
            None => {
                return Err(ScanError::MalformedMetadata);
            },
        };
        out_motives.push(VisitMotive { id, name });
    }
    let mut out_agendas: Vec<Agenda> = Vec::new();
    for i in 0..agendas.len()
        invariant
            out_agendas@.len() == i,
            forall|m: int| 0 <= m < i ==> raw_agenda_ok(#[trigger] agendas@[m]),
            forall|m: int| 0 <= m < i ==> agenda_corresponds(agendas@[m], #[trigger] out_agendas@[m]),
    {
        match validate_agenda(&agendas[i]) {
            Ok(a) => {
                out_agendas.push(a);
            },
            Err(err) => {
                return Err(err);
            },
        }
    }
    Ok(BookingMetadata { visit_motives: out_motives, agendas: out_agendas })
}

} // verus!
