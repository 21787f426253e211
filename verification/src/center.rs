//! The bulk-feed center record: one vaccination center as the regional
//! snapshot describes it, with the pre-filter helpers the ranking stage uses.
//! Dates are carried as the feed's ISO-8601 strings; geolocation, distance
//! scoring and console rendering live outside the library.

use vstd::prelude::*;
use crate::text::{contains_sub, has_sub};

verus! {

/// The feed's per-center request counters.
pub struct RequestCount {
    pub slots: Option<usize>,
}

/// The feed's per-center contact block.
pub struct Metadata {
    pub address: String,
    pub business_hours: Option<Vec<(String, Option<String>)>>,
    pub phone_number: Option<String>,
}

/// One named appointment window of the feed with its slot total.
pub struct AppointmentSchedule {
    pub name: String,
    pub from: Option<String>,
    pub to: Option<String>,
    pub total: usize,
}

/// One center of the regional snapshot, the fields the library reads held as
/// plain values.
pub struct Center {
    pub departement: String,
    pub nom: String,
    pub url: String,
    pub metadata: Metadata,
    pub prochain_rdv: Option<String>,
    pub plateforme: Option<String>,
    pub kind: String,
    pub appointment_count: usize,
    pub internal_id: Option<String>,
    pub vaccine_type: Option<Vec<String>>,
    pub appointment_by_phone_only: bool,
    pub erreur: Option<String>,
    pub last_scan_with_availabilities: Option<String>,
    pub request_counts: Option<RequestCount>,
    pub appointment_schedules: Option<Vec<AppointmentSchedule>>,
    pub gid: String,
}

/// The ASCII lowercase of one character; anything but 'A' through 'Z' is
/// left alone.
pub open spec fn ascii_lower_char(c: char) -> char {
    if 65 <= c as u32 <= 90 {
        (((c as u32) + 32) as u8) as char
    } else {
        c
    }
}

/// The ASCII lowercase of a string, character by character.
pub open spec fn ascii_lower_seq(s: Seq<char>) -> Seq<char> {
    s.map_values(|c: char| ascii_lower_char(c))
}

/// Whether `needle` occurs in the ASCII lowercase of `hay`.
#[verifier::loop_isolation(false)]
fn lower_contains(hay: &str, needle: &str) -> (r: bool)
    ensures
        r == has_sub(ascii_lower_seq(hay@), needle@),
{
    let ghost low = ascii_lower_seq(hay@);
    let hlen = hay.unicode_len();
    let nlen = needle.unicode_len();
    if nlen > hlen {
        assert(forall|i: int| !has_sub_at_low(hay@, needle@, i));
        return false;
    }
    if nlen == 0 {
        assert(has_sub_at_low(hay@, needle@, 0));
        assert(crate::text::has_sub_at(low, needle@, 0));
        return true;
    }
    let last = hlen - nlen;
    for i in 0..last + 1
        invariant
            hlen == hay@.len(),
            nlen == needle@.len(),
            nlen <= hlen,
            last == hlen - nlen,
            forall|k: int| 0 <= k < i ==> !has_sub_at_low(hay@, needle@, k),
    {
        let mut all_eq = true;
        for j in 0..nlen
            invariant
                i + nlen <= hlen,
                all_eq <==> (forall|m: int|
                    0 <= m < j ==> ascii_lower_char(hay@[i + m]) == needle@[m]),
        {
            let code = hay.get_char(i + j) as u32;
            let lowered: u32 = if 65 <= code && code <= 90 {
                code + 32
            } else {
                code
            };
            if lowered != needle.get_char(j) as u32 {
                all_eq = false;
                assert(ascii_lower_char(hay@[i + j]) as u32 != needle@[j as int] as u32);
                assert(!(forall|m: int|
                    0 <= m < j + 1 ==> ascii_lower_char(hay@[i + m]) == needle@[m]));
            } else {
                assert(ascii_lower_char(hay@[i + j]) as u32 == needle@[j as int] as u32);
                assert(ascii_lower_char(hay@[i + j]) == needle@[j as int]);
            }
        }
        if all_eq {
            assert(has_sub_at_low(hay@, needle@, i as int));
            assert(crate::text::has_sub_at(low, needle@, i as int));
            return true;
        }
        assert(!has_sub_at_low(hay@, needle@, i as int));
    }
    assert(forall|k: int| k > last ==> !has_sub_at_low(hay@, needle@, k));
    assert forall|k: int| !crate::text::has_sub_at(low, needle@, k) by {
        if 0 <= k && k + needle@.len() <= low.len() {
            assert(!has_sub_at_low(hay@, needle@, k));
        }
    }
    false
}

/// `needle` occurs in the ASCII lowercase of `hay` starting at `i`.
pub open spec fn has_sub_at_low(hay: Seq<char>, needle: Seq<char>, i: int) -> bool {
    &&& 0 <= i
    &&& i + needle.len() <= hay.len()
    &&& forall|j: int| 0 <= j < needle.len() ==> ascii_lower_char(hay[i + j]) == needle[j]
}

/// The first appointment window of the feed named "chronodose".
pub open spec fn first_chronodose(s: Seq<AppointmentSchedule>) -> Option<AppointmentSchedule>
    decreases s.len(),
{
    if s.len() == 0 {
        None
    } else if s[0].name@ == "chronodose"@ {
        Some(s[0])
    } else {
        first_chronodose(s.drop_first())
    }
}

/// The slot total of the feed's short-notice window, where the feed carries
/// one.
pub open spec fn chronodose_total(c: Center) -> Option<usize> {
    match c.appointment_schedules {
        Some(v) => match first_chronodose(v@) {
            Some(s) => Some(s.total),
            None => None,
        },
        None => None,
    }
}

impl Center {
    /// Whether the feed reports any short-notice slot for this center: its
    /// "chronodose" window exists and has a positive total.
    #[verifier::loop_isolation(false)]
    pub fn has_chronodose(&self) -> (r: bool)
        ensures
            r == (match chronodose_total(*self) {
                Some(t) => t > 0,
                None => false,
            }),
    {
        let schedules = match &self.appointment_schedules {
            Some(schedules) => schedules,
            None => {
                return false;
            },
        };
        proof {
            assert(schedules@.skip(0) =~= schedules@);
        }
        for i in 0..schedules.len()
            invariant
                first_chronodose(schedules@) == first_chronodose(schedules@.skip(i as int)),
                forall|k: int| 0 <= k < i ==> (#[trigger] schedules@[k]).name@ != "chronodose"@,
        {
            proof {
                assert(schedules@.skip(i as int).drop_first() =~= schedules@.skip(i + 1));
                assert(schedules@.skip(i as int)[0] == schedules@[i as int]);
            }
            if crate::text::str_eq(schedules[i].name.as_str(), "chronodose") {
                return schedules[i].total > 0;
            }
        }
        proof {
            assert(schedules@.skip(schedules@.len() as int) =~= Seq::<AppointmentSchedule>::empty());
        }
        false
    }

    /// Whether any of the feed's vaccine-type labels, ASCII-lowercased,
    /// contains the pattern.
    #[verifier::loop_isolation(false)]
    pub fn has_vaccine(&self, pat: &str) -> (r: bool)
        ensures
            r == (match self.vaccine_type {
                Some(v) => exists|k: int|
                    0 <= k < v@.len() && has_sub(ascii_lower_seq((#[trigger] v@[k])@), pat@),
                None => false,
            }),
    {
        let labels = match &self.vaccine_type {
            Some(labels) => labels,
            None => {
                return false;
            },
        };
        for i in 0..labels.len()
            invariant
                forall|k: int|
                    0 <= k < i ==> !has_sub(ascii_lower_seq((#[trigger] labels@[k])@), pat@),
        {
            if lower_contains(labels[i].as_str(), pat) {
                return true;
            }
        }
        false
    }

    /// Whether this center's count must come from the live booking scan: its
    /// booking URL points at the backend the scanner drives.
    pub fn uses_live_scan(&self) -> (r: bool)
        ensures
            r == has_sub(self.url@, "doctolib"@),
    {
        contains_sub(self.url.as_str(), "doctolib")
    }

    /// The slot count taken from the feed itself, for centers the live scan
    /// does not cover: the short-notice window's total, or zero without one.
    pub fn fallback_slot_count(&self) -> (r: usize)
        ensures
            r == (match chronodose_total(*self) {
                Some(t) => t,
                None => 0usize,
            }),
    {
        let schedules = match &self.appointment_schedules {
            Some(schedules) => schedules,
            None => {
                return 0;
            },
        };
        let mut i: usize = 0;
        proof {
            assert(schedules@.skip(0) =~= schedules@);
        }
        #[verifier::loop_isolation(false)]
        while i < schedules.len()
            invariant
                0 <= i <= schedules@.len(),
                first_chronodose(schedules@) == first_chronodose(schedules@.skip(i as int)),
                forall|k: int| 0 <= k < i ==> (#[trigger] schedules@[k]).name@ != "chronodose"@,
            decreases schedules@.len() - i,
        {
            proof {
                assert(schedules@.skip(i as int).drop_first() =~= schedules@.skip(i + 1));
                assert(schedules@.skip(i as int)[0] == schedules@[i as int]);
            }
            if crate::text::str_eq(schedules[i].name.as_str(), "chronodose") {
                return schedules[i].total;
            }
            i = i + 1;
        }
        proof {
            assert(schedules@.skip(schedules@.len() as int) =~= Seq::<AppointmentSchedule>::empty());
        }
        0
    }
}

} // verus!
