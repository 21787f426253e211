//! Resolution of the (agenda, practice, visit-motive) identifier triple set:
//! which internal identifiers of a center's booking page stand for the
//! appointment type being searched for, at the practice named in the
//! booking URL.

use vstd::prelude::*;
use crate::metadata::{Agenda, BookingMetadata, PracticeEntry, VisitMotive};
use crate::motive::{motive_filter, motive_matches};
use crate::text::vec_contains_u64;

verus! {

/// Some motive in the document has identifier `v` and a matching name.
pub open spec fn matched_motive(motives: Seq<VisitMotive>, v: u64) -> bool {
    exists|i: int|
        0 <= i < motives.len() && (#[trigger] motives[i]).id == v && motive_matches(motives[i].name@)
}

/// The map entry is keyed by the hinted practice and offers the motive `v`,
/// which matches the predicate.
pub open spec fn entry_offers(
    e: PracticeEntry,
    motives: Seq<VisitMotive>,
    hint: Seq<char>,
    v: u64,
) -> bool {
    e.practice_id@ == hint && matched_motive(motives, v) && e.motive_ids@.contains(v)
}

/// The agenda offers the motive `v` at the hinted practice.
pub open spec fn agenda_offers(
    a: Agenda,
    motives: Seq<VisitMotive>,
    hint: Seq<char>,
    v: u64,
) -> bool {
    exists|j: int|
        0 <= j < a.motive_map@.len() && entry_offers(#[trigger] a.motive_map@[j], motives, hint, v)
}

/// The agenda's motive map still holds at least one matching motive for the
/// hinted practice after intersection; such an agenda survives filtering.
pub open spec fn agenda_survives(a: Agenda, motives: Seq<VisitMotive>, hint: Seq<char>) -> bool {
    exists|v: u64| agenda_offers(a, motives, hint, v)
}

/// The identifier `aid` belongs to some surviving agenda of the document.
pub open spec fn agenda_eligible(meta: BookingMetadata, hint: Seq<char>, aid: u64) -> bool {
    exists|i: int|
        0 <= i < meta.agendas@.len() && (#[trigger] meta.agendas@[i]).id == aid && agenda_survives(
            meta.agendas@[i],
            meta.visit_motives@,
            hint,
        )
}

/// The motive `v` matches the predicate and is offered by some agenda at the
/// hinted practice.
pub open spec fn motive_eligible(meta: BookingMetadata, hint: Seq<char>, v: u64) -> bool {
    exists|i: int|
        0 <= i < meta.agendas@.len() && agenda_offers(
            #[trigger] meta.agendas@[i],
            meta.visit_motives@,
            hint,
            v,
        )
}

/// At least one agenda survives filtering.
pub open spec fn any_survivor(meta: BookingMetadata, hint: Seq<char>) -> bool {
    exists|i: int|
        0 <= i < meta.agendas@.len() && agenda_survives(
            #[trigger] meta.agendas@[i],
            meta.visit_motives@,
            hint,
        )
}

/// The resolved, deduplicated identifier triple set. When all three lists are
/// empty the center offers no eligible slot type and verification must not
/// proceed.
pub struct ResolvedIdentifierSet {
    pub agenda_ids: Vec<u64>,
    pub practice_ids: Vec<String>,
    pub visit_motive_ids: Vec<u64>,
}

impl ResolvedIdentifierSet {
    /// The triple set is deduplicated and carries exactly the eligible
    /// identifiers of `meta` for the practice `hint`.
    pub open spec fn resolves(self, meta: BookingMetadata, hint: Seq<char>) -> bool {
        &&& forall|x: u64| self.agenda_ids@.contains(x) == agenda_eligible(meta, hint, x)
        &&& forall|v: u64| self.visit_motive_ids@.contains(v) == motive_eligible(meta, hint, v)
        &&& self.practice_ids.deep_view() == if any_survivor(meta, hint) {
            seq![hint]
        } else {
            Seq::<Seq<char>>::empty()
        }
        &&& forall|m: int, n: int|
            0 <= m < n < self.agenda_ids@.len() ==> self.agenda_ids@[m] != self.agenda_ids@[n]
        &&& forall|m: int, n: int|
            0 <= m < n < self.visit_motive_ids@.len() ==> self.visit_motive_ids@[m]
                != self.visit_motive_ids@[n]
    }

    /// An empty triple set short-circuits the scan to a count of zero.
    pub fn is_empty(&self) -> (r: bool)
        ensures
            r == (self.agenda_ids@.len() == 0),
    {
        self.agenda_ids.len() == 0
    }
}

/// Absorbs one per-practice map entry: records, deduplicated, every motive of
/// the entry that matched the name predicate, and reports whether any did.
#[verifier::loop_isolation(false)]
fn absorb_entry(
    e: &PracticeEntry,
    Ghost(motives): Ghost<Seq<VisitMotive>>,
    matched: &Vec<u64>,
    out: &mut Vec<u64>,
) -> (hit: bool)
    requires
        forall|v: u64| #![trigger matched@.contains(v)]
            matched@.contains(v) == matched_motive(motives, v),
        forall|m: int, n: int| 0 <= m < n < old(out)@.len() ==> old(out)@[m] != old(out)@[n],
    ensures
        hit == exists|w: u64| e.motive_ids@.contains(w) && matched_motive(motives, w),
        forall|w: u64| #![trigger final(out)@.contains(w)]
            final(out)@.contains(w) == (old(out)@.contains(w) || (e.motive_ids@.contains(w)
                && matched_motive(motives, w))),
        forall|m: int, n: int| 0 <= m < n < final(out)@.len() ==> final(out)@[m] != final(out)@[n],
{
    let mut hit = false;
    let ghost start = out@;
    for k in 0..e.motive_ids.len()
        invariant
            hit == exists|kk: int|
                0 <= kk < k && matched_motive(motives, #[trigger] e.motive_ids@[kk]),
            forall|w: u64| #![trigger out@.contains(w)]
                out@.contains(w) == (start.contains(w) || exists|kk: int|
                    0 <= kk < k && e.motive_ids@[kk] == w && matched_motive(motives, w)),
            forall|m: int, n: int| 0 <= m < n < out@.len() ==> out@[m] != out@[n],
    {
        let ghost pre = out@;
        let ghost pre_hit = hit;
        let v = e.motive_ids[k];
        let is_matched = vec_contains_u64(matched, v);
        if is_matched {
            hit = true;
            if !vec_contains_u64(out, v) {
                out.push(v);
                proof {
                    assert forall|w: u64| out@.contains(w) implies (pre.contains(w) || w == v) by {
                        let n = choose|n: int| 0 <= n < out@.len() && out@[n] == w;
                        if n < pre.len() {
                            assert(pre[n] == w);
                        }
                    }
                    assert(forall|n: int| 0 <= n < pre.len() ==> out@[n] == pre[n]);
                    assert(out@[pre.len() as int] == v);
                    assert(out@.contains(v));
                }
            }
        }
        proof {
            assert forall|w: u64| #![trigger out@.contains(w)]
                out@.contains(w) implies (start.contains(w) || exists|kk: int|
                0 <= kk < k + 1 && e.motive_ids@[kk] == w && matched_motive(motives, w)) by {
                if pre.contains(w) {
                    if !start.contains(w) {
                        let kk = choose|kk: int|
                            0 <= kk < k && e.motive_ids@[kk] == w && matched_motive(motives, w);
                        assert(0 <= kk < k + 1 && e.motive_ids@[kk] == w);
                    }
                } else {
                    assert(w == v && is_matched);
                    assert(e.motive_ids@[k as int] == w && matched_motive(motives, w));
                }
            }
            assert forall|w: u64| #![trigger out@.contains(w)]
                (start.contains(w) || exists|kk: int|
                0 <= kk < k + 1 && e.motive_ids@[kk] == w && matched_motive(motives, w)) implies
                out@.contains(w) by {
                if start.contains(w) {
                    assert(pre.contains(w));
                    if out@ != pre {
                        let n = choose|n: int| 0 <= n < pre.len() && pre[n] == w;
                        assert(out@[n] == w);
                    }
                } else {
                    let kk = choose|kk: int|
                        0 <= kk < k + 1 && e.motive_ids@[kk] == w && matched_motive(motives, w);
                    if kk < k {
                        assert(pre.contains(w));
                        if out@ != pre {
                            let n = choose|n: int| 0 <= n < pre.len() && pre[n] == w;
                            assert(out@[n] == w);
                        }
                    } else {
                        assert(w == v);
                        assert(matched@.contains(v));
                        assert(is_matched);
                        assert(out@.contains(v));
                    }
                }
            }
            if hit {
                if pre_hit {
                    let kk = choose|kk: int|
                        0 <= kk < k && matched_motive(motives, #[trigger] e.motive_ids@[kk]);
                    assert(0 <= kk < k + 1 && matched_motive(motives, e.motive_ids@[kk]));
                } else {
                    assert(matched_motive(motives, e.motive_ids@[k as int]));
                }
            } else {
                assert forall|kk: int|
                    !(0 <= kk < k + 1 && matched_motive(motives, #[trigger] e.motive_ids@[kk])) by {
                    if 0 <= kk < k && matched_motive(motives, e.motive_ids@[kk]) {
                        assert(pre_hit);
                    }
                    if kk == k && matched_motive(motives, e.motive_ids@[kk]) {
                        assert(matched@.contains(v));
                    }
                }
            }
        }
    }
    proof {
        let len = e.motive_ids@.len() as int;
        if hit {
            let kk = choose|kk: int|
                0 <= kk < len && matched_motive(motives, #[trigger] e.motive_ids@[kk]);
            assert(e.motive_ids@.contains(e.motive_ids@[kk]));
        }
        if exists|w: u64| e.motive_ids@.contains(w) && matched_motive(motives, w) {
            let w = choose|w: u64| e.motive_ids@.contains(w) && matched_motive(motives, w);
            let kk = choose|kk: int| 0 <= kk < len && e.motive_ids@[kk] == w;
            assert(matched_motive(motives, e.motive_ids@[kk]));
            assert(hit);
        }
        assert forall|w: u64| #![trigger out@.contains(w)]
            out@.contains(w) && !start.contains(w) implies (
            e.motive_ids@.contains(w) && matched_motive(motives, w)) by {
            let kk = choose|kk: int|
                0 <= kk < len && e.motive_ids@[kk] == w && matched_motive(motives, w);
            assert(e.motive_ids@.contains(e.motive_ids@[kk]));
        }
        assert forall|w: u64| #![trigger out@.contains(w)]
            (e.motive_ids@.contains(w) && matched_motive(motives, w)) implies
            out@.contains(w) by {
            let kk = choose|kk: int| 0 <= kk < len && e.motive_ids@[kk] == w;
            assert(0 <= kk < len && e.motive_ids@[kk] == w && matched_motive(motives, w));
        }
    }
    hit
}

/// Filters the document's motives through the name predicate and intersects
/// every agenda's per-practice motive map with them, keeping only the map
/// entry keyed by `hint`. Agendas whose intersection is empty are dropped;
/// the survivors' identifiers form the triple set.
#[verifier::loop_isolation(false)]
#[verifier::rlimit(100)]
pub fn resolve(meta: &BookingMetadata, hint: &String) -> (r: ResolvedIdentifierSet)
    ensures
        r.resolves(*meta, hint@),
{
    let ghost motives = meta.visit_motives@;
    let mut matched: Vec<u64> = Vec::new();
    for i in 0..meta.visit_motives.len()
        invariant
            forall|v: u64| #![trigger matched@.contains(v)]
                matched@.contains(v) == matched_motive(motives.take(i as int), v),
    {
        let ghost pre = matched@;
        let m = &meta.visit_motives[i];
        let hit = motive_filter(m.name.as_str());
        if hit {
            matched.push(m.id);
        }
        proof {
            let t = motives.take(i + 1);
            let t0 = motives.take(i as int);
            assert(t.drop_last() =~= t0);
            assert(t[i as int] == motives[i as int]);
            assert forall|v: u64| #![trigger matched@.contains(v)]
                matched@.contains(v) implies matched_motive(t, v) by {
                let n = choose|n: int| 0 <= n < matched@.len() && matched@[n] == v;
                if n < pre.len() {
                    assert(pre[n] == v);
                    assert(pre.contains(v));
                    assert(matched_motive(t0, v));
                    let w = choose|w: int|
                        0 <= w < t0.len() && (#[trigger] t0[w]).id == v && motive_matches(
                            t0[w].name@,
                        );
                    assert(t[w] == t0[w]);
                    assert(t[w].id == v && motive_matches(t[w].name@));
                } else {
                    assert(hit && v == meta.visit_motives@[i as int].id);
                    assert(t[i as int].id == v && motive_matches(t[i as int].name@));
                }
            }
            assert forall|v: u64| #![trigger matched@.contains(v)]
                matched_motive(t, v) implies matched@.contains(v) by {
                let w = choose|w: int|
                    0 <= w < t.len() && (#[trigger] t[w]).id == v && motive_matches(t[w].name@);
                if w < i {
                    assert(t0[w] == t[w]);
                    assert(matched_motive(t0, v));
                    assert(pre.contains(v));
                    let n = choose|n: int| 0 <= n < pre.len() && pre[n] == v;
                    assert(matched@[n] == v);
                } else {
                    assert(t[w] == motives[i as int]);
                    assert(hit);
                    assert(matched@[matched@.len() - 1] == v);
                }
            }
        }
    }
    proof {
        assert(motives.take(motives.len() as int) =~= motives);
    }
    let ghost agendas = meta.agendas@;
    let mut agenda_ids: Vec<u64> = Vec::new();
    let mut visit_motive_ids: Vec<u64> = Vec::new();
    let mut any = false;
    for i in 0..meta.agendas.len()
        invariant
            forall|v: u64| #![trigger matched@.contains(v)]
                matched@.contains(v) == matched_motive(motives, v),
            forall|x: u64| #![trigger agenda_ids@.contains(x)]
                agenda_ids@.contains(x) == exists|n: int|
                    0 <= n < i && (#[trigger] agendas[n]).id == x && agenda_survives(
                        agendas[n],
                        motives,
                        hint@,
                    ),
            forall|w: u64| #![trigger visit_motive_ids@.contains(w)]
                visit_motive_ids@.contains(w) == exists|n: int|
                    0 <= n < i && agenda_offers(#[trigger] agendas[n], motives, hint@, w),
            any == exists|n: int|
                0 <= n < i && agenda_survives(#[trigger] agendas[n], motives, hint@),
            forall|m: int, n: int|
                0 <= m < n < agenda_ids@.len() ==> agenda_ids@[m] != agenda_ids@[n],
            forall|m: int, n: int|
                0 <= m < n < visit_motive_ids@.len() ==> visit_motive_ids@[m]
                    != visit_motive_ids@[n],
    {
        let a = &meta.agendas[i];
        let ghost before = visit_motive_ids@;
        let mut hit = false;
        for j in 0..a.motive_map.len()
            invariant
                forall|v: u64| #![trigger matched@.contains(v)]
                    matched@.contains(v) == matched_motive(motives, v),
                hit == exists|jj: int, v: u64|
                    0 <= jj < j && #[trigger] entry_offers(a.motive_map@[jj], motives, hint@, v),
                forall|w: u64| #![trigger visit_motive_ids@.contains(w)]
                    visit_motive_ids@.contains(w) == (before.contains(w) || exists|jj: int|
                        0 <= jj < j && entry_offers(
                            #[trigger] a.motive_map@[jj],
                            motives,
                            hint@,
                            w,
                        )),
                forall|m: int, n: int|
                    0 <= m < n < visit_motive_ids@.len() ==> visit_motive_ids@[m]
                        != visit_motive_ids@[n],
        {
            let ghost pre = visit_motive_ids@;
            let ghost pre_hit = hit;
            let e = &a.motive_map[j];
            let ghost ee = a.motive_map@[j as int];
            if e.practice_id.eq(hint) {
                let entry_hit = absorb_entry(e, Ghost(motives), &matched, &mut visit_motive_ids);
                if entry_hit {
                    hit = true;
                }
                proof {
                    assert(ee.practice_id@ == hint@);
                    assert forall|w: u64| #![trigger visit_motive_ids@.contains(w)]
                        visit_motive_ids@.contains(w) implies (before.contains(w)
                        || exists|jj: int|
                        0 <= jj < j + 1 && entry_offers(
                            #[trigger] a.motive_map@[jj],
                            motives,
                            hint@,
                            w,
                        )) by {
                        if pre.contains(w) {
                            if !before.contains(w) {
                                let jj = choose|jj: int|
                                    0 <= jj < j && entry_offers(
                                        #[trigger] a.motive_map@[jj],
                                        motives,
                                        hint@,
                                        w,
                                    );
                                assert(entry_offers(a.motive_map@[jj], motives, hint@, w));
                            }
                        } else {
                            assert(ee.motive_ids@.contains(w) && matched_motive(motives, w));
                            assert(entry_offers(a.motive_map@[j as int], motives, hint@, w));
                        }
                    }
                    assert forall|w: u64| (before.contains(w) || exists|jj: int|
                        0 <= jj < j + 1 && entry_offers(
                            #[trigger] a.motive_map@[jj],
                            motives,
                            hint@,
                            w,
                        )) implies #[trigger] visit_motive_ids@.contains(w) by {
                        if before.contains(w) {
                            assert(pre.contains(w));
                        } else {
                            let jj = choose|jj: int|
                                0 <= jj < j + 1 && entry_offers(
                                    #[trigger] a.motive_map@[jj],
                                    motives,
                                    hint@,
                                    w,
                                );
                            if jj < j {
                                assert(pre.contains(w));
                            } else {
                                assert(ee.motive_ids@.contains(w) && matched_motive(motives, w));
                            }
                        }
                    }
                    if hit {
                        if pre_hit {
                            let (jj, v) = choose|jj: int, v: u64|
                                0 <= jj < j && #[trigger] entry_offers(
                                    a.motive_map@[jj],
                                    motives,
                                    hint@,
                                    v,
                                );
                            assert(entry_offers(a.motive_map@[jj], motives, hint@, v));
                        } else {
                            let w = choose|w: u64|
                                ee.motive_ids@.contains(w) && matched_motive(motives, w);
                            assert(entry_offers(a.motive_map@[j as int], motives, hint@, w));
                        }
                    } else {
                        assert forall|jj: int, v: u64|
                            !(0 <= jj < j + 1 && #[trigger] entry_offers(
                                a.motive_map@[jj],
                                motives,
                                hint@,
                                v,
                            )) by {
                            if 0 <= jj < j + 1 && entry_offers(a.motive_map@[jj], motives, hint@, v) {
                                if jj == j {
                                    assert(ee.motive_ids@.contains(v) && matched_motive(
                                        motives,
                                        v,
                                    ));
                                }
                            }
                        }
                    }
                }
            } else {
                proof {
                    assert(!(ee.practice_id@ == hint@));
                    assert forall|w: u64| #![trigger visit_motive_ids@.contains(w)]
                        visit_motive_ids@.contains(w) implies (before.contains(w)
                        || exists|jj: int|
                        0 <= jj < j + 1 && entry_offers(
                            #[trigger] a.motive_map@[jj],
                            motives,
                            hint@,
                            w,
                        )) by {
                        if !before.contains(w) {
                            let jj = choose|jj: int|
                                0 <= jj < j && entry_offers(
                                    #[trigger] a.motive_map@[jj],
                                    motives,
                                    hint@,
                                    w,
                                );
                            assert(entry_offers(a.motive_map@[jj], motives, hint@, w));
                        }
                    }
                    assert forall|w: u64| (before.contains(w) || exists|jj: int|
                        0 <= jj < j + 1 && entry_offers(
                            #[trigger] a.motive_map@[jj],
                            motives,
                            hint@,
                            w,
                        )) implies #[trigger] visit_motive_ids@.contains(w) by {
                        if !before.contains(w) {
                            let jj = choose|jj: int|
                                0 <= jj < j + 1 && entry_offers(
                                    #[trigger] a.motive_map@[jj],
                                    motives,
                                    hint@,
                                    w,
                                );
                            assert(jj != j);
                            assert(entry_offers(a.motive_map@[jj], motives, hint@, w));
                        }
                    }
                    if pre_hit {
                        let (jj, v) = choose|jj: int, v: u64|
                            0 <= jj < j && #[trigger] entry_offers(
                                a.motive_map@[jj],
                                motives,
                                hint@,
                                v,
                            );
                        assert(entry_offers(a.motive_map@[jj], motives, hint@, v));
                    } else {
                        assert forall|jj: int, v: u64|
                            !(0 <= jj < j + 1 && #[trigger] entry_offers(
                                a.motive_map@[jj],
                                motives,
                                hint@,
                                v,
                            )) by {
                            if 0 <= jj < j + 1 && entry_offers(a.motive_map@[jj], motives, hint@, v) {
                                assert(jj != j);
                            }
                        }
                    }
                }
            }
        }
        proof {
            let alen = a.motive_map@.len() as int;
            assert(hit == agenda_survives(agendas[i as int], motives, hint@)) by {
                if hit {
                    let (jj, v) = choose|jj: int, v: u64|
                        0 <= jj < alen && #[trigger] entry_offers(
                            a.motive_map@[jj],
                            motives,
                            hint@,
                            v,
                        );
                    assert(agenda_offers(agendas[i as int], motives, hint@, v));
                }
                if agenda_survives(agendas[i as int], motives, hint@) {
                    let v = choose|v: u64| agenda_offers(agendas[i as int], motives, hint@, v);
                    let jj = choose|jj: int|
                        0 <= jj < alen && entry_offers(
                            #[trigger] a.motive_map@[jj],
                            motives,
                            hint@,
                            v,
                        );
                    assert(0 <= jj < alen && entry_offers(a.motive_map@[jj], motives, hint@, v));
                }
            }
            assert forall|w: u64| #![trigger visit_motive_ids@.contains(w)]
                visit_motive_ids@.contains(w) implies exists|n: int|
                0 <= n < i + 1 && agenda_offers(agendas[n], motives, hint@, w) by {
                if before.contains(w) {
                    let n = choose|n: int|
                        0 <= n < i && agenda_offers(#[trigger] agendas[n], motives, hint@, w);
                    assert(agenda_offers(agendas[n], motives, hint@, w));
                } else {
                    let jj = choose|jj: int|
                        0 <= jj < a.motive_map@.len() && entry_offers(
                            #[trigger] a.motive_map@[jj],
                            motives,
                            hint@,
                            w,
                        );
                    assert(agenda_offers(agendas[i as int], motives, hint@, w));
                }
            }
            assert forall|w: u64| #![trigger visit_motive_ids@.contains(w)]
                (exists|n: int|
                0 <= n < i + 1 && agenda_offers(#[trigger] agendas[n], motives, hint@, w)) implies
                visit_motive_ids@.contains(w) by {
                let n = choose|n: int|
                    0 <= n < i + 1 && agenda_offers(#[trigger] agendas[n], motives, hint@, w);
                if n < i {
                    assert(before.contains(w));
                    assert(visit_motive_ids@.contains(w));
                } else {
                    let jj = choose|jj: int|
                        0 <= jj < agendas[n].motive_map@.len() && entry_offers(
                            #[trigger] agendas[n].motive_map@[jj],
                            motives,
                            hint@,
                            w,
                        );
                    assert(entry_offers(a.motive_map@[jj], motives, hint@, w));
                    assert(visit_motive_ids@.contains(w));
                }
            }
        }
        let ghost pre_agenda = agenda_ids@;
        let ghost pre_any = any;
        if hit {
            any = true;
            let had = vec_contains_u64(&agenda_ids, a.id);
            if !had {
                agenda_ids.push(a.id);
                proof {
                    assert(forall|n: int|
                        0 <= n < pre_agenda.len() ==> agenda_ids@[n] == pre_agenda[n]);
                    assert(agenda_ids@[pre_agenda.len() as int] == a.id);
                    assert(agenda_ids@.contains(a.id));
                    assert forall|m: int, n: int|
                        0 <= m < n < agenda_ids@.len() implies agenda_ids@[m] != agenda_ids@[n] by {
                        if n == pre_agenda.len() {
                            if pre_agenda[m] == a.id {
                                assert(pre_agenda.contains(a.id));
                            }
                        }
                    }
                }
            }
            proof {
                assert(agenda_ids@.contains(agendas[i as int].id));
            }
        }
        proof {
            assert forall|x: u64| #![trigger agenda_ids@.contains(x)]
                agenda_ids@.contains(x) implies (pre_agenda.contains(x) || (x
                == agendas[i as int].id && hit)) by {
                let n = choose|n: int| 0 <= n < agenda_ids@.len() && agenda_ids@[n] == x;
                if n < pre_agenda.len() {
                    assert(pre_agenda[n] == x);
                }
            }
            assert forall|x: u64| pre_agenda.contains(x) implies #[trigger] agenda_ids@.contains(x) by {
                let n = choose|n: int| 0 <= n < pre_agenda.len() && pre_agenda[n] == x;
                assert(agenda_ids@[n] == x);
            }
            assert forall|x: u64| #![trigger agenda_ids@.contains(x)]
                agenda_ids@.contains(x) implies exists|n: int|
                0 <= n < i + 1 && (#[trigger] agendas[n]).id == x && agenda_survives(
                    agendas[n],
                    motives,
                    hint@,
                ) by {
                if pre_agenda.contains(x) {
                    let n = choose|n: int|
                        0 <= n < i && (#[trigger] agendas[n]).id == x && agenda_survives(
                            agendas[n],
                            motives,
                            hint@,
                        );
                    assert(agendas[n].id == x && agenda_survives(agendas[n], motives, hint@));
                } else {
                    assert(x == agendas[i as int].id && hit);
                    assert(agendas[i as int].id == x && agenda_survives(
                        agendas[i as int],
                        motives,
                        hint@,
                    ));
                }
            }
            assert forall|x: u64| (exists|n: int|
                0 <= n < i + 1 && (#[trigger] agendas[n]).id == x && agenda_survives(
                    agendas[n],
                    motives,
                    hint@,
                )) implies #[trigger] agenda_ids@.contains(x) by {
                let n = choose|n: int|
                    0 <= n < i + 1 && (#[trigger] agendas[n]).id == x && agenda_survives(
                        agendas[n],
                        motives,
                        hint@,
                    );
                if n < i {
                    assert(pre_agenda.contains(x));
                } else {
                    assert(hit);
                }
            }
            if any {
                if pre_any {
                    let n = choose|n: int|
                        0 <= n < i && agenda_survives(#[trigger] agendas[n], motives, hint@);
                    assert(0 <= n < i + 1 && agenda_survives(agendas[n], motives, hint@));
                } else {
                    assert(hit);
                    assert(agenda_survives(agendas[i as int], motives, hint@));
                }
            } else {
                assert forall|n: int|
                    !(0 <= n < i + 1 && agenda_survives(#[trigger] agendas[n], motives, hint@)) by {
                    if 0 <= n < i && agenda_survives(agendas[n], motives, hint@) {
                        assert(pre_any);
                    }
                    if n == i && agenda_survives(agendas[n], motives, hint@) {
                        assert(hit);
                    }
                }
            }
        }
    }
    let practice_ids: Vec<String> = if any {
        let mut p: Vec<String> = Vec::new();
        p.push(hint.clone());
        proof {
            assert(p.deep_view() =~= seq![hint@]);
        }
        p
    } else {
        let p: Vec<String> = Vec::new();
        proof {
            assert(p.deep_view() =~= Seq::<Seq<char>>::empty());
        }
        p
    };
    ResolvedIdentifierSet { agenda_ids, practice_ids, visit_motive_ids }
}

/// When no motive name in the document satisfies the predicate, nothing is
/// eligible: every agenda is dropped and all three identifier sets are empty,
/// so a scan short-circuits to a count of zero.
pub proof fn lemma_no_match_nothing_eligible(meta: BookingMetadata, hint: Seq<char>)
    requires
        forall|i: int|
            0 <= i < meta.visit_motives@.len() ==> !motive_matches(
                (#[trigger] meta.visit_motives@[i]).name@,
            ),
    ensures
        !any_survivor(meta, hint),
        forall|aid: u64| !agenda_eligible(meta, hint, aid),
        forall|v: u64| !motive_eligible(meta, hint, v),
{
    assert(forall|v: u64| !matched_motive(meta.visit_motives@, v));
}

/// An agenda whose per-practice motive map holds no entry keyed by the hinted
/// practice never survives filtering, whatever motives match.
pub proof fn lemma_agenda_without_hint_key_dropped(
    a: Agenda,
    motives: Seq<VisitMotive>,
    hint: Seq<char>,
)
    requires
        forall|j: int|
            0 <= j < a.motive_map@.len() ==> (#[trigger] a.motive_map@[j]).practice_id@ != hint,
    ensures
        !agenda_survives(a, motives, hint),
{
}

/// A resolved triple set is empty exactly when no agenda survives, and then
/// all three of its sets are empty together.
pub proof fn lemma_empty_together(
    r: ResolvedIdentifierSet,
    meta: BookingMetadata,
    hint: Seq<char>,
)
    requires
        r.resolves(meta, hint),
    ensures
        (r.agenda_ids@.len() == 0) == !any_survivor(meta, hint),
        (r.agenda_ids@.len() == 0) == (r.practice_ids@.len() == 0),
        (r.agenda_ids@.len() == 0) == (r.visit_motive_ids@.len() == 0),
{
    if r.agenda_ids@.len() > 0 {
        let x = r.agenda_ids@[0];
        assert(r.agenda_ids@.contains(x));
        assert(agenda_eligible(meta, hint, x));
        let i = choose|i: int|
            0 <= i < meta.agendas@.len() && (#[trigger] meta.agendas@[i]).id == x
                && agenda_survives(meta.agendas@[i], meta.visit_motives@, hint);
        assert(agenda_survives(meta.agendas@[i], meta.visit_motives@, hint));
        assert(any_survivor(meta, hint));
    }
    if any_survivor(meta, hint) {
        let i = choose|i: int|
            0 <= i < meta.agendas@.len() && agenda_survives(
                #[trigger] meta.agendas@[i],
                meta.visit_motives@,
                hint,
            );
        let a = meta.agendas@[i];
        assert(agenda_eligible(meta, hint, a.id));
        assert(r.agenda_ids@.contains(a.id));
        let v = choose|v: u64| agenda_offers(a, meta.visit_motives@, hint, v);
        assert(motive_eligible(meta, hint, v));
        assert(r.visit_motive_ids@.contains(v));
    } else {
        if r.visit_motive_ids@.len() > 0 {
            let v = r.visit_motive_ids@[0];
            assert(r.visit_motive_ids@.contains(v));
            assert(motive_eligible(meta, hint, v));
            let i = choose|i: int|
                0 <= i < meta.agendas@.len() && agenda_offers(
                    #[trigger] meta.agendas@[i],
                    meta.visit_motives@,
                    hint,
                    v,
                );
            assert(agenda_survives(meta.agendas@[i], meta.visit_motives@, hint));
        }
    }
    assert(r.practice_ids@.len() == r.practice_ids.deep_view().len());
}

} // verus!
