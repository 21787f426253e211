use covax::metadata::{Agenda, BookingMetadata, PracticeEntry, VisitMotive};
use covax::probe::{build_claim_request, flatten_two_days, AvailabilityDoc, DayBucket, RawSlot,
    WireIds};
use covax::scan::{
    metadata_url, parse_booking_url, plan_after_metadata, plan_after_probe, scan_result_of,
    MetadataStep, ProbeStep,
};
use covax::slot_verifier::{classify_claim_answer, count_free, VerifyAction};
use covax::ScanError;

const BOOKING_URL: &str =
    "https://www.doctolib.fr/vaccination-covid-19/paris/centre-xyz?enable=1&pid=practice-12345";

#[test]
fn extracts_slug_and_practice_hint() {
    let (slug, hint) = parse_booking_url(BOOKING_URL).expect("a well-formed booking URL");
    assert_eq!(slug, "centre-xyz");
    assert_eq!(hint, "12345");
}

#[test]
fn hint_is_what_follows_the_first_dash() {
    let (_, hint) =
        parse_booking_url("https://x.fr/a/b?pid=practice-12-34").expect("well-formed");
    assert_eq!(hint, "12-34");
}

#[test]
fn url_without_scheme_is_malformed() {
    assert_eq!(parse_booking_url("no scheme at all").unwrap_err(), ScanError::MalformedUrl);
}

#[test]
fn url_without_pid_is_malformed() {
    assert_eq!(
        parse_booking_url("https://www.doctolib.fr/a/b?x=1").unwrap_err(),
        ScanError::MalformedUrl
    );
}

#[test]
fn pid_without_dash_is_malformed() {
    assert_eq!(
        parse_booking_url("https://www.doctolib.fr/a/b?pid=12345").unwrap_err(),
        ScanError::MalformedUrl
    );
}

#[test]
fn builds_the_metadata_url() {
    assert_eq!(
        metadata_url(&"centre-xyz".to_string()),
        "https://www.doctolib.fr/booking/centre-xyz.json"
    );
}

fn example_metadata() -> BookingMetadata {
    BookingMetadata {
        visit_motives: vec![VisitMotive { id: 1, name: "1 dose Pfizer".to_string() }],
        agendas: vec![Agenda {
            id: 10,
            motive_map: vec![PracticeEntry {
                practice_id: "5".to_string(),
                motive_ids: vec![1, 2],
            }],
        }],
    }
}

#[test]
fn plans_the_probe_for_the_example_document() {
    let step = plan_after_metadata(&example_metadata(), &"5".to_string(), &"2021-05-21".to_string());
    match step {
        MetadataStep::Probe { ids, wire, query } => {
            assert_eq!(ids.agenda_ids, vec![10]);
            assert_eq!(ids.practice_ids, vec!["5".to_string()]);
            assert_eq!(ids.visit_motive_ids, vec![1]);
            assert_eq!(wire.agenda_ids, "10");
            assert_eq!(wire.practice_ids, "5");
            assert_eq!(wire.visit_motive_ids, "1");
            assert_eq!(query.start_date, "2021-05-21");
            assert_eq!(query.agenda_ids, "10");
            assert_eq!(query.visit_motive_ids, "1");
            assert_eq!(query.practice_ids, "5");
            assert_eq!(query.insurance_sector, "public");
            assert_eq!(query.destroy_temporary, "true");
            assert_eq!(query.limit, "4");
        },
        MetadataStep::Done { .. } => panic!("the example document has an eligible slot type"),
    }
}

#[test]
fn no_matching_motive_ends_the_scan_before_any_probe() {
    let meta = BookingMetadata {
        visit_motives: vec![VisitMotive { id: 1, name: "2ème dose Moderna".to_string() }],
        agendas: vec![Agenda {
            id: 10,
            motive_map: vec![PracticeEntry {
                practice_id: "5".to_string(),
                motive_ids: vec![1],
            }],
        }],
    };
    match plan_after_metadata(&meta, &"5".to_string(), &"2021-05-21".to_string()) {
        MetadataStep::Done { count } => assert_eq!(count, 0),
        MetadataStep::Probe { .. } => panic!("nothing may be probed without a matching motive"),
    }
}

fn bucket(dates: Vec<Option<&str>>) -> DayBucket {
    DayBucket {
        slots: Some(
            dates
                .into_iter()
                .map(|d| RawSlot { start_date: d.map(|s| s.to_string()) })
                .collect(),
        ),
    }
}

#[test]
fn flattening_takes_the_first_two_daily_buckets_only() {
    let doc = AvailabilityDoc {
        availabilities: Some(vec![
            bucket(vec![Some("d1a"), Some("d1b")]),
            bucket(vec![Some("d2a")]),
            bucket(vec![Some("d3a")]),
            bucket(vec![Some("d4a")]),
            bucket(vec![Some("d5a")]),
        ]),
    };
    assert_eq!(flatten_two_days(&doc), vec!["d1a", "d1b", "d2a"]);
}

#[test]
fn slots_without_a_timestamp_are_dropped_silently() {
    let doc = AvailabilityDoc {
        availabilities: Some(vec![bucket(vec![Some("d1a"), None, Some("d1c")])]),
    };
    assert_eq!(flatten_two_days(&doc), vec!["d1a", "d1c"]);
}

#[test]
fn missing_availability_list_flattens_to_nothing() {
    let doc = AvailabilityDoc { availabilities: None };
    assert!(flatten_two_days(&doc).is_empty());
    let doc = AvailabilityDoc { availabilities: Some(vec![DayBucket { slots: None }]) };
    assert!(flatten_two_days(&doc).is_empty());
}

#[test]
fn empty_calendar_opens_no_verification_session() {
    let doc = AvailabilityDoc { availabilities: Some(vec![]) };
    match plan_after_probe(&doc) {
        ProbeStep::Done { count } => assert_eq!(count, 0),
        ProbeStep::Verify { .. } => panic!("nothing to verify in an empty calendar"),
    }
}

#[test]
fn builds_the_claim_request_body() {
    let wire = WireIds {
        agenda_ids: "10".to_string(),
        practice_ids: "5".to_string(),
        visit_motive_ids: "1".to_string(),
    };
    let req = build_claim_request(&wire, &"2021-05-21T10:00:00.000+02:00".to_string());
    assert_eq!(req.agenda_ids, "10");
    assert_eq!(req.practice_ids, vec!["5".to_string()]);
    assert_eq!(req.start_date, "2021-05-21T10:00:00.000+02:00");
    assert_eq!(req.visit_motive_ids, "1");
}

#[test]
fn end_to_end_example_counts_one_free_slot() {
    // Resolve the single-motive document, then verify two candidates of
    // which the transport reports one created reservation and one error.
    let step = plan_after_metadata(&example_metadata(), &"5".to_string(), &"2021-05-21".to_string());
    let wire = match step {
        MetadataStep::Probe { wire, .. } => wire,
        MetadataStep::Done { .. } => panic!("the example document resolves"),
    };
    assert_eq!((wire.agenda_ids.as_str(), wire.practice_ids.as_str()), ("10", "5"));
    let outcomes = vec![classify_claim_answer(Some(false)), classify_claim_answer(Some(true))];
    assert_eq!(count_free(&outcomes), 1);
}

#[test]
fn multiple_identifiers_join_with_dashes_in_first_seen_order() {
    let meta = BookingMetadata {
        visit_motives: vec![
            VisitMotive { id: 1, name: "1 dose Pfizer".to_string() },
            VisitMotive { id: 3, name: "1ère dose Pfizer-BioNTech".to_string() },
        ],
        agendas: vec![
            Agenda {
                id: 10,
                motive_map: vec![PracticeEntry {
                    practice_id: "5".to_string(),
                    motive_ids: vec![1],
                }],
            },
            Agenda {
                id: 11,
                motive_map: vec![PracticeEntry {
                    practice_id: "5".to_string(),
                    motive_ids: vec![3, 1],
                }],
            },
        ],
    };
    match plan_after_metadata(&meta, &"5".to_string(), &"2021-05-21".to_string()) {
        MetadataStep::Probe { wire, .. } => {
            assert_eq!(wire.agenda_ids, "10-11");
            assert_eq!(wire.visit_motive_ids, "1-3");
            assert_eq!(wire.practice_ids, "5");
        },
        MetadataStep::Done { .. } => panic!("two agendas survive"),
    }
}

#[test]
fn builds_the_second_shot_query() {
    let wire = WireIds {
        agenda_ids: "10".to_string(),
        practice_ids: "5".to_string(),
        visit_motive_ids: "1".to_string(),
    };
    let q = covax::probe::build_second_probe_query(
        &wire,
        &"2021-06-12".to_string(),
        &"2021-05-21T10:00:00.000+02:00".to_string(),
    );
    assert_eq!(q.start_date, "2021-06-12");
    assert_eq!(q.first_slot, "2021-05-21T10:00:00.000+02:00");
    assert_eq!(q.agenda_ids, "10");
    assert_eq!(q.insurance_sector, "public");
    assert_eq!(q.destroy_temporary, "true");
    assert_eq!(q.limit, "4");
}

#[test]
fn errors_degrade_to_a_zero_count() {
    assert_eq!(scan_result_of(&Ok(3)).count, 3);
    assert_eq!(scan_result_of(&Err(ScanError::MetadataFetchError)).count, 0);
    assert_eq!(scan_result_of(&Err(ScanError::ProbeError)).count, 0);
}

#[test]
fn probe_plan_ends_with_the_decoy_release() {
    let doc = AvailabilityDoc {
        availabilities: Some(vec![bucket(vec![Some("2021-05-21T10:00:00.000+02:00")])]),
    };
    match plan_after_probe(&doc) {
        ProbeStep::Verify { slots, actions } => {
            assert_eq!(slots.len(), 1);
            assert!(matches!(actions.last().unwrap(), VerifyAction::ReleaseDecoy { .. }));
            let releases = actions
                .iter()
                .filter(|a| matches!(a, VerifyAction::ReleaseDecoy { .. }))
                .count();
            assert_eq!(releases, 1);
        },
        // The probed slot lies far in the past relative to the running
        // clock, which still counts as short notice, so a pass is planned.
        ProbeStep::Done { .. } => panic!("a short-notice candidate must be verified"),
    }
}
