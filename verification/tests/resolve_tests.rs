use covax::metadata::{
    validate_metadata, Agenda, BookingMetadata, PracticeEntry, RawAgenda, RawBookingMetadata,
    RawPracticeEntry, RawVisitMotive, VisitMotive,
};
use covax::resolve::resolve;
use covax::ScanError;

fn motive(id: u64, name: &str) -> VisitMotive {
    VisitMotive { id, name: name.to_string() }
}

fn agenda(id: u64, entries: Vec<(&str, Vec<u64>)>) -> Agenda {
    Agenda {
        id,
        motive_map: entries
            .into_iter()
            .map(|(k, v)| PracticeEntry { practice_id: k.to_string(), motive_ids: v })
            .collect(),
    }
}

#[test]
fn resolves_the_example_document() {
    let meta = BookingMetadata {
        visit_motives: vec![motive(1, "1 dose Pfizer")],
        agendas: vec![agenda(10, vec![("5", vec![1, 2])])],
    };
    let r = resolve(&meta, &"5".to_string());
    assert_eq!(r.agenda_ids, vec![10]);
    assert_eq!(r.practice_ids, vec!["5".to_string()]);
    assert_eq!(r.visit_motive_ids, vec![1]);
    assert!(!r.is_empty());
}

#[test]
fn no_matching_motive_empties_all_three_sets() {
    let meta = BookingMetadata {
        visit_motives: vec![motive(1, "2ème dose Moderna"), motive(2, "Consultation")],
        agendas: vec![agenda(10, vec![("5", vec![1, 2])])],
    };
    let r = resolve(&meta, &"5".to_string());
    assert!(r.agenda_ids.is_empty());
    assert!(r.practice_ids.is_empty());
    assert!(r.visit_motive_ids.is_empty());
    assert!(r.is_empty());
}

#[test]
fn agenda_without_the_hinted_practice_is_excluded() {
    let meta = BookingMetadata {
        visit_motives: vec![motive(1, "1 dose Pfizer")],
        agendas: vec![
            agenda(10, vec![("5", vec![1])]),
            agenda(11, vec![("6", vec![1])]),
        ],
    };
    let r = resolve(&meta, &"5".to_string());
    assert_eq!(r.agenda_ids, vec![10]);
    assert!(!r.agenda_ids.contains(&11));
}

#[test]
fn agenda_with_empty_intersection_is_dropped() {
    let meta = BookingMetadata {
        visit_motives: vec![motive(1, "1 dose Pfizer")],
        agendas: vec![
            agenda(10, vec![("5", vec![2, 3])]),
            agenda(11, vec![("5", vec![1])]),
        ],
    };
    let r = resolve(&meta, &"5".to_string());
    assert_eq!(r.agenda_ids, vec![11]);
    assert_eq!(r.visit_motive_ids, vec![1]);
}

#[test]
fn identifier_sets_are_deduplicated() {
    let meta = BookingMetadata {
        visit_motives: vec![motive(1, "1 dose Pfizer"), motive(1, "1 dose Pfizer")],
        agendas: vec![
            agenda(10, vec![("5", vec![1]), ("5", vec![1])]),
            agenda(10, vec![("5", vec![1])]),
        ],
    };
    let r = resolve(&meta, &"5".to_string());
    assert_eq!(r.agenda_ids, vec![10]);
    assert_eq!(r.practice_ids, vec!["5".to_string()]);
    assert_eq!(r.visit_motive_ids, vec![1]);
}

#[test]
fn validates_a_complete_document() {
    let raw = RawBookingMetadata {
        visit_motives: Some(vec![RawVisitMotive {
            id: Some(1),
            name: Some("1 dose Pfizer".to_string()),
        }]),
        agendas: Some(vec![RawAgenda {
            id: Some(10),
            motive_map: Some(vec![RawPracticeEntry {
                practice_id: "5".to_string(),
                motive_ids: Some(vec![Some(1), Some(2)]),
            }]),
        }]),
    };
    let meta = validate_metadata(&raw).expect("document is complete");
    assert_eq!(meta.visit_motives.len(), 1);
    assert_eq!(meta.visit_motives[0].id, 1);
    assert_eq!(meta.visit_motives[0].name, "1 dose Pfizer");
    assert_eq!(meta.agendas[0].id, 10);
    assert_eq!(meta.agendas[0].motive_map[0].practice_id, "5");
    assert_eq!(meta.agendas[0].motive_map[0].motive_ids, vec![1, 2]);
}

#[test]
fn missing_motive_name_is_malformed() {
    let raw = RawBookingMetadata {
        visit_motives: Some(vec![RawVisitMotive { id: Some(1), name: None }]),
        agendas: Some(vec![]),
    };
    match validate_metadata(&raw) {
        Err(e) => assert_eq!(e, ScanError::MalformedMetadata),
        Ok(_) => panic!("the document must be rejected"),
    }
}

#[test]
fn missing_agenda_list_is_malformed() {
    let raw = RawBookingMetadata { visit_motives: Some(vec![]), agendas: None };
    match validate_metadata(&raw) {
        Err(e) => assert_eq!(e, ScanError::MalformedMetadata),
        Ok(_) => panic!("the document must be rejected"),
    }
}

#[test]
fn non_numeric_motive_entry_is_malformed() {
    let raw = RawBookingMetadata {
        visit_motives: Some(vec![]),
        agendas: Some(vec![RawAgenda {
            id: Some(10),
            motive_map: Some(vec![RawPracticeEntry {
                practice_id: "5".to_string(),
                motive_ids: Some(vec![Some(1), None]),
            }]),
        }]),
    };
    match validate_metadata(&raw) {
        Err(e) => assert_eq!(e, ScanError::MalformedMetadata),
        Ok(_) => panic!("the document must be rejected"),
    }
}
