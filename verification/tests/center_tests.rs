use covax::center::{AppointmentSchedule, Center, Metadata, RequestCount};

fn base_center() -> Center {
    Center {
        departement: "75".to_string(),
        nom: "Centre de test".to_string(),
        url: "https://www.doctolib.fr/vaccination/paris/centre?pid=practice-5".to_string(),
        metadata: Metadata {
            address: "1 rue de la Paix, Paris".to_string(),
            business_hours: None,
            phone_number: None,
        },
        prochain_rdv: Some("2021-05-21T10:00:00.000+02:00".to_string()),
        plateforme: Some("Doctolib".to_string()),
        kind: "vaccination-center".to_string(),
        appointment_count: 12,
        internal_id: None,
        vaccine_type: Some(vec!["Pfizer-BioNTech".to_string(), "Moderna".to_string()]),
        appointment_by_phone_only: false,
        erreur: None,
        last_scan_with_availabilities: None,
        request_counts: Some(RequestCount { slots: Some(12) }),
        appointment_schedules: Some(vec![
            AppointmentSchedule {
                name: "standard".to_string(),
                from: None,
                to: None,
                total: 7,
            },
            AppointmentSchedule {
                name: "chronodose".to_string(),
                from: Some("2021-05-21T00:00:00.000+02:00".to_string()),
                to: Some("2021-05-22T00:00:00.000+02:00".to_string()),
                total: 3,
            },
        ]),
        gid: "c75000".to_string(),
    }
}

#[test]
fn reports_a_chronodose_when_its_total_is_positive() {
    assert!(base_center().has_chronodose());
}

#[test]
fn no_chronodose_when_the_window_is_absent_or_empty() {
    let mut c = base_center();
    c.appointment_schedules = None;
    assert!(!c.has_chronodose());
    let mut c = base_center();
    c.appointment_schedules = Some(vec![AppointmentSchedule {
        name: "chronodose".to_string(),
        from: None,
        to: None,
        total: 0,
    }]);
    assert!(!c.has_chronodose());
}

#[test]
fn vaccine_labels_are_folded_before_the_search() {
    let c = base_center();
    assert!(c.has_vaccine("pfizer"));
    assert!(c.has_vaccine("moderna"));
    assert!(!c.has_vaccine("astrazeneca"));
}

#[test]
fn vaccine_search_is_case_folding_one_way_only() {
    // Labels are lowered; the pattern is used as given.
    assert!(!base_center().has_vaccine("PFIZER"));
}

#[test]
fn no_vaccine_list_means_no_match() {
    let mut c = base_center();
    c.vaccine_type = None;
    assert!(!c.has_vaccine("pfizer"));
}

#[test]
fn live_scan_is_used_for_the_driven_backend_only() {
    assert!(base_center().uses_live_scan());
    let mut c = base_center();
    c.url = "https://www.example.org/booking".to_string();
    assert!(!c.uses_live_scan());
}

#[test]
fn fallback_count_reads_the_chronodose_total() {
    assert_eq!(base_center().fallback_slot_count(), 3);
    let mut c = base_center();
    c.appointment_schedules = None;
    assert_eq!(c.fallback_slot_count(), 0);
}
