use covax::motive::motive_filter;

#[test]
fn first_dose_pfizer_matches() {
    assert!(motive_filter("1ère dose Pfizer-BioNTech"));
}

#[test]
fn second_dose_moderna_does_not_match() {
    assert!(!motive_filter("2ème dose Moderna"));
}

#[test]
fn covid_label_loses_its_digit_with_the_strip() {
    // "19" is stripped as a literal substring, and no other digit '1' is
    // left in the name, so the two-part test fails on its first half.
    assert!(!motive_filter("Vaccination COVID19 Pfizer"));
}

#[test]
fn plain_first_dose_matches() {
    assert!(motive_filter("1 dose Pfizer"));
}

#[test]
fn empty_name_does_not_match() {
    assert!(!motive_filter(""));
}

#[test]
fn digit_without_pfizer_does_not_match() {
    assert!(!motive_filter("1ère dose Moderna"));
}

#[test]
fn uppercase_pfizer_is_folded_before_the_test() {
    assert!(motive_filter("PFIZER dose 1"));
}

#[test]
fn the_strip_can_create_a_match_boundary() {
    // Removing the literal "19" joins "pf" and "izer" into "pfizer".
    assert!(motive_filter("1x pf19izer"));
}
