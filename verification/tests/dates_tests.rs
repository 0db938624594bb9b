use user_directory::dates::{adult_cutoff, is_adult, parse_date, Date};

#[test]
fn parses_plain_date() {
    let d = parse_date("1990-01-01").unwrap();
    assert_eq!((d.year, d.month, d.day), (1990, 1, 1));
}

#[test]
fn parses_leap_day_in_leap_year() {
    let d = parse_date("2008-02-29").unwrap();
    assert_eq!((d.year, d.month, d.day), (2008, 2, 29));
}

#[test]
fn rejects_leap_day_in_common_year() {
    assert!(parse_date("2023-02-29").is_none());
}

#[test]
fn rejects_malformed_strings() {
    assert!(parse_date("").is_none());
    assert!(parse_date("1990-1-01").is_none());
    assert!(parse_date("1990/01/01").is_none());
    assert!(parse_date("199O-01-01").is_none());
    assert!(parse_date("1990-13-01").is_none());
    assert!(parse_date("1990-00-10").is_none());
    assert!(parse_date("1990-04-31").is_none());
    assert!(parse_date("1990-01-013").is_none());
}

#[test]
fn cutoff_is_eighteen_years_back() {
    let today = Date { year: 2026, month: 5, day: 10 };
    let c = adult_cutoff(today).unwrap();
    assert_eq!((c.year, c.month, c.day), (2008, 5, 10));
}

#[test]
fn cutoff_clamps_leap_day() {
    // Eighteen years before 2025-02-29 does not exist; 2025 is not a
    // leap year either, so a Feb 29 today (2044) maps to Feb 28 (2026).
    let today = Date { year: 2044, month: 2, day: 29 };
    let c = adult_cutoff(today).unwrap();
    assert_eq!((c.year, c.month, c.day), (2026, 2, 28));
}

#[test]
fn age_gate_boundary_exactly_eighteen_passes() {
    let today = Date { year: 2026, month: 5, day: 10 };
    let birth = parse_date("2008-05-10").unwrap();
    assert!(is_adult(&birth, &today));
}

#[test]
fn age_gate_boundary_one_day_short_fails() {
    let today = Date { year: 2026, month: 5, day: 10 };
    let birth = parse_date("2008-05-11").unwrap();
    assert!(!is_adult(&birth, &today));
}

#[test]
fn age_gate_accepts_older_subjects() {
    let today = Date { year: 2026, month: 5, day: 10 };
    let birth = parse_date("1990-01-01").unwrap();
    assert!(is_adult(&birth, &today));
}
