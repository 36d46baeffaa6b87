use omarec::clock::{civil_from_days, civil_utc, format_unix_utc};

#[test]
fn formats_unix_epoch_utc() {
    assert_eq!(format_unix_utc("%Y-%m-%d_%H-%M-%S", 0), "1970-01-01_00-00-00");
    assert_eq!(format_unix_utc("%Y-%m-%d_%H-%M-%S", 86_400 + 3661), "1970-01-02_01-01-01");
}

#[test]
fn civil_dates_cross_leap_days_and_centuries() {
    assert_eq!(civil_from_days(0), (1970, 1, 1));
    assert_eq!(civil_from_days(-1), (1969, 12, 31));
    assert_eq!(civil_from_days(11_016), (2000, 2, 29));
    assert_eq!(civil_from_days(11_017), (2000, 3, 1));
    assert_eq!(civil_from_days(-25_508), (1900, 3, 1));
    assert_eq!(civil_utc(951_782_400 + 3_599), (2000, 2, 29, 0, 59, 59));
}

#[test]
fn pattern_literals_and_unknown_directives_pass_through() {
    assert_eq!(format_unix_utc("rec %Y %% %q", 0), "rec 1970 %% %q");
}
