//! Checks of the numeral and calendar helpers behind the footer's year.

use portfolio_ui::calendar::days_in_year;
use portfolio_ui::calendar::is_leap_year;
use portfolio_ui::calendar::year_of_unix_seconds;
use portfolio_ui::numeral::decimal_string;

#[test]
fn decimal_string_writes_exact_numerals() {
    assert_eq!(decimal_string(0), "0");
    assert_eq!(decimal_string(7), "7");
    assert_eq!(decimal_string(10), "10");
    assert_eq!(decimal_string(907), "907");
    assert_eq!(decimal_string(2025), "2025");
    assert_eq!(decimal_string(18446744073709551615), "18446744073709551615");
}

#[test]
fn leap_years_follow_the_gregorian_rule() {
    assert!(is_leap_year(2000));
    assert!(!is_leap_year(1900));
    assert!(is_leap_year(2024));
    assert!(!is_leap_year(2023));
    assert_eq!(days_in_year(2024), 366);
    assert_eq!(days_in_year(2025), 365);
}

#[test]
fn epoch_seconds_fall_in_the_right_year() {
    assert_eq!(year_of_unix_seconds(0), 1970);
    assert_eq!(year_of_unix_seconds(946684799), 1999);
    assert_eq!(year_of_unix_seconds(946684800), 2000);
    assert_eq!(year_of_unix_seconds(951782400), 2000);
    assert_eq!(year_of_unix_seconds(94694399), 1972);
    assert_eq!(year_of_unix_seconds(94694400), 1973);
    assert_eq!(year_of_unix_seconds(1735689600), 2025);
}
