use fbr_tools::calendar::CalendarDate;

fn text(year: i32, month: u32, day: u32) -> String {
    CalendarDate { year, month, day }.day_month_year()
}

#[test]
fn date_is_day_month_name_year() {
    assert_eq!(text(2024, 3, 5), "5 March 2024");
    assert_eq!(text(1999, 12, 31), "31 December 1999");
    assert_eq!(text(2025, 1, 10), "10 January 2025");
}

#[test]
fn leap_day_exists_only_in_leap_years() {
    assert_eq!(text(2024, 2, 29), "29 February 2024");
    assert_eq!(text(2000, 2, 29), "29 February 2000");
    assert_eq!(text(1900, 2, 29), "");
    assert_eq!(text(2023, 2, 29), "");
}

#[test]
fn impossible_dates_give_no_text() {
    assert_eq!(text(2024, 13, 1), "");
    assert_eq!(text(2024, 0, 1), "");
    assert_eq!(text(2024, 4, 31), "");
    assert_eq!(text(2024, 4, 0), "");
    assert_eq!(text(300000, 1, 1), "");
}

#[test]
fn short_and_long_years() {
    assert_eq!(text(999, 6, 1), "1 June 0999");
    assert_eq!(text(12345, 6, 1), "1 June +12345");
    assert_eq!(text(-5, 6, 1), "1 June -0005");
}

#[test]
fn chrono_year_range_is_the_edge() {
    assert_eq!(text(262142, 12, 31), "31 December +262142");
    assert_eq!(text(262143, 1, 1), "");
    assert_eq!(text(-262143, 1, 1), "1 January -262143");
    assert_eq!(text(-262144, 12, 31), "");
}

#[test]
fn year_zero_is_four_zeros() {
    assert_eq!(text(0, 1, 1), "1 January 0000");
    assert_eq!(text(1000, 7, 4), "4 July 1000");
}
