use match_ticket::calendar::format_date;
use match_ticket::error::TicketError;

#[test]
fn format_date_writes_utc_to_the_minute() {
    assert_eq!(format_date(1_700_000_000), Ok(String::from("2023-11-14 22:13")));
}

#[test]
fn format_date_of_the_epoch() {
    assert_eq!(format_date(0), Ok(String::from("1970-01-01 00:00")));
}

#[test]
fn format_date_drops_the_seconds() {
    assert_eq!(format_date(59), Ok(String::from("1970-01-01 00:00")));
    assert_eq!(format_date(60), Ok(String::from("1970-01-01 00:01")));
}

#[test]
fn format_date_knows_leap_days() {
    assert_eq!(format_date(1_709_210_096), Ok(String::from("2024-02-29 12:34")));
}

#[test]
fn format_date_refuses_what_the_calendar_cannot_hold() {
    assert_eq!(format_date(i64::MAX as u64), Err(TicketError::InvalidTimestamp));
    assert_eq!(format_date(100_000_000_000_000_000), Err(TicketError::InvalidTimestamp));
}

#[test]
fn format_date_refuses_what_lies_beyond_the_signed_range() {
    assert_eq!(format_date(i64::MAX as u64 + 1), Err(TicketError::InvalidTimestamp));
    assert_eq!(format_date(u64::MAX), Err(TicketError::InvalidTimestamp));
}

#[test]
fn format_date_ends_with_the_last_minute_of_the_calendar() {
    assert_eq!(format_date(8_210_266_876_799), Ok(String::from("+262142-12-31 23:59")));
    assert_eq!(format_date(8_210_266_876_800), Err(TicketError::InvalidTimestamp));
}
