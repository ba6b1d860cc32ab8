use n3rgy_client::timestamp::parse_date;
use n3rgy_client::timestamp::parse_n3rgy_timestamp;
use n3rgy_client::Date;

#[test]
fn test_parse_valid_timestamp() {
    let result = parse_n3rgy_timestamp("2023-09-17 14:30");
    assert!(result.is_ok());
    let datetime = result.unwrap();
    assert_eq!(datetime.year(), 2023);
    assert_eq!(datetime.month(), 9);
    assert_eq!(datetime.day(), 17);
    assert_eq!(datetime.hour(), 14);
    assert_eq!(datetime.minute(), 30);
}

#[test]
fn test_parse_invalid_format() {
    let result = parse_n3rgy_timestamp("2023/09/17 14:30");
    assert!(result.is_err());
}

#[test]
fn test_parse_invalid_date() {
    let result = parse_n3rgy_timestamp("2023-13-32 14:30");
    assert!(result.is_err());
}

#[test]
fn test_parse_invalid_time() {
    let result = parse_n3rgy_timestamp("2023-09-17 25:61");
    assert!(result.is_err());
}

#[test]
fn test_parse_empty_string() {
    let result = parse_n3rgy_timestamp("");
    assert!(result.is_err());
}

#[test]
fn test_parse_partial_timestamp() {
    let result = parse_n3rgy_timestamp("2023-09-17");
    assert!(result.is_err());
}

#[test]
fn test_parse_leap_year() {
    let result = parse_n3rgy_timestamp("2024-02-29 00:00");
    assert!(result.is_ok());
    let datetime = result.unwrap();
    assert_eq!(datetime.date(), Date::from_ymd_opt(2024, 2, 29).unwrap());
}

#[test]
fn test_parse_non_leap_year() {
    let result = parse_n3rgy_timestamp("2023-02-29 00:00");
    assert!(result.is_err());
}

#[test]
fn it_works() {
    let result = 2 + 2;
    assert_eq!(result, 4);
}

#[test]
fn test_parse_date_valid() {
    let result = parse_date("2024-01-31");
    assert!(result.is_ok());
    let date = result.unwrap();
    assert_eq!(date.year(), 2024);
    assert_eq!(date.month(), 1);
    assert_eq!(date.day(), 31);
}

#[test]
fn test_parse_date_rejects_deviations() {
    assert!(parse_date("").is_err());
    assert!(parse_date("2024-1-31").is_err());
    assert!(parse_date("2024/01/31").is_err());
    assert!(parse_date("2024-01-32").is_err());
    assert!(parse_date("2024-00-10").is_err());
    assert!(parse_date("2024-01-00").is_err());
    assert!(parse_date("2023-02-29").is_err());
    assert!(parse_date("2024-02-29").is_ok());
    assert!(parse_date("2024-01-31 ").is_err());
}

#[test]
fn test_parse_timestamp_rejects_deviations() {
    assert!(parse_n3rgy_timestamp("2023-09-17 24:00").is_err());
    assert!(parse_n3rgy_timestamp("2023-09-17 23:60").is_err());
    assert!(parse_n3rgy_timestamp("2023-09-17T14:30").is_err());
    assert!(parse_n3rgy_timestamp("2023-09-17 14.30").is_err());
    assert!(parse_n3rgy_timestamp("2023-09-17 14:30:00").is_err());
    assert!(parse_n3rgy_timestamp("23-09-17 14:30").is_err());
}

#[test]
fn test_from_ymd_opt_calendar_rules() {
    assert!(Date::from_ymd_opt(2024, 2, 29).is_some());
    assert!(Date::from_ymd_opt(2023, 2, 29).is_none());
    assert!(Date::from_ymd_opt(1900, 2, 29).is_none());
    assert!(Date::from_ymd_opt(2000, 2, 29).is_some());
    assert!(Date::from_ymd_opt(2024, 4, 31).is_none());
    assert!(Date::from_ymd_opt(2024, 13, 1).is_none());
    assert!(Date::from_ymd_opt(2024, 0, 1).is_none());
    assert!(Date::from_ymd_opt(2024, 1, 0).is_none());
    let date = Date::from_ymd_opt(2024, 12, 31).unwrap();
    assert_eq!(date.year(), 2024);
    assert_eq!(date.month(), 12);
    assert_eq!(date.day(), 31);
}
