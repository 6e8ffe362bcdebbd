use winstructs::timestamp::{DosDate, DosDateTime, DosTime, WinTimestamp};
use winstructs::ByteCursor;

#[test]
fn test_win_timestamp() {
    let raw_timestamp: &[u8] = &[0x53, 0xC7, 0x8B, 0x18, 0xC5, 0xCC, 0xCE, 0x01];

    let timestamp = WinTimestamp::from_reader(&mut ByteCursor::new(raw_timestamp)).unwrap();

    assert_eq!(timestamp.to_string(), "2013-10-19 12:16:53.276040 UTC");
    assert_eq!(format!("{}", timestamp.to_string()), "2013-10-19 12:16:53.276040 UTC");
}

#[test]
fn win_timestamp_epoch_and_parts() {
    assert_eq!(WinTimestamp(0).to_string(), "1601-01-01 00:00:00 UTC");
    let dt = WinTimestamp(864_000_000_000 + 10).to_datetime();
    assert_eq!(dt.days_from_ce, 584_390);
    assert_eq!(dt.seconds_from_midnight, 0);
    assert_eq!(dt.nanoseconds, 1000);
    assert!(WinTimestamp::new(&[0u8; 7]).is_err());
}

#[test]
fn test_dosdate() {
    let dos_date = DosDate(16492);

    assert_eq!(dos_date.to_string(), "2012-03-12");
}

#[test]
fn test_dosdate_zeros() {
    let raw_date: &[u8] = &[0x00, 0x00];
    let date = DosDate::from_reader(&mut ByteCursor::new(raw_date)).unwrap();
    assert_eq!(date.to_string(), "1980-01-01");
    assert_eq!(format!("{}", date.to_string()), "1980-01-01");
}

#[test]
fn dos_date_parts_validity_and_format() {
    let date = DosDate::new(16492).to_date();
    assert_eq!((date.year, date.month, date.day), (2012, 3, 12));
    assert_eq!(DosDate::new(16492).to_date_formatted("%d/%m/%Y"), Some("12/03/2012".to_string()));
    // Month 13 does not exist.
    let bad = DosDate::new((32 << 9) | (13 << 5) | 1);
    assert!(!bad.is_valid());
    assert_eq!(bad.to_date_formatted("%Y"), None);
    // 30 February does not exist.
    assert!(!DosDate::new((32 << 9) | (2 << 5) | 30).is_valid());
    assert!(DosDate::new((32 << 9) | (2 << 5) | 29).is_valid());
}

#[test]
fn test_dostime() {
    let dos_time = DosTime(43874);

    assert_eq!(dos_time.to_string(), "21:27:04");
}

#[test]
fn test_dostime_zeros() {
    let raw_time: &[u8] = &[0x00, 0x00];
    let time = DosTime::from_reader(&mut ByteCursor::new(raw_time)).unwrap();
    assert_eq!(time.to_string(), "00:00:00");
    assert_eq!(format!("{}", time.to_string()), "00:00:00");
}

#[test]
fn dos_time_validity() {
    let t = DosTime::new(43874).to_time();
    assert_eq!((t.hour, t.minute, t.second), (21, 27, 4));
    // 30 halved seconds make 60 seconds.
    assert!(!DosTime::new(30).is_valid());
    assert!(!DosTime::new(24 << 11).is_valid());
    assert!(DosTime::new((23 << 11) | (59 << 5) | 29).is_valid());
}

#[test]
fn test_dosdatetime() {
    let dos_time = DosDateTime::from(2_875_342_956);

    assert_eq!(dos_time.to_string(), "2012-03-12 21:27:04");
}

#[test]
fn dos_datetime_reads_date_then_time() {
    let bytes = [0x6C, 0x40, 0x62, 0xAB];
    let dt = DosDateTime::from_reader(&mut ByteCursor::new(&bytes)).unwrap();
    assert_eq!(dt, DosDateTime::new(16492, 43874));
    assert_eq!(dt.date().0, 16492);
    assert_eq!(dt.time().0, 43874);
}
