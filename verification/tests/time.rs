use forensic_rs::utils::time::{filetime_to_unix_timestamp, Filetime, UnixTimestamp, WinFiletime};
use std::time::{Duration, UNIX_EPOCH};

#[test]
fn time_should_generate_valid_windows_timestamps() {
    assert_eq!(1706969423596, filetime_to_unix_timestamp(133514430235959706u64));
    //Sat 3 February 2024 14:10:23 UTC = EPOCH 1706969423
    let time = UNIX_EPOCH + Duration::from_millis(filetime_to_unix_timestamp(133514430235959706u64));
    assert_eq!(1706969423, time.duration_since(UNIX_EPOCH).unwrap().as_secs());
    assert_eq!(1706969423596, time.duration_since(UNIX_EPOCH).unwrap().as_millis());
    println!("{:?}", time.duration_since(UNIX_EPOCH).unwrap().as_millis());
}

#[test]
fn time_should_transform_to_calendar() {
    assert_eq!("01-02-2024 00:00:00", WinFiletime(133512192000000000).to_string());
    assert_eq!("01-01-2024 14:10:23", WinFiletime(133485918230000000).to_string());
    assert_eq!("03-02-2024 14:10:23", WinFiletime(133514430230000000).to_string());
    assert_eq!("03-02-2024 14:10:23", WinFiletime(133514430230000000).to_string());
    assert_eq!("01-01-1601 00:00:00", WinFiletime(0).to_string());
    assert_eq!("01-01-1602 00:00:00", WinFiletime(315360000000000).to_string());
    assert_eq!("01-01-1605 00:00:00", WinFiletime(1262304000000000).to_string());
    assert_eq!("14-11-1999 18:27:59", WinFiletime(125870776790000000).to_string());
    assert_eq!("14-11-2000 18:27:59", WinFiletime(126187000790000000).to_string());
    // 2000 is a leap year
    assert_eq!("29-02-2000 18:27:59.001", WinFiletime(125963224790010000).to_string());
    // 1900 not a leap year
    assert_eq!("01-03-1900 18:27:59", WinFiletime(94406488790000000).to_string());
    assert_eq!("28-02-1900 18:27:59", WinFiletime(94405624790000000).to_string());

    let time = WinFiletime(125963224790010000);
    assert_eq!(29, time.day());
    assert_eq!(2, time.month());
    assert_eq!(2000, time.year());
    assert_eq!(18, time.hour());
    assert_eq!(27, time.minute());
    assert_eq!(59, time.second());
    assert_eq!(1, time.milliseconds());
}

#[test]
fn time_should_transform_unix_to_calendar() {
    assert_eq!("01-02-2024 00:00:00", UnixTimestamp(1706745600000).to_string());
    assert_eq!("01-01-2024 14:10:23", UnixTimestamp(1704118223000).to_string());
    assert_eq!("03-02-2024 14:10:23", UnixTimestamp(1706969423000).to_string());
    assert_eq!("01-01-1970 00:00:00", UnixTimestamp(0).to_string());
    assert_eq!("01-01-1972 00:00:00", UnixTimestamp(63072000000).to_string());
    assert_eq!("14-11-1999 18:27:59", UnixTimestamp(942604079000).to_string());
    assert_eq!("14-11-2000 18:27:59", UnixTimestamp(974226479000).to_string());
    // 2000 is a leap year
    assert_eq!("29-02-2000 18:27:59.001", UnixTimestamp(951848879001).to_string());
}

#[test]
fn should_generate_valid_filetime() {
    let time = Filetime::new(125963224790010000);
    println!("{}", time.to_string());
}

#[test]
fn win_should_generate_valid_windows_timestamps() {
    assert_eq!(
        1706969423596,
        forensic_rs::utils::win::filetime_to_unix_timestamp(133514430235959706u64)
    );
    //Sat 3 February 2024 14:10:23 UTC = EPOCH 1706969423
    let time = UNIX_EPOCH
        + Duration::from_millis(forensic_rs::utils::win::filetime_to_unix_timestamp(
            133514430235959706u64,
        ));
    assert_eq!(1706969423, time.duration_since(UNIX_EPOCH).unwrap().as_secs());
    assert_eq!(1706969423596, time.duration_since(UNIX_EPOCH).unwrap().as_millis());
    println!("{:?}", time.duration_since(UNIX_EPOCH).unwrap().as_millis());
}

#[test]
fn win_should_transform_to_calendar() {
    assert_eq!("01-02-2024 00:00:00", forensic_rs::utils::win::WinFiletime(133512192000000000).to_string());
    assert_eq!("01-01-2024 14:10:23", forensic_rs::utils::win::WinFiletime(133485918230000000).to_string());
    assert_eq!("03-02-2024 14:10:23", forensic_rs::utils::win::WinFiletime(133514430230000000).to_string());
    assert_eq!("03-02-2024 14:10:23", forensic_rs::utils::win::WinFiletime(133514430230000000).to_string());
    assert_eq!("01-01-1601 00:00:00", forensic_rs::utils::win::WinFiletime(0).to_string());
    assert_eq!("01-01-1602 00:00:00", forensic_rs::utils::win::WinFiletime(315360000000000).to_string());
    assert_eq!("01-01-1605 00:00:00", forensic_rs::utils::win::WinFiletime(1262304000000000).to_string());
    assert_eq!("14-11-1999 18:27:59", forensic_rs::utils::win::WinFiletime(125870776790000000).to_string());
    assert_eq!("14-11-2000 18:27:59", forensic_rs::utils::win::WinFiletime(126187000790000000).to_string());
    // 2000 is a leap year
    assert_eq!("29-02-2000 18:27:59.001", forensic_rs::utils::win::WinFiletime(125963224790010000).to_string());
    // 1900 not a leap year
    assert_eq!("01-03-1900 18:27:59", forensic_rs::utils::win::WinFiletime(94406488790000000).to_string());
    assert_eq!("28-02-1900 18:27:59", forensic_rs::utils::win::WinFiletime(94405624790000000).to_string());
}

#[test]
fn win_should_transform_unix_to_calendar() {
    assert_eq!("01-02-2024 00:00:00", forensic_rs::utils::win::UnixTimestamp(1706745600000).to_string());
    assert_eq!("01-01-2024 14:10:23", forensic_rs::utils::win::UnixTimestamp(1704118223000).to_string());
    assert_eq!("03-02-2024 14:10:23", forensic_rs::utils::win::UnixTimestamp(1706969423000).to_string());
    assert_eq!("01-01-1970 00:00:00", forensic_rs::utils::win::UnixTimestamp(0).to_string());
    assert_eq!("01-01-1972 00:00:00", forensic_rs::utils::win::UnixTimestamp(63072000000).to_string());
    assert_eq!("14-11-1999 18:27:59", forensic_rs::utils::win::UnixTimestamp(942604079000).to_string());
    assert_eq!("14-11-2000 18:27:59", forensic_rs::utils::win::UnixTimestamp(974226479000).to_string());
    // 2000 is a leap year
    assert_eq!("29-02-2000 18:27:59.001", forensic_rs::utils::win::UnixTimestamp(951848879001).to_string());
}

#[test]
fn filetime_holds_its_date() {
    // 29-02-2000 18:27:59.001
    let time = Filetime::new(125963224790010000);
    assert_eq!(2000, time.year());
    assert_eq!(2, time.month());
    assert_eq!(29, time.day());
    assert_eq!(18, time.hour());
    assert_eq!(27, time.minute());
    assert_eq!(59, time.second());
    assert_eq!(1, time.millis());
    assert_eq!(1000000, time.nanoseconds());
    assert_eq!(125963224790010000, time.filetime());
    assert_eq!("29-02-2000 18:27:59.001", time.to_string());
    assert_eq!(100, Filetime::new(126187000790000001).nanoseconds());
    assert_eq!("01-01-1601 00:00:00", Filetime::new(0).to_string());
    assert_eq!("01-01-1605 00:00:00", Filetime::new(1262304000000000).to_string());
    assert_eq!("14-11-1999 18:27:59", Filetime::new(125870776790000000).to_string());
    assert_eq!("14-11-2000 18:27:59.001", Filetime::new(126187000790010000).to_string());
    // A fraction below a millisecond is written as no milliseconds.
    assert_eq!("01-01-1601 00:00:00.000", Filetime::new(1).to_string());
}

#[test]
fn filetime_of_the_largest_timestamp_is_in_range() {
    let time = Filetime::new(u64::MAX);
    assert_eq!(u64::MAX, time.filetime());
    assert!(time.month() >= 1 && time.month() <= 12);
    assert!(time.day() >= 1 && time.day() <= 31);
    assert!(time.hour() < 24 && time.minute() < 60 && time.second() < 60);
    assert_eq!(WinFiletime(u64::MAX).year() as u16, time.year());
}

#[test]
fn unix_timestamp_of_a_filetime_before_1970_is_zero() {
    assert_eq!(0, filetime_to_unix_timestamp(0));
    assert_eq!(0, filetime_to_unix_timestamp(116444736000000000));
    // The conversion rounds up to the next millisecond.
    assert_eq!(1, filetime_to_unix_timestamp(116444736000000001));
    assert_eq!(1, filetime_to_unix_timestamp(116444736000010000));
    assert_eq!(2, filetime_to_unix_timestamp(116444736000010001));
}

#[test]
fn duration_since_tells_which_is_earlier() {
    let time = Filetime::new(1_000);
    assert_eq!(time.duration_since(40_000), Ok(60_000));
    assert_eq!(time.duration_since(100_000), Ok(0));
    assert_eq!(time.duration_since(100_001), Err(1));
}

#[test]
fn new_win_filetime_is_the_start_of_1601() {
    let time = WinFiletime::new();
    assert_eq!(0, time.0);
    assert_eq!(1601, time.year());
    assert_eq!(1, time.month());
    assert_eq!(1, time.day());
    assert_eq!(0, time.hour());
}

#[test]
fn dates_are_counted_in_years_of_365_days_with_the_leap_day_on_passing() {
    assert_eq!("30-12-2000 23:59:59", WinFiletime(126227807990000000).to_string());
    assert_eq!("01-01-2001 00:00:00", WinFiletime(126227808000000000).to_string());
    assert_eq!("30-12-2023 12:00:00", WinFiletime(133484976000000000).to_string());
    assert_eq!("30-12-2024 00:00:00", WinFiletime(133800768000000000).to_string());
    assert_eq!("30-12-1999 23:59:59", WinFiletime(125911583990000000).to_string());
    assert_eq!("29-02-2024 01:02:03", WinFiletime(133536421230000000).to_string());
    assert_eq!("01-03-2024 00:00:00", WinFiletime(133537248000000000).to_string());
    assert_eq!("30-12-1604 00:00:00", WinFiletime(1261440000000000).to_string());
    assert_eq!("01-03-2100 00:00:00", WinFiletime(157520160000000000).to_string());
    assert_eq!("30-12-1601 23:59:59", WinFiletime(315359990000000).to_string());
    assert_eq!("26-07-24680 20:20:11.914", WinFiletime(7283207964119141687).to_string());
    assert_eq!("09-08-4423 10:40:43.818", WinFiletime(890727360438182992).to_string());
    assert_eq!("31-05-7103 21:50:36.500", WinFiletime(1736392818365009963).to_string());
    assert_eq!("09-04-14151 17:12:33.212", WinFiletime(3960482443532127989).to_string());
    assert_eq!("30-01-6625 17:26:33.784", WinFiletime(1585446675937841368).to_string());
    assert_eq!("04-06-26045 02:05:31.468", WinFiletime(7713914763314685786).to_string());
    assert_eq!("19-01-15669 21:33:56.675", WinFiletime(4439448776366754703).to_string());
    assert_eq!("30-04-5056 19:47:17.745", WinFiletime(1090396360377453094).to_string());
    assert_eq!("04-03-5217 08:45:30.062", WinFiletime(1141153371300629929).to_string());
    assert_eq!("06-10-4499 13:47:47.942", WinFiletime(914761360679426580).to_string());
    assert_eq!("06-06-14524 01:11:58.246", WinFiletime(4078239883182463692).to_string());
    assert_eq!("15-10-9385 09:19:27.960", WinFiletime(2456641775679608523).to_string());
    assert_eq!("28-05-60056 05:36:10.955", WinFiletime(18446744073709551615).to_string());
}

#[test]
fn unix_dates_are_counted_in_the_same_way() {
    assert_eq!("01-01-1970 00:00:00", UnixTimestamp(0).to_string());
    assert_eq!("01-01-1970 23:59:59.999", UnixTimestamp(86399999).to_string());
    assert_eq!("02-01-1970 00:00:00", UnixTimestamp(86400000).to_string());
    assert_eq!("30-12-2000 23:59:59.999", UnixTimestamp(978307199999).to_string());
    assert_eq!("01-01-2001 00:00:00", UnixTimestamp(978307200000).to_string());
    assert_eq!("30-12-2024 00:00:00", UnixTimestamp(1735603200000).to_string());
    assert_eq!("01-03-2100 00:00:00", UnixTimestamp(4107542400000).to_string());
    assert_eq!("03-11-2004 19:53:47.776", UnixTimestamp(1099511627776).to_string());
    assert_eq!("06-05-37648 22:07:22.747", UnixTimestamp(1125899906842747).to_string());
}
