use chrono::{FixedOffset, TimeZone};
use yaulta::clock::LocalTime;

fn both(year: i32, month: u32, day: u32, hour: u32, minute: u32, second: u32, offset: i32) -> (LocalTime, chrono::DateTime<FixedOffset>) {
    let ours = LocalTime { year, month, day, hour, minute, second, offset };
    let theirs = FixedOffset::east_opt(offset)
        .unwrap()
        .with_ymd_and_hms(year, month, day, hour, minute, second)
        .unwrap();
    (ours, theirs)
}

fn moments() -> Vec<(LocalTime, chrono::DateTime<FixedOffset>)> {
    let mut all = Vec::new();
    let offsets = [0, 1, 29, 30, 59, 60, 3600, 7200, 19800, 20700, 45900, 50400, 86399, -1, -29, -30, -31, -3600, -12600, -43200, -86399];
    for offset in offsets {
        all.push(both(2024, 5, 6, 7, 8, 9, offset));
    }
    for year in [-262000, -10000, -9999, -1000, -44, -1, 0, 1, 9, 10, 99, 100, 999, 1000, 1970, 9999, 10000, 12345, 262000] {
        all.push(both(year, 1, 1, 0, 0, 0, 3600));
        all.push(both(year, 12, 31, 23, 59, 59, -18000));
    }
    all.push(both(2024, 2, 29, 12, 0, 0, 0));
    all.push(both(2023, 10, 9, 9, 9, 9, 34200));
    all
}

#[test]
fn timestamp_is_the_clock_library_s_format() {
    for (ours, theirs) in moments() {
        assert_eq!(ours.timestamp(), theirs.format("%Y/%m/%d %H:%M:%S %:z").to_string());
    }
}

#[test]
fn file_stamp_is_the_clock_library_s_format() {
    for (ours, theirs) in moments() {
        assert_eq!(ours.file_stamp(), theirs.format("%Y%m%d_%H%M%S").to_string());
    }
}
