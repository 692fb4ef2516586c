use chrono::Datelike;

use avatar_service::stats::{
    compute_stats, current_local_date, date_in_form, file_entry_from_scan, format_date,
    is_image_file, Date, FileEntry,
};

fn entry(name: &str, created: Option<Date>) -> FileEntry {
    FileEntry {
        name: String::from(name),
        created,
    }
}

#[test]
fn zero_images_give_zero_stats() {
    let today = Date {
        year: 2026,
        month: 10,
        day: 11,
    };
    let s = compute_stats(&Vec::new(), today);
    assert_eq!(s.total_images, 0);
    assert_eq!(s.today_new_images, 0);
    assert_eq!(s.current_date, "2026-10-11");
}

#[test]
fn format_date_zero_pads_every_field() {
    let d = Date {
        year: 7,
        month: 3,
        day: 4,
    };
    assert_eq!(format_date(d), "0007-03-04");
    let d2 = Date {
        year: 1999,
        month: 12,
        day: 31,
    };
    assert_eq!(format_date(d2), "1999-12-31");
}

#[test]
fn image_extensions_are_recognized_case_insensitively() {
    assert!(is_image_file("a.png"));
    assert!(is_image_file("a.PNG"));
    assert!(is_image_file("photo.JpEg"));
    assert!(is_image_file("x.gif"));
    assert!(is_image_file("x.webp"));
    assert!(is_image_file("x.bmp"));
    assert!(is_image_file("x.jpg"));
    assert!(!is_image_file("x.txt"));
    assert!(!is_image_file("noext"));
    assert!(!is_image_file(".png"));
    assert!(!is_image_file("x.pngx"));
}

#[test]
fn counting_splits_total_and_today() {
    // A file created today counts as "new today" only against today's
    // date. Files without a readable creation time count toward the
    // total alone, and non-images toward neither.
    let today = Date {
        year: 2026,
        month: 10,
        day: 11,
    };
    let entries = vec![
        entry("a.png", Some(today)),
        entry("b.txt", Some(today)),
        entry("c.jpg", None),
    ];
    let s = compute_stats(&entries, today);
    assert_eq!(s.total_images, 2);
    assert_eq!(s.today_new_images, 1);
    assert_eq!(s.current_date, "2026-10-11");

    let other_day = Date {
        year: 2027,
        month: 1,
        day: 2,
    };
    let s2 = compute_stats(&entries, other_day);
    assert_eq!(s2.total_images, 2);
    assert_eq!(s2.today_new_images, 0);
}

#[test]
fn scanned_entry_dates_agree_with_chrono() {
    // The date a scanned entry carries must be chrono's local civil date
    // of the same timestamp, so an entry created at a known moment
    // counts against that moment's local date and against no other.
    let secs: i64 = 1_700_000_000;
    let nd = chrono::DateTime::from_timestamp(secs, 0)
        .unwrap()
        .with_timezone(&chrono::Local)
        .date_naive();
    let that_day = Date {
        year: nd.year(),
        month: nd.month(),
        day: nd.day(),
    };
    let entries = vec![
        file_entry_from_scan(String::from("a.png"), Some((secs, 0))),
        file_entry_from_scan(String::from("b.png"), Some((secs + 200 * 86_400, 0))),
        file_entry_from_scan(String::from("c.png"), None),
    ];
    assert_eq!(entries[0].created, Some(that_day));
    let s = compute_stats(&entries, that_day);
    assert_eq!(s.total_images, 3);
    assert_eq!(s.today_new_images, 1);
}

#[test]
fn out_of_range_creation_times_are_dropped() {
    // Timestamps before 1970 or at or past the year 10000, and
    // nanosecond counts of a second or more, yield an entry without a
    // creation date; in-range ones always yield a date.
    let e1 = file_entry_from_scan(String::from("a.png"), Some((-1, 0)));
    assert_eq!(e1.created, None);
    let e2 = file_entry_from_scan(String::from("b.png"), Some((253_402_300_800, 0)));
    assert_eq!(e2.created, None);
    let e3 = file_entry_from_scan(String::from("c.png"), Some((0, 1_000_000_000)));
    assert_eq!(e3.created, None);
    let e4 = file_entry_from_scan(String::from("d.png"), Some((253_402_300_799, 999_999_999)));
    assert!(e4.created.is_some());
    let e5 = file_entry_from_scan(String::from("e.png"), Some((0, 0)));
    assert!(e5.created.is_some());
}

#[test]
fn date_in_form_keeps_only_four_digit_years() {
    let good = Date {
        year: 2026,
        month: 10,
        day: 11,
    };
    assert_eq!(date_in_form(good), Some(good));
    let year_zero = Date {
        year: 0,
        month: 1,
        day: 1,
    };
    assert_eq!(date_in_form(year_zero), Some(year_zero));
    let too_large = Date {
        year: 10_000,
        month: 1,
        day: 1,
    };
    assert_eq!(date_in_form(too_large), None);
    let negative = Date {
        year: -1,
        month: 1,
        day: 1,
    };
    assert_eq!(date_in_form(negative), None);
}

#[test]
fn current_local_date_matches_the_clock() {
    let before = chrono::Local::now().date_naive();
    let d = current_local_date().unwrap();
    let after = chrono::Local::now().date_naive();
    assert!(1 <= d.month && d.month <= 12);
    assert!(1 <= d.day && d.day <= 31);
    let matches_day = |nd: chrono::NaiveDate| {
        nd.year() == d.year && nd.month() == d.month && nd.day() == d.day
    };
    assert!(matches_day(before) || matches_day(after));
}
