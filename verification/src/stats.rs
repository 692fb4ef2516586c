use vstd::prelude::*;

use crate::strutil::{rfind_char, spec_rfind, spec_lower_seq, str_eq_lower};

verus! {

/// A civil calendar date.
#[derive(Clone, Copy, PartialEq, Eq, Structural, Debug)]
pub struct Date {
    pub year: i32,
    pub month: u32,
    pub day: u32,
}

/// A date the aggregator can work with: month and day in calendar range,
/// and a year that `YYYY-MM-DD` can carry in four digits.
pub open spec fn spec_date_wf(d: Date) -> bool {
    &&& 0 <= d.year <= 9999
    &&& 1 <= d.month <= 12
    &&& 1 <= d.day <= 31
}

/// One direct entry of the storage root, reduced to plain values: its
/// file name and, where the filesystem offered a creation time within
/// calendar range, the local civil date of that creation time.
pub struct FileEntry {
    pub name: String,
    pub created: Option<Date>,
}

/// The aggregate the stats page renders.
pub struct StatsData {
    pub total_images: usize,
    pub today_new_images: usize,
    pub current_date: String,
}

/// True when a file name carries a recognized image extension
/// (case-insensitive): jpg, jpeg, png, gif, webp, bmp.
pub open spec fn spec_is_image(name: Seq<char>) -> bool {
    let d = spec_rfind(name, '.');
    d > 0 && {
        let l = spec_lower_seq(name.subrange(d + 1, name.len() as int));
        ||| l == "jpg"@
        ||| l == "jpeg"@
        ||| l == "png"@
        ||| l == "gif"@
        ||| l == "webp"@
        ||| l == "bmp"@
    }
}

/// Decides whether a file name names an image, by its extension.
pub fn is_image_file(name: &str) -> (r: bool)
    ensures
        r == spec_is_image(name@),
{
    match rfind_char(name, '.') {
        Some(d) if d > 0 => {
            let len = name.unicode_len();
            let ext = name.substring_char(d + 1, len);
            str_eq_lower(ext, "jpg") || str_eq_lower(ext, "jpeg") || str_eq_lower(ext, "png")
                || str_eq_lower(ext, "gif") || str_eq_lower(ext, "webp") || str_eq_lower(
                ext,
                "bmp",
            )
        },
        _ => false,
    }
}

/// A creation timestamp the aggregator accepts: seconds in the years
/// 1970 through 9999, and nanoseconds below one second. The second
/// bound is the moment 10000-01-01T00:00:00 UTC; within these bounds
/// chrono's conversion to a local date stays in range on every machine
/// offset and always yields a date.
pub open spec fn spec_timestamp_in_range(secs: i64, nanos: u32) -> bool {
    &&& 0 <= secs < 253_402_300_800
    &&& nanos < 1_000_000_000
}

/// Relies on chrono::DateTime::from_timestamp, DateTime::with_timezone
/// with chrono::Local, and NaiveDate's year/month/day accessors: the
/// local civil date of a moment given as seconds and nanoseconds since
/// the epoch. Within the required bounds chrono's conversion cannot
/// leave its calendar range, so a date always comes back, with month in
/// 1..=12 and day in 1..=31 as chrono documents. The machine's time
/// zone decides which date, so no more is promised.
#[verifier::external_body]
fn local_date_of(secs: i64, nanos: u32) -> (r: Option<Date>)
    requires
        spec_timestamp_in_range(secs, nanos),
    ensures
        r is Some,
        r matches Some(d) ==> 1 <= d.month <= 12 && 1 <= d.day <= 31,
{
    match chrono::DateTime::from_timestamp(secs, nanos) {
        Some(dt) => {
            let nd = dt.with_timezone(&chrono::Local).date_naive();
            Some(Date { year: chrono::Datelike::year(&nd), month: chrono::Datelike::month(&nd), day: chrono::Datelike::day(&nd) })
        },
        None => None,
    }
}

/// Builds the stats entry for one scanned file: the name as given and,
/// for a creation time within the accepted range, the local civil date
/// of that time — a date comes back exactly for in-range times. The
/// time zone decides which date, so only its calendar ranges are
/// promised; the counting itself is exact for every value handed on.
pub fn file_entry_from_scan(name: String, created: Option<(i64, u32)>) -> (e: FileEntry)
    ensures
        e.name@ == name@,
        match created {
            Some((secs, nanos)) => (e.created is Some) <==> spec_timestamp_in_range(secs, nanos),
            None => e.created is None,
        },
        e.created matches Some(d) ==> 1 <= d.month <= 12 && 1 <= d.day <= 31,
{
    let created_date = match created {
        Some((secs, nanos)) => {
            if 0 <= secs && secs < 253_402_300_800 && nanos < 1_000_000_000 {
                local_date_of(secs, nanos)
            } else {
                None
            }
        },
        None => None,
    };
    FileEntry { name, created: created_date }
}

/// Relies on chrono::Local::now and NaiveDate's year/month/day
/// accessors: the local calendar date right now. The clock and the local
/// time zone decide the value, so only calendar ranges are promised:
/// chrono documents month in 1..=12 and day in 1..=31.
#[verifier::external_body]
fn today_local() -> (d: Date)
    ensures
        1 <= d.month <= 12,
        1 <= d.day <= 31,
{
    let nd = chrono::Local::now().date_naive();
    Date { year: chrono::Datelike::year(&nd), month: chrono::Datelike::month(&nd), day: chrono::Datelike::day(&nd) }
}

/// Keeps a date exactly when its year fits the four-digit `YYYY-MM-DD`
/// form, and drops it otherwise.
pub fn date_in_form(d: Date) -> (r: Option<Date>)
    ensures
        0 <= d.year <= 9999 ==> r == Some(d),
        !(0 <= d.year <= 9999) ==> r is None,
{
    if 0 <= d.year && d.year <= 9999 {
        Some(d)
    } else {
        None
    }
}

/// The local calendar date right now, when its year fits the four-digit
/// `YYYY-MM-DD` form; `None` on a clock outside that range. The clock
/// decides the date; `date_in_form` states when it is kept.
pub fn current_local_date() -> (r: Option<Date>)
    ensures
        match r {
            Some(d) => spec_date_wf(d),
            None => true,
        },
{
    let d = today_local();
    date_in_form(d)
}

/// Whether one entry counts toward `today_new_images`: a recognized
/// image whose creation date is `today`, the local calendar date.
/// Entries without a readable creation time never count.
pub open spec fn spec_counts_today(e: FileEntry, today: Date) -> bool {
    spec_is_image(e.name@) && e.created == Some(today)
}

/// How many entries carry a recognized image extension.
pub open spec fn spec_total_images(es: Seq<FileEntry>) -> nat
    decreases es.len(),
{
    if es.len() == 0 {
        0
    } else {
        spec_total_images(es.drop_last()) + if spec_is_image(es.last().name@) {
            1nat
        } else {
            0nat
        }
    }
}

/// How many entries are images created on `today`.
pub open spec fn spec_today_new_images(es: Seq<FileEntry>, today: Date) -> nat
    decreases es.len(),
{
    if es.len() == 0 {
        0
    } else {
        spec_today_new_images(es.drop_last(), today) + if spec_counts_today(es.last(), today) {
            1nat
        } else {
            0nat
        }
    }
}

proof fn lemma_counts_le_len(es: Seq<FileEntry>, today: Date)
    ensures
        spec_total_images(es) <= es.len(),
        spec_today_new_images(es, today) <= es.len(),
    decreases es.len(),
{
    if es.len() > 0 {
        lemma_counts_le_len(es.drop_last(), today);
    }
}

/// The decimal digit character for `n`.
pub open spec fn spec_digit(n: int) -> char {
    ((48 + n) as u8) as char
}

/// The `YYYY-MM-DD` rendering of a well-formed date.
pub open spec fn spec_format_date(d: Date) -> Seq<char> {
    let y = d.year as int;
    let m = d.month as int;
    let dd = d.day as int;
    seq![
        spec_digit(y / 1000),
        spec_digit((y / 100) % 10),
        spec_digit((y / 10) % 10),
        spec_digit(y % 10),
        '-',
        spec_digit(m / 10),
        spec_digit(m % 10),
        '-',
        spec_digit(dd / 10),
        spec_digit(dd % 10),
    ]
}

/// Relies on String::push from std: appends one character at the end.
pub assume_specification [ String::push ](s: &mut String, ch: char)
    ensures
        final(s)@ == old(s)@.push(ch),
;

fn digit_char(n: u32) -> (c: char)
    requires
        n < 10,
    ensures
        c == spec_digit(n as int),
{
    ((48 + n) as u8) as char
}

/// Renders a well-formed date as `YYYY-MM-DD`, zero-padded.
pub fn format_date(d: Date) -> (s: String)
    requires
        spec_date_wf(d),
    ensures
        s@ == spec_format_date(d),
{
    let y = d.year as u32;
    let m = d.month;
    let dd = d.day;
    let mut s = String::new();
    s.push(digit_char(y / 1000));
    s.push(digit_char((y / 100) % 10));
    s.push(digit_char((y / 10) % 10));
    s.push(digit_char(y % 10));
    s.push('-');
    s.push(digit_char(m / 10));
    s.push(digit_char(m % 10));
    s.push('-');
    s.push(digit_char(dd / 10));
    s.push(digit_char(dd % 10));
    proof {
        assert(s@ =~= spec_format_date(d));
    }
    s
}

/// Computes the stats snapshot over the direct entries of the storage
/// root: how many entries are images, how many of those were created on
/// `today`, the local calendar date (entries without a readable creation
/// time are counted only in the total), and `today` rendered as
/// `YYYY-MM-DD` — all three from the same date, so the snapshot is
/// consistent.
pub fn compute_stats(entries: &Vec<FileEntry>, today: Date) -> (s: StatsData)
    requires
        spec_date_wf(today),
    ensures
        s.total_images == spec_total_images(entries@),
        s.today_new_images == spec_today_new_images(entries@, today),
        s.current_date@ == spec_format_date(today),
{
    let mut total: usize = 0;
    let mut today_new: usize = 0;
    let n = entries.len();
    let mut i: usize = 0;
    while i < n
        invariant
            i <= n,
            n == entries@.len(),
            total == spec_total_images(entries@.take(i as int)),
            today_new == spec_today_new_images(entries@.take(i as int), today),
        decreases n - i,
    {
        proof {
            lemma_counts_le_len(entries@.take(i as int), today);
            assert(entries@.take(i + 1).drop_last() =~= entries@.take(i as int));
            assert(entries@.take(i + 1).last() == entries@[i as int]);
        }
        let e = &entries[i];
        if is_image_file(e.name.as_str()) {
            total = total + 1;
            match e.created {
                Some(cd) => {
                    if cd == today {
                        today_new = today_new + 1;
                    }
                },
                None => {},
            }
        }
        i = i + 1;
    }
    proof {
        assert(entries@.take(n as int) =~= entries@);
    }
    StatsData { total_images: total, today_new_images: today_new, current_date: format_date(today) }
}

} // verus!
