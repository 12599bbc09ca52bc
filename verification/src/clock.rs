use vstd::prelude::*;

verus! {

/// One reading of the local wall clock, split into plain calendar parts.
pub struct LocalTime {
    pub year: i32,
    pub month: u32,
    pub day: u32,
    pub hour: u32,
    pub minute: u32,
    pub second: u32,
}

/// The calendar ranges the clock's accessors keep.
pub open spec fn time_parts_valid(t: LocalTime) -> bool {
    &&& 1 <= t.month <= 12
    &&& 1 <= t.day <= 31
    &&& t.hour <= 23
    &&& t.minute <= 59
    &&& t.second <= 59
}

/// Relies on chrono::Local::now for the current local time, read out through
/// chrono's Datelike and Timelike accessors (year, month, day, hour, minute,
/// second).  The clock decides the values; only the ranges those accessors
/// document are assumed: month 1..=12, day 1..=31, hour 0..=23, minute and
/// second 0..=59.
#[verifier::external_body]
pub(crate) fn local_time_now() -> (t: LocalTime)
    ensures
        time_parts_valid(t),
{
    let now = chrono::Local::now();
    LocalTime {
        year: chrono::Datelike::year(&now),
        month: chrono::Datelike::month(&now),
        day: chrono::Datelike::day(&now),
        hour: chrono::Timelike::hour(&now),
        minute: chrono::Timelike::minute(&now),
        second: chrono::Timelike::second(&now),
    }
}

/// A value below 100 as its two zero-padded ASCII digits.
pub open spec fn two_digits(v: int) -> Seq<u8> {
    seq![(48 + v / 10) as u8, (48 + v % 10) as u8]
}

/// A value below 10000 as its four zero-padded ASCII digits.
pub open spec fn four_digits(v: int) -> Seq<u8> {
    two_digits(v / 100) + two_digits(v % 100)
}

/// The file name for a recording begun at the given local time:
/// `test_YYYYMMDD_HHMMSS.wav`, every field zero-padded.
pub open spec fn file_name_spec(t: LocalTime) -> Seq<u8> {
    seq![0x74u8, 0x65u8, 0x73u8, 0x74u8, 0x5fu8] + four_digits(t.year as int) + two_digits(
        t.month as int,
    ) + two_digits(t.day as int) + seq![0x5fu8] + two_digits(t.hour as int) + two_digits(
        t.minute as int,
    ) + two_digits(t.second as int) + seq![0x2eu8, 0x77u8, 0x61u8, 0x76u8]
}

fn push_two_digits(out: &mut Vec<u8>, v: u32)
    requires
        v <= 99,
    ensures
        final(out)@ == old(out)@ + two_digits(v as int),
{
    out.push(48 + (v / 10) as u8);
    out.push(48 + (v % 10) as u8);
    proof {
        assert(out@ =~= old(out)@ + two_digits(v as int));
    }
}

/// The sortable, second-granular file name for a recording begun at `t`.
pub fn file_name_for(t: &LocalTime) -> (r: Vec<u8>)
    requires
        time_parts_valid(*t),
        1000 <= t.year <= 9999,
    ensures
        r@ == file_name_spec(*t),
{
    let mut out: Vec<u8> = Vec::new();
    out.push(0x74);
    out.push(0x65);
    out.push(0x73);
    out.push(0x74);
    out.push(0x5f);
    let y: u32 = t.year as u32;
    push_two_digits(&mut out, y / 100);
    push_two_digits(&mut out, y % 100);
    push_two_digits(&mut out, t.month);
    push_two_digits(&mut out, t.day);
    out.push(0x5f);
    push_two_digits(&mut out, t.hour);
    push_two_digits(&mut out, t.minute);
    push_two_digits(&mut out, t.second);
    out.push(0x2e);
    out.push(0x77);
    out.push(0x61);
    out.push(0x76);
    proof {
        assert(out@ =~= file_name_spec(*t));
    }
    out
}

/// A timestamped recording name read from the wall clock.  Collisions are
/// possible only for two recordings begun within the same second.  A clock
/// year outside four digits is pinned to the nearest four-digit year.
pub fn timestamped_file_name() -> (r: Vec<u8>)
    ensures
        exists|t: LocalTime|
            time_parts_valid(t) && 1000 <= t.year <= 9999 && r@ == file_name_spec(t),
{
    let mut t = local_time_now();
    if t.year < 1000 {
        t.year = 1000;
    }
    if t.year > 9999 {
        t.year = 9999;
    }
    let r = file_name_for(&t);
    proof {
        assert(time_parts_valid(t) && 1000 <= t.year <= 9999 && r@ == file_name_spec(t));
    }
    r
}

} // verus!
