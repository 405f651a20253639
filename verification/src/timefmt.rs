use vstd::prelude::*;

use chrono::{DateTime, Datelike, FixedOffset, Local, Utc};

use crate::text::{PieceView, TextPiece};

verus! {

/// Bound on the whole seconds of any instant the date library represents
/// (its day count is an `i32`).
pub const INSTANT_BOUND: i64 = 200_000_000_000_000;

/// An RFC 3339 timestamp as `chrono::DateTime::parse_from_rfc3339` reads it:
/// its year in its own offset (`Datelike::year`), its Unix time in whole
/// seconds (`timestamp`) and the nanoseconds past that second
/// (`timestamp_subsec_nanos`); `None` when chrono rejects the text.
pub uninterp spec fn rfc3339_parse(s: Seq<char>) -> Option<(i32, i64, u32)>;

/// An RFC 3339 timestamp written with a `strftime` pattern at a UTC offset of
/// `offset` seconds, as chrono writes it (`parse_from_rfc3339`,
/// `with_timezone` to a `FixedOffset`, `format`); `None` when the text does
/// not parse.
pub uninterp spec fn rfc3339_text_at(s: Seq<char>, offset: i32, pattern: Seq<char>) -> Option<Seq<char>>;

/// The pattern the start time is written with.
pub open spec fn local_time_pattern() -> Seq<char> {
    "%Y-%m-%d %H:%M:%S"@
}

/// The characters of an optional string.
pub open spec fn opt_text_view(s: Option<String>) -> Option<Seq<char>> {
    match s {
        Some(t) => Some(t@),
        None => None,
    }
}

/// Parses an RFC 3339 timestamp with `chrono::DateTime::parse_from_rfc3339`
/// and returns its year, Unix seconds and sub-second nanoseconds, named
/// [`rfc3339_parse`].
#[verifier::external_body]
fn parse_rfc3339(s: &str) -> (r: Option<(i32, i64, u32)>)
    ensures
        r == rfc3339_parse(s@),
{
    match DateTime::parse_from_rfc3339(s) {
        Ok(ts) => Some((ts.year(), ts.timestamp(), ts.timestamp_subsec_nanos())),
        Err(_) => None,
    }
}

/// The offset from UTC, in seconds, of the machine's local time zone at the
/// instant of an RFC 3339 timestamp (`parse_from_rfc3339`, then
/// `with_timezone(&Local)` and `offset().local_minus_utc()`). Nothing names
/// it: it depends on the machine's time zone. It comes back exactly when the
/// text parses, and a `FixedOffset` is always less than a day.
#[verifier::external_body]
fn rfc3339_local_offset(s: &str) -> (r: Option<i32>)
    ensures
        r is Some <==> rfc3339_parse(s@) is Some,
        r matches Some(o) ==> -86_400 < o < 86_400,
{
    match DateTime::parse_from_rfc3339(s) {
        Ok(ts) => Some(ts.with_timezone(&Local).offset().local_minus_utc()),
        Err(_) => None,
    }
}

/// Writes an RFC 3339 timestamp with a `strftime` pattern at a UTC offset of
/// `offset` seconds (`parse_from_rfc3339`, `FixedOffset::east_opt`,
/// `with_timezone`, `format`, `to_string`), named [`rfc3339_text_at`]; it
/// comes back exactly when the text parses. `east_opt` accepts exactly the
/// offsets of less than a day. Only the library's own pattern is admitted:
/// a pattern with an invalid specifier makes `to_string` panic.
#[verifier::external_body]
fn format_rfc3339_at(s: &str, offset: i32, pattern: &str) -> (r: Option<String>)
    requires
        -86_400 < offset < 86_400,
        pattern@ == local_time_pattern(),
    ensures
        opt_text_view(r) == rfc3339_text_at(s@, offset, pattern@),
        r is Some <==> rfc3339_parse(s@) is Some,
{
    match DateTime::parse_from_rfc3339(s) {
        Ok(ts) => Some(ts.with_timezone(&FixedOffset::east_opt(offset).unwrap()).format(pattern).to_string()),
        Err(_) => None,
    }
}

/// The whole seconds from instant `then` to instant `now`, each given as Unix
/// seconds and nanoseconds, as chrono's `signed_duration_since` followed by
/// `num_seconds` computes them: the difference of the seconds, one more or
/// less when a leap second of one side lies between the times of day, plus
/// the carry of the nanoseconds; a negative duration is rounded towards zero.
pub open spec fn seconds_between(now_secs: i64, now_nanos: u32, then_secs: i64, then_nanos: u32) -> int {
    let sod_now = now_secs as int % 86_400;
    let sod_then = then_secs as int % 86_400;
    let leap: int = if sod_now > sod_then && then_nanos >= 1_000_000_000 {
        1
    } else if sod_now < sod_then && now_nanos >= 1_000_000_000 {
        -1
    } else {
        0
    };
    let frac = now_nanos as int - then_nanos as int;
    let secs = now_secs as int - then_secs as int + leap + frac / 1_000_000_000;
    let nanos = frac % 1_000_000_000;
    if secs < 0 && nanos > 0 { secs + 1 } else { secs }
}

/// A reading of the clock as chrono's `Utc::now` gives it: it panics for a
/// clock before 1970, and it builds the instant with `from_timestamp`, whose
/// `i32` day count keeps the seconds below [`INSTANT_BOUND`]; the
/// nanoseconds are those of a `Duration`, below one billion.
pub open spec fn valid_now(now: (i64, u32)) -> bool {
    0 <= now.0 < INSTANT_BOUND && now.1 < 1_000_000_000
}

/// The whole seconds from the instant of an RFC 3339 timestamp to now:
/// `parse_from_rfc3339`, then `Utc::now().signed_duration_since(..)` and
/// `TimeDelta::num_seconds`. It comes back exactly when the text parses.
/// Nothing names it, as it depends on the clock; chrono's code gives that it
/// is [`seconds_between`] some reading of the clock and the parsed instant.
#[verifier::external_body]
fn seconds_since_now(s: &str) -> (r: Option<i64>)
    ensures
        r is Some <==> rfc3339_parse(s@) is Some,
        r matches Some(e) ==> rfc3339_parse(s@) matches Some((_, secs, nanos)) && exists|now: (i64, u32)|
            valid_now(now) && e == seconds_between(now.0, now.1, secs, nanos),
{
    match DateTime::parse_from_rfc3339(s) {
        Ok(ts) => Some(Utc::now().signed_duration_since(ts).num_seconds()),
        Err(_) => None,
    }
}

/// How long ago something happened, `elapsed` seconds back: "just now" up to
/// one second (or in the future), otherwise the seconds followed by " ago".
pub open spec fn age_pieces(elapsed: int) -> Seq<PieceView> {
    let secs: int = if elapsed < 0 { 0 } else { elapsed };
    if secs <= 1 {
        seq![PieceView::Str("just now"@)]
    } else {
        seq![PieceView::Secs(secs as u64), PieceView::Str(" ago"@)]
    }
}

/// The age shown for a timestamp text whose instant lies `elapsed` seconds
/// back: the text itself when it does not parse, "—" for the Go zero-value
/// timestamp (a year before 2000), otherwise [`age_pieces`].
pub open spec fn age_shown(timestamp: Seq<char>, parsed: Option<(i32, i64, u32)>, elapsed: int) -> Seq<PieceView> {
    match parsed {
        None => seq![PieceView::Str(timestamp)],
        Some((y, _, _)) => if y < 2000 {
            seq![PieceView::Str("—"@)]
        } else {
            age_pieces(elapsed)
        },
    }
}

/// The start time shown for a timestamp text, given its date and time as
/// written in local time and the `elapsed` seconds since its instant: the
/// text itself when it does not parse, "Not started" for the Go zero-value
/// timestamp, otherwise the local date and time followed by the age in
/// parentheses.
pub open spec fn start_shown(
    timestamp: Seq<char>,
    parsed: Option<(i32, i64, u32)>,
    local: Option<Seq<char>>,
    elapsed: int,
) -> Seq<PieceView> {
    match parsed {
        None => seq![PieceView::Str(timestamp)],
        Some((y, _, _)) => if y < 2000 {
            seq![PieceView::Str("Not started"@)]
        } else {
            let local_text = match local {
                Some(t) => t,
                None => Seq::empty(),
            };
            seq![PieceView::Str(local_text), PieceView::Str(" ("@)] + age_pieces(elapsed) + seq![
                PieceView::Str(")"@),
            ]
        },
    }
}

/// The whole seconds from a parsed instant to the clock reading `now`; 0
/// when there is no instant.
pub open spec fn elapsed_since(parsed: Option<(i32, i64, u32)>, now: (i64, u32)) -> int {
    match parsed {
        Some((_, secs, nanos)) => seconds_between(now.0, now.1, secs, nanos),
        None => 0,
    }
}

/// The age shown for a timestamp text at clock reading `now`.
pub open spec fn age_display(timestamp: Seq<char>, parsed: Option<(i32, i64, u32)>, now: (i64, u32)) -> Seq<PieceView> {
    age_shown(timestamp, parsed, elapsed_since(parsed, now))
}

/// The start time shown for a timestamp text, given its date and time as
/// written in local time, at clock reading `now`.
pub open spec fn start_display(
    timestamp: Seq<char>,
    parsed: Option<(i32, i64, u32)>,
    local: Option<Seq<char>>,
    now: (i64, u32),
) -> Seq<PieceView> {
    start_shown(timestamp, parsed, local, elapsed_since(parsed, now))
}

/// A test duration given in nanoseconds: "—" below one second, otherwise the
/// whole seconds.
pub open spec fn duration_display(nanos: u64) -> Seq<PieceView> {
    if nanos / 1_000_000_000 == 0 {
        seq![PieceView::Str("—"@)]
    } else {
        seq![PieceView::Secs(nanos / 1_000_000_000)]
    }
}

/// The view of a sequence of text pieces.
pub open spec fn pieces_view(v: Seq<TextPiece>) -> Seq<PieceView> {
    v.map_values(|p: TextPiece| p@)
}

fn str_piece(s: &str) -> (p: TextPiece)
    ensures
        p@ == PieceView::Str(s@),
{
    TextPiece::Str(String::from_str(s))
}

fn age_vec(elapsed: i64) -> (v: Vec<TextPiece>)
    ensures
        pieces_view(v@) == age_pieces(elapsed as int),
{
    let secs: u64 = if elapsed < 0 { 0 } else { elapsed as u64 };
    let mut v: Vec<TextPiece> = Vec::new();
    if secs <= 1 {
        v.push(str_piece("just now"));
    } else {
        v.push(TextPiece::Secs(secs));
        v.push(str_piece(" ago"));
    }
    assert(pieces_view(v@) =~= age_pieces(elapsed as int));
    v
}

/// The age shown for `timestamp`, given its parse result and the whole
/// seconds `elapsed` since its instant.
pub fn age_text(timestamp: &str, parsed: Option<(i32, i64, u32)>, elapsed: i64) -> (v: Vec<TextPiece>)
    ensures
        pieces_view(v@) == age_shown(timestamp@, parsed, elapsed as int),
{
    match parsed {
        None => {
            let mut v: Vec<TextPiece> = Vec::new();
            v.push(str_piece(timestamp));
            assert(pieces_view(v@) =~= age_shown(timestamp@, parsed, elapsed as int));
            v
        },
        Some((y, _, _)) => if y < 2000 {
            let mut v: Vec<TextPiece> = Vec::new();
            v.push(str_piece("—"));
            assert(pieces_view(v@) =~= age_shown(timestamp@, parsed, elapsed as int));
            v
        } else {
            age_vec(elapsed)
        },
    }
}

/// Viewing a concatenation of pieces is concatenating their views.
proof fn lemma_pieces_view_concat(a: Seq<TextPiece>, b: Seq<TextPiece>)
    ensures
        pieces_view(a + b) == pieces_view(a) + pieces_view(b),
{
    assert(pieces_view(a + b) =~= pieces_view(a) + pieces_view(b));
}

/// The start time shown for `timestamp`, given its parse result, its date and
/// time as written in local time and the whole seconds `elapsed` since its
/// instant.
pub fn start_text(
    timestamp: &str,
    parsed: Option<(i32, i64, u32)>,
    local: Option<&str>,
    elapsed: i64,
) -> (v: Vec<TextPiece>)
    ensures
        pieces_view(v@) == start_shown(
            timestamp@,
            parsed,
            match local {
                Some(t) => Some(t@),
                None => None,
            },
            elapsed as int,
        ),
{
    let ghost lv = match local {
        Some(t) => Some(t@),
        None => None::<Seq<char>>,
    };
    let mut v: Vec<TextPiece> = Vec::new();
    match parsed {
        None => {
            v.push(str_piece(timestamp));
            assert(pieces_view(v@) =~= start_shown(timestamp@, parsed, lv, elapsed as int));
        },
        Some((y, _, _)) => if y < 2000 {
            v.push(str_piece("Not started"));
            assert(pieces_view(v@) =~= start_shown(timestamp@, parsed, lv, elapsed as int));
        } else {
            let local_text = match local {
                Some(t) => String::from_str(t),
                None => String::new(),
            };
            v.push(TextPiece::Str(local_text));
            v.push(str_piece(" ("));
            let mut age = age_vec(elapsed);
            let ghost before = v@;
            let ghost age_seq = age@;
            v.append(&mut age);
            proof {
                lemma_pieces_view_concat(before, age_seq);
            }
            let ghost mid = v@;
            v.push(str_piece(")"));
            assert(pieces_view(v@) =~= pieces_view(mid) + seq![PieceView::Str(")"@)]);
            assert(pieces_view(v@) =~= start_shown(timestamp@, parsed, lv, elapsed as int));
        },
    }
    v
}

/// Parse an RFC-3339 timestamp string and return a "X ago" or "just now" text.
/// Returns "—" for the Go zero-value timestamp. Returns the raw string on
/// parse failure. The age is measured against a reading of the clock, taken
/// only when the timestamp parses and is not the zero value.
pub fn format_age(timestamp: &str) -> (v: Vec<TextPiece>)
    ensures
        exists|now: (i64, u32)|
            valid_now(now) && pieces_view(v@) == age_display(timestamp@, rfc3339_parse(timestamp@), now),
{
    let parsed = parse_rfc3339(timestamp);
    let elapsed: i64 = match parsed {
        Some((y, _, _)) => if y < 2000 {
            0
        } else {
            match seconds_since_now(timestamp) {
                Some(e) => e,
                None => 0,
            }
        },
        None => 0,
    };
    let v = age_text(timestamp, parsed, elapsed);
    proof {
        match parsed {
            Some((y, secs, nanos)) => if y >= 2000 {
                let now = choose|now: (i64, u32)| valid_now(now) && elapsed == seconds_between(now.0, now.1, secs, nanos);
                assert(valid_now(now) && pieces_view(v@) == age_display(timestamp@, parsed, now));
            } else {
                assert(valid_now((0, 0)) && pieces_view(v@) == age_display(timestamp@, parsed, (0, 0)));
            },
            None => {
                assert(valid_now((0, 0)) && pieces_view(v@) == age_display(timestamp@, parsed, (0, 0)));
            },
        }
    }
    v
}

/// Format a test-start timestamp: show date+time and elapsed age side by side.
/// Returns "Not started" for the Go zero-value timestamp, the raw string on
/// parse failure. The date and time are those of the instant in the machine's
/// local time zone, and the age is measured against a reading of the clock.
pub fn format_start_time(timestamp: &str) -> (v: Vec<TextPiece>)
    ensures
        exists|now: (i64, u32), offset: i32|
            valid_now(now) && -86_400 < offset < 86_400 && pieces_view(v@) == start_display(
                timestamp@,
                rfc3339_parse(timestamp@),
                rfc3339_text_at(timestamp@, offset, local_time_pattern()),
                now,
            ),
{
    let parsed = parse_rfc3339(timestamp);
    match parsed {
        Some((y, secs, nanos)) => if y >= 2000 {
            let offset: i32 = match rfc3339_local_offset(timestamp) {
                Some(o) => o,
                None => 0,
            };
            let local = format_rfc3339_at(timestamp, offset, "%Y-%m-%d %H:%M:%S");
            let elapsed: i64 = match seconds_since_now(timestamp) {
                Some(e) => e,
                None => 0,
            };
            let v = match &local {
                Some(t) => start_text(timestamp, parsed, Some(t.as_str()), elapsed),
                None => start_text(timestamp, parsed, None, elapsed),
            };
            proof {
                let now = choose|now: (i64, u32)| valid_now(now) && elapsed == seconds_between(now.0, now.1, secs, nanos);
                assert(valid_now(now) && -86_400 < offset < 86_400 && pieces_view(v@) == start_display(
                    timestamp@,
                    rfc3339_parse(timestamp@),
                    rfc3339_text_at(timestamp@, offset, local_time_pattern()),
                    now,
                ));
            }
            v
        } else {
            let v = start_text(timestamp, parsed, None, 0);
            assert(pieces_view(v@) == start_display(timestamp@, rfc3339_parse(timestamp@), rfc3339_text_at(timestamp@, 0, local_time_pattern()), (0, 0)));
            assert(valid_now((0, 0)));
            v
        },
        None => {
            let v = start_text(timestamp, parsed, None, 0);
            assert(pieces_view(v@) == start_display(timestamp@, rfc3339_parse(timestamp@), rfc3339_text_at(timestamp@, 0, local_time_pattern()), (0, 0)));
            assert(valid_now((0, 0)));
            v
        },
    }
}

/// Format nanoseconds into a human-readable time text.
pub fn format_duration_ns(nanos: u64) -> (v: Vec<TextPiece>)
    ensures
        pieces_view(v@) == duration_display(nanos),
{
    let secs: u64 = nanos / 1_000_000_000;
    let mut v: Vec<TextPiece> = Vec::new();
    if secs == 0 {
        v.push(str_piece("—"));
    } else {
        v.push(TextPiece::Secs(secs));
    }
    assert(pieces_view(v@) =~= duration_display(nanos));
    v
}

} // verus!
