//! Publication dates in the RFC 2822 form RSS uses
//! (`%a, %d %b %Y %H:%M:%S %z`), from the forms upstream sites give.
//!
//! Calendar arithmetic and formatting are `chrono`'s; what chrono computes
//! is named below and not restated. The current time is read by the
//! caller and passed in where a fallback needs it.
use crate::feed::opt_view;
use crate::json::{parse_usize, spec_parse_usize};
use crate::text::{capture_group, regex_group, first_occurrence, find_seq_from, find_char_from, to_chars, from_range, trim, trim_str};
use vstd::prelude::*;
use chrono::TimeZone;

verus! {

// ---------------------------------------------------------------------------
// Names for what chrono computes
// ---------------------------------------------------------------------------

/// `DateTime::from_timestamp(ts, 0)` written in RFC 2822 form (UTC), if the
/// timestamp is in chrono's range.
pub uninterp spec fn ts_rfc2822(ts: i64) -> Option<Seq<char>>;

/// `NaiveDateTime::parse_from_str(s, fmt)` taken as UTC and written in RFC
/// 2822 form, if `s` matches `fmt`.
pub uninterp spec fn naive_utc_rfc2822(s: Seq<char>, fmt: Seq<char>) -> Option<Seq<char>>;

/// `s` in the form `%Y-%m-%d %H:%M:%S` taken as local time at UTC+8 and
/// written in RFC 2822 form.
pub uninterp spec fn local0800_rfc2822(s: Seq<char>) -> Option<Seq<char>>;

/// `s` in the form `%Y-%m-%d %H:%M:%S` taken as UTC, moved to UTC+8 and
/// written again as `%Y-%m-%d %H:%M:%S`; nothing where `s` does not read or
/// the moved time leaves chrono's range.
pub uninterp spec fn utc_to_0800_wall(s: Seq<char>) -> Option<Seq<char>>;

/// `DateTime::parse_from_rfc3339(s)` written in RFC 2822 form with the
/// offset it was given.
pub uninterp spec fn rfc3339_rfc2822(s: Seq<char>) -> Option<Seq<char>>;

/// `DateTime::parse_from_rfc3339(s)` moved to UTC and written in RFC 2822
/// form.
pub uninterp spec fn rfc3339_utc_rfc2822(s: Seq<char>) -> Option<Seq<char>>;

/// An RFC 2822 date moved to UTC and written in RFC 2822 form, if `s`
/// parses (`DateTime::parse_from_rfc2822`).
pub uninterp spec fn rfc2822_utc_rfc2822(s: Seq<char>) -> Option<Seq<char>>;

/// `NaiveDate::parse_from_str(s, fmt)` at midnight, taken as UTC and
/// written in RFC 2822 form, if `s` is a date in the format `fmt`.
pub uninterp spec fn naive_date_midnight_utc(s: Seq<char>, fmt: Seq<char>) -> Option<Seq<char>>;

/// `NaiveDate::from_ymd_opt(y, m, d)` written as
/// `%a, %d %b %Y 00:00:00 +0800`, if the date exists.
pub uninterp spec fn ymd_rfc2822_0800(y: i32, m: u32, d: u32) -> Option<Seq<char>>;

/// `chrono`: a Unix timestamp as an RFC 2822 date in UTC.
#[verifier::external_body]
fn chrono_timestamp(ts: i64) -> (r: Option<String>)
    ensures
        opt_view(r) == ts_rfc2822(ts),
{
    match chrono::DateTime::from_timestamp(ts, 0) {
        Some(dt) => Some(dt.format("%a, %d %b %Y %H:%M:%S %z").to_string()),
        None => None,
    }
}

/// `chrono`: a date-time without offset in the format `fmt`, taken as UTC.
#[verifier::external_body]
fn chrono_naive_utc(s: &str, fmt: &str) -> (r: Option<String>)
    ensures
        opt_view(r) == naive_utc_rfc2822(s@, fmt@),
{
    match chrono::NaiveDateTime::parse_from_str(s, fmt) {
        Ok(n) => Some(
            chrono::DateTime::<chrono::Utc>::from_naive_utc_and_offset(n, chrono::Utc).format(
                "%a, %d %b %Y %H:%M:%S %z",
            ).to_string(),
        ),
        Err(_) => None,
    }
}

/// `chrono`: a calendar date in the format `fmt`, at midnight UTC.
#[verifier::external_body]
fn chrono_date_midnight_utc(s: &str, fmt: &str) -> (r: Option<String>)
    ensures
        opt_view(r) == naive_date_midnight_utc(s@, fmt@),
{
    let n = chrono::NaiveDate::parse_from_str(s, fmt).ok()?.and_hms_opt(0, 0, 0)?;
    Some(
        chrono::DateTime::<chrono::Utc>::from_naive_utc_and_offset(n, chrono::Utc).format(
            "%a, %d %b %Y %H:%M:%S %z",
        ).to_string(),
    )
}

/// `chrono`: `%Y-%m-%d %H:%M:%S` taken as local time at UTC+8.
#[verifier::external_body]
fn chrono_local0800(s: &str) -> (r: Option<String>)
    ensures
        opt_view(r) == local0800_rfc2822(s@),
{
    let naive = chrono::NaiveDateTime::parse_from_str(s, "%Y-%m-%d %H:%M:%S").ok()?;
    let fixed = chrono::FixedOffset::east_opt(8 * 3600)?;
    Some(fixed.from_local_datetime(&naive).single()?.format("%a, %d %b %Y %H:%M:%S %z").to_string())
}

/// `chrono`: `%Y-%m-%d %H:%M:%S` in UTC as the wall-clock time at UTC+8.
#[verifier::external_body]
fn chrono_utc_to_0800(s: &str) -> (r: Option<String>)
    ensures
        opt_view(r) == utc_to_0800_wall(s@),
{
    let naive = chrono::NaiveDateTime::parse_from_str(s, "%Y-%m-%d %H:%M:%S").ok()?;
    let fixed = chrono::FixedOffset::east_opt(8 * 3600)?;
    Some(naive.checked_add_offset(fixed)?.format("%Y-%m-%d %H:%M:%S").to_string())
}

/// `chrono`: an RFC 3339 date keeping its offset.
#[verifier::external_body]
fn chrono_rfc3339(s: &str) -> (r: Option<String>)
    ensures
        opt_view(r) == rfc3339_rfc2822(s@),
{
    match chrono::DateTime::parse_from_rfc3339(s) {
        Ok(dt) => Some(dt.format("%a, %d %b %Y %H:%M:%S %z").to_string()),
        Err(_) => None,
    }
}

/// `chrono`: an RFC 2822 date moved to UTC.
#[verifier::external_body]
pub(crate) fn chrono_rfc2822_utc(s: &str) -> (r: Option<String>)
    ensures
        opt_view(r) == rfc2822_utc_rfc2822(s@),
{
    match chrono::DateTime::parse_from_rfc2822(s) {
        Ok(dt) => Some(dt.with_timezone(&chrono::Utc).format("%a, %d %b %Y %H:%M:%S %z").to_string()),
        Err(_) => None,
    }
}

/// `chrono`: an RFC 3339 date moved to UTC.
#[verifier::external_body]
pub(crate) fn chrono_rfc3339_utc(s: &str) -> (r: Option<String>)
    ensures
        opt_view(r) == rfc3339_utc_rfc2822(s@),
{
    match chrono::DateTime::parse_from_rfc3339(s) {
        Ok(dt) => Some(dt.with_timezone(&chrono::Utc).format("%a, %d %b %Y %H:%M:%S %z").to_string()),
        Err(_) => None,
    }
}

/// Whether `NaiveDate::parse_from_str(s, fmt)` reads a date from `s`.
pub uninterp spec fn naive_date_parses(s: Seq<char>, fmt: Seq<char>) -> bool;

/// `chrono`: whether `s` is a date in the format `fmt` (see
/// [`naive_date_parses`]).
#[verifier::external_body]
pub(crate) fn chrono_date_parses(s: &str, fmt: &str) -> (r: bool)
    ensures
        r == naive_date_parses(s@, fmt@),
{
    chrono::NaiveDate::parse_from_str(s, fmt).is_ok()
}

/// `chrono`: a calendar date at midnight, UTC+8.
#[verifier::external_body]
pub(crate) fn chrono_ymd(y: i32, m: u32, d: u32) -> (r: Option<String>)
    ensures
        opt_view(r) == ymd_rfc2822_0800(y, m, d),
{
    match chrono::NaiveDate::from_ymd_opt(y, m, d) {
        Some(date) => Some(date.format("%a, %d %b %Y 00:00:00 +0800").to_string()),
        None => None,
    }
}

// ---------------------------------------------------------------------------
// The clock
// ---------------------------------------------------------------------------

/// `now`: the current local time in RSS form (`chrono::Local::now()`). It
/// depends on the clock and the machine's time zone, so nothing is stated of
/// it.
#[verifier::external_body]
pub fn now() -> (r: String) {
    chrono::Local::now().format("%a, %d %b %Y %H:%M:%S %z").to_string()
}

/// The current time as a Unix timestamp in seconds (`Local::now()`); it
/// depends on the clock, so nothing is stated of it.
#[verifier::external_body]
pub(crate) fn clock_seconds() -> (r: i64) {
    chrono::Local::now().timestamp()
}

/// The offset, in seconds east of UTC, that the machine's time zone has at
/// the instant `ts` (`Local.timestamp_opt`); nothing where `ts` is out of
/// chrono's range. It depends on the machine's time zone, so nothing more
/// is stated of it.
#[verifier::external_body]
pub(crate) fn local_offset_at(ts: i64) -> (r: Option<i32>) {
    chrono::Local.timestamp_opt(ts, 0).single().map(|d| d.offset().local_minus_utc())
}

/// The calendar date, as `%Y%m%d`, of the instant `ts` (Unix seconds) at
/// the fixed offset `offset` (seconds east of UTC); nothing where the instant
/// is out of chrono's range or the offset is not one (a day or more).
pub uninterp spec fn ymd_at(ts: i64, offset: i32) -> Option<Seq<char>>;

/// `chrono`: the date of an instant at an offset (see [`ymd_at`]).
#[verifier::external_body]
pub(crate) fn chrono_ymd_at(ts: i64, offset: i32) -> (r: Option<String>)
    ensures
        opt_view(r) == ymd_at(ts, offset),
{
    let off = chrono::FixedOffset::east_opt(offset)?;
    Some(chrono::DateTime::from_timestamp(ts, 0)?.with_timezone(&off).format("%Y%m%d").to_string())
}

/// The current local year (`Local::now().year()`); it depends on the clock.
#[verifier::external_body]
pub(crate) fn local_year() -> (r: i32) {
    chrono::Datelike::year(&chrono::Local::now())
}

/// The current time in milliseconds since the epoch
/// (`Local::now().timestamp_millis()`); it depends on the clock.
#[verifier::external_body]
pub(crate) fn now_millis() -> (r: i64) {
    chrono::Local::now().timestamp_millis()
}

// ---------------------------------------------------------------------------
// Dates the routes use
// ---------------------------------------------------------------------------

/// A value, or `fallback` where there is none.
pub open spec fn or_else(o: Option<Seq<char>>, fallback: Seq<char>) -> Seq<char> {
    match o {
        Some(s) => s,
        None => fallback,
    }
}

/// A Unix timestamp as an RSS date; `now` (the current time in RSS form)
/// where the timestamp is out of range.
pub fn timestamp_to_rss(ts: i64, now: &str) -> (r: String)
    ensures
        r@ == or_else(ts_rfc2822(ts), now@),
{
    match chrono_timestamp(ts) {
        Some(s) => s,
        None => now.to_owned(),
    }
}

/// `YYYY-MM-DD HH:MM:SS`, taken as time at UTC+8, as an RSS date.
pub fn datetime_str_to_rss(s: &str) -> (r: Option<String>)
    ensures
        opt_view(r) == local0800_rfc2822(s@),
{
    chrono_local0800(s)
}

/// `YYYY-MM-DD HH:MM:SS`, taken as UTC, as an RSS date at UTC+8.
pub fn utc_str_to_rss(s: &str) -> (r: Option<String>)
    ensures
        opt_view(r) == match utc_to_0800_wall(s@) {
            Some(w) => local0800_rfc2822(w),
            None => None,
        },
{
    match chrono_utc_to_0800(s) {
        Some(w) => datetime_str_to_rss(w.as_str()),
        None => None,
    }
}

/// An RFC 3339 date moved to UTC, as an RSS date; `now` where it does not
/// parse.
pub fn rfc3339_to_rss_utc(s: &str, now: &str) -> (r: String)
    ensures
        r@ == or_else(rfc3339_utc_rfc2822(s@), now@),
{
    match chrono_rfc3339_utc(s) {
        Some(d) => d,
        None => now.to_owned(),
    }
}

/// An RFC 3339 date (as crates.io and GitHub give them) as an RSS date;
/// `now` where it does not parse.
pub fn rfc3339_to_rss(s: &str, now: &str) -> (r: String)
    ensures
        r@ == or_else(rfc3339_rfc2822(s@), now@),
{
    match chrono_rfc3339(s) {
        Some(d) => d,
        None => now.to_owned(),
    }
}

/// `crates_pubdate`: the creation date of a crate.
pub fn crates_pubdate(created: &str, now: &str) -> (r: String)
    ensures
        r@ == or_else(rfc3339_rfc2822(created@), now@),
{
    rfc3339_to_rss(created, now)
}

/// `parse_github_date`: the date of a GitHub discussion.
pub fn parse_github_date(s: &str, now: &str) -> (r: String)
    ensures
        r@ == or_else(rfc3339_rfc2822(s@), now@),
{
    rfc3339_to_rss(s, now)
}

/// `parse_carnegie_date`: the trimmed text read as a calendar date
/// `%B %d, %Y` (`July 22, 2026`) at midnight, else as a date and time
/// `%B %d, %Y %l:%M %p` (`July 22, 2026 10:00 AM`), taken as UTC.
pub open spec fn carnegie_date(date_str: Seq<char>) -> Option<Seq<char>> {
    match naive_date_midnight_utc(trim(date_str), "%B %d, %Y"@) {
        Some(d) => Some(d),
        None => naive_utc_rfc2822(trim(date_str), "%B %d, %Y %l:%M %p"@),
    }
}

/// `parse_carnegie_date` (see [`carnegie_date`]).
pub fn parse_carnegie_date(date_str: &str) -> (r: Option<String>)
    ensures
        opt_view(r) == carnegie_date(date_str@),
{
    let s = trim_str(date_str);
    match chrono_date_midnight_utc(s.as_str(), "%B %d, %Y") {
        Some(d) => Some(d),
        None => chrono_naive_utc(s.as_str(), "%B %d, %Y %l:%M %p"),
    }
}

/// `str::parse::<u32>`: an optional `+`, then ASCII digits, within `u32`.
pub open spec fn spec_parse_u32(t: Seq<char>) -> Option<u32> {
    match spec_parse_usize(t) {
        Some(v) => if v <= u32::MAX {
            Some(v as u32)
        } else {
            None
        },
        None => None,
    }
}

fn parse_u32(t: &str) -> (r: Option<u32>)
    ensures
        r == spec_parse_u32(t@),
{
    match parse_usize(t) {
        Some(v) => if v <= 0xffff_ffffusize {
            Some(v as u32)
        } else {
            None
        },
        None => None,
    }
}

/// The pattern of a Chinese month and day, `M月D日`.
pub open spec fn month_day_pattern() -> Seq<char> {
    "(\\d{1,2})月(\\d{1,2})日"@
}

/// `chinese_date_to_parse` in the year `year`: the first `M月D日` of the
/// text, as midnight at UTC+8 of that day, if the day exists.
pub open spec fn chinese_date(input: Seq<char>, year: i32) -> Option<Seq<char>> {
    match (regex_group(month_day_pattern(), input, 1), regex_group(month_day_pattern(), input, 2)) {
        (Some(m), Some(d)) => match (spec_parse_u32(m), spec_parse_u32(d)) {
            (Some(mm), Some(dd)) => ymd_rfc2822_0800(year, mm, dd),
            _ => None,
        },
        _ => None,
    }
}

/// The first `M月D日` of the text in the year `year` (see
/// [`chinese_date`]).
pub fn chinese_date_in_year(input: &str, year: i32) -> (r: Option<String>)
    ensures
        opt_view(r) == chinese_date(input@, year),
{
    let m = match capture_group("(\\d{1,2})月(\\d{1,2})日", input, 1) {
        Some(m) => m,
        None => {
            return None;
        },
    };
    let d = match capture_group("(\\d{1,2})月(\\d{1,2})日", input, 2) {
        Some(d) => d,
        None => {
            return None;
        },
    };
    match (parse_u32(m.as_str()), parse_u32(d.as_str())) {
        (Some(mm), Some(dd)) => chrono_ymd(year, mm, dd),
        _ => None,
    }
}

/// `chinese_date_to_parse`: the first `M月D日` of the text in the current
/// local year (see [`chinese_date`]); the year is read from the clock.
pub fn chinese_date_to_parse(input: &str) -> (r: Option<String>)
    ensures
        exists|y: i32| opt_view(r) == chinese_date(input@, y),
{
    let y = local_year();
    chinese_date_in_year(input, y)
}

/// The marker before a publication date in embedded JSON.
pub open spec fn date_marker() -> Seq<char> {
    "\"datePublished\":\""@
}

/// The value that starts at `pos`: the text up to the next `"`, if any.
#[verifier::opaque]
pub open spec fn value_at(h: Seq<char>, pos: int) -> Seq<Seq<char>> {
    let rest = h.skip(pos);
    match crate::text::first_pos(rest, '"') {
        Some(e) => seq![rest.take(e)],
        None => seq![],
    }
}

/// The raw values after each `"datePublished":"` marker, in order: the text
/// up to the next `"`, for every marker that has one.
#[verifier::opaque]
pub open spec fn marker_values(h: Seq<char>, start: int) -> Seq<Seq<char>>
    decreases h.len() - start,
{
    if start < 0 || start > h.len() {
        seq![]
    } else {
        match first_occurrence(h, date_marker(), start) {
            Some(idx) => {
                let pos = idx + date_marker().len();
                if start < pos + 1 <= h.len() {
                    value_at(h, pos) + marker_values(h, pos + 1)
                } else {
                    value_at(h, pos)
                }
            },
            None => seq![],
        }
    }
}

proof fn lemma_marker_step(h: Seq<char>, start: int, idx: int)
    requires
        0 <= start <= h.len(),
        first_occurrence(h, date_marker(), start) == Some(idx),
        start <= idx,
    ensures
        marker_values(h, start) == value_at(h, idx + 17) + marker_values(h, idx + 18),
{
    assert(date_marker().len() == 17) by {
        reveal_strlit("\"datePublished\":\"");
    }
    if idx + 18 > h.len() {
        lemma_marker_none(h, idx + 18);
        assert(marker_values(h, start) == value_at(h, idx + 17)) by {
            reveal(marker_values);
        }
        assert(value_at(h, idx + 17) + Seq::<Seq<char>>::empty() == value_at(h, idx + 17));
    } else {
        assert(marker_values(h, start) == value_at(h, idx + 17) + marker_values(h, idx + 18)) by {
            reveal(marker_values);
        }
    }
}

proof fn lemma_value_at(h: Seq<char>, pos: int, end: int)
    requires
        0 <= pos <= end < h.len(),
        crate::text::first_pos(h.skip(pos), '"') == Some(end - pos),
    ensures
        value_at(h, pos) == seq![h.subrange(pos, end)],
{
    reveal(value_at);
    assert(h.skip(pos).take(end - pos) == h.subrange(pos, end));
}

proof fn lemma_value_at_none(h: Seq<char>, pos: int)
    requires
        crate::text::first_pos(h.skip(pos), '"') is None,
    ensures
        value_at(h, pos) == Seq::<Seq<char>>::empty(),
{
    reveal(value_at);
}

proof fn lemma_marker_none(h: Seq<char>, start: int)
    requires
        start > h.len() || first_occurrence(h, date_marker(), start) is None,
    ensures
        marker_values(h, start) == Seq::<Seq<char>>::empty(),
{
    reveal(marker_values);
}

proof fn lemma_first_parsed_cons(v: Seq<Seq<char>>, t: Seq<Seq<char>>, utc_too: bool)
    requires
        v.len() <= 1,
    ensures
        first_parsed(v + t, utc_too) == (if v.len() == 1 && parse_published(v[0], utc_too) is Some {
            parse_published(v[0], utc_too)
        } else {
            first_parsed(t, utc_too)
        }),
{
    if v.len() == 0 {
        assert(v + t == t);
    } else {
        assert((v + t)[0] == v[0]);
        assert((v + t).drop_first() == t);
    }
}

/// The first of `values` that `parse` turns into a date.
pub open spec fn first_parsed(values: Seq<Seq<char>>, utc_too: bool) -> Option<Seq<char>>
    decreases values.len(),
{
    if values.len() == 0 {
        None
    } else {
        match parse_published(values[0], utc_too) {
            Some(d) => Some(d),
            None => first_parsed(values.drop_first(), utc_too),
        }
    }
}

/// One `datePublished` value as a date: RFC 3339 moved to UTC (when
/// `utc_too`), else `%Y-%m-%dT%H:%M:%S` taken as UTC.
pub open spec fn parse_published(raw: Seq<char>, utc_too: bool) -> Option<Seq<char>> {
    if utc_too && rfc3339_utc_rfc2822(raw) is Some {
        rfc3339_utc_rfc2822(raw)
    } else {
        naive_utc_rfc2822(raw, "%Y-%m-%dT%H:%M:%S"@)
    }
}

/// One `datePublished` value as a date (see `parse_published`).
fn parse_value(raw: &str, utc_too: bool) -> (r: Option<String>)
    ensures
        opt_view(r) == parse_published(raw@, utc_too),
{
    if utc_too {
        match chrono_rfc3339_utc(raw) {
            Some(d) => {
                return Some(d);
            },
            None => {},
        }
    }
    chrono_naive_utc(raw, "%Y-%m-%dT%H:%M:%S")
}

/// `extract_date_from_json`: the first `"datePublished":"…"` value in the
/// page that parses as a date. With `utc_too`, RFC 3339 values (with
/// fraction and zone) are tried first, as Defense News needs.
pub fn extract_date_from_json(html: &str, utc_too: bool) -> (r: Option<String>)
    ensures
        opt_view(r) == first_parsed(marker_values(html@, 0), utc_too),
{
    let h = to_chars(html);
    let m = to_chars("\"datePublished\":\"");
    proof {
        reveal_strlit("\"datePublished\":\"");
    }
    let mut start: usize = 0;
    loop
        invariant
            h@ == html@,
            m@ == date_marker(),
            m@.len() == 17,
            first_parsed(marker_values(html@, 0), utc_too) == first_parsed(
                marker_values(html@, start as int),
                utc_too,
            ),
        decreases h@.len() + 1 - start,
    {
        if start > h.len() {
            proof {
                lemma_marker_none(html@, start as int);
            }
            return None;
        }
        let idx = match find_seq_from(h.as_slice(), m.as_slice(), start) {
            Some(idx) => idx,
            None => {
                proof {
                    lemma_marker_none(html@, start as int);
                }
                return None;
            },
        };
        let pos = idx + 17;
        proof {
            lemma_marker_step(html@, start as int, idx as int);
        }
        match find_char_from(h.as_slice(), pos, '"') {
            Some(end) => {
                let raw = from_range(h.as_slice(), pos, end);
                proof {
                    lemma_value_at(html@, pos as int, end as int);
                    lemma_first_parsed_cons(seq![raw@], marker_values(html@, pos + 1), utc_too);
                }
                let parsed = parse_value(raw.as_str(), utc_too);
                if parsed.is_some() {
                    return parsed;
                }
            },
            None => {
                proof {
                    lemma_value_at_none(html@, pos as int);
                    lemma_first_parsed_cons(seq![], marker_values(html@, pos + 1), utc_too);
                }
            },
        }
        if pos >= h.len() {
            proof {
                lemma_marker_none(html@, pos + 1);
            }
            return None;
        }
        start = pos + 1;
    }
}

} // verus!
