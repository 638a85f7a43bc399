//! Announcement tips: filtering a fetched document down to the one tip to
//! show.
//!
//! The host fetches the announcement document; this module parses it,
//! validates each entry and picks the last entry that matches the running
//! version, today's date and the terminal application. Dates travel as
//! plain year-month-day values; the clock is the host's, so "today" is a
//! parameter.

use vstd::prelude::*;

verus! {

use crate::text::lower_spec;
use crate::text::trim_spec;

/// A calendar date as plain values.
#[derive(Clone, Copy, Debug, PartialEq, Eq, Structural)]
pub struct Date {
    pub year: u32,
    pub month: u32,
    pub day: u32,
}

pub open spec fn is_leap_year(y: int) -> bool {
    (y % 4 == 0 && y % 100 != 0) || y % 400 == 0
}

pub open spec fn days_in_month(y: int, m: int) -> int {
    if m == 2 {
        if is_leap_year(y) {
            29
        } else {
            28
        }
    } else if m == 4 || m == 6 || m == 9 || m == 11 {
        30
    } else {
        31
    }
}

/// A well-formed calendar date: the month exists and the day exists in it,
/// leap years included.
pub open spec fn date_wf(d: Date) -> bool {
    &&& d.year <= 9999
    &&& 1 <= d.month <= 12
    &&& 1 <= d.day <= days_in_month(d.year as int, d.month as int)
}

/// Strict calendar order.
pub open spec fn date_lt_spec(a: Date, b: Date) -> bool {
    ||| a.year < b.year
    ||| (a.year == b.year && a.month < b.month)
    ||| (a.year == b.year && a.month == b.month && a.day < b.day)
}

/// Compare two dates.
pub fn date_lt(a: &Date, b: &Date) -> (r: bool)
    ensures
        r == date_lt_spec(*a, *b),
{
    a.year < b.year || (a.year == b.year && a.month < b.month) || (a.year == b.year && a.month
        == b.month && a.day < b.day)
}

pub open spec fn is_digit(c: char) -> bool {
    48 <= c as int <= 57
}

pub open spec fn digit(c: char) -> int {
    c as int - 48
}

/// What parsing a `YYYY-MM-DD` string yields: the date, if the shape is
/// exactly four digits, a dash, two digits, a dash and two digits, and the
/// date exists in the calendar; otherwise nothing.
pub open spec fn parse_date_spec(s: Seq<char>) -> Option<Date> {
    if s.len() == 10 && is_digit(s[0]) && is_digit(s[1]) && is_digit(s[2]) && is_digit(s[3])
        && s[4] == '-' && is_digit(s[5]) && is_digit(s[6]) && s[7] == '-' && is_digit(s[8])
        && is_digit(s[9]) {
        let y = digit(s[0]) * 1000 + digit(s[1]) * 100 + digit(s[2]) * 10 + digit(s[3]);
        let m = digit(s[5]) * 10 + digit(s[6]);
        let d = digit(s[8]) * 10 + digit(s[9]);
        if 1 <= m <= 12 && 1 <= d <= days_in_month(y, m) {
            Some(Date { year: y as u32, month: m as u32, day: d as u32 })
        } else {
            None
        }
    } else {
        None
    }
}

/// Read one digit, if `i` holds one.
fn digit_at(s: &str, i: usize) -> (r: Option<u32>)
    requires
        i < s@.len(),
    ensures
        r is Some <==> is_digit(s@[i as int]),
        r matches Some(v) ==> v as int == digit(s@[i as int]) && v <= 9,
{
    let c = s.get_char(i) as u32;
    if 48 <= c && c <= 57 {
        Some(c - 48)
    } else {
        None
    }
}

/// Parse a `YYYY-MM-DD` date, validating it against the calendar.
pub fn parse_date(s: &str) -> (r: Option<Date>)
    ensures
        r == parse_date_spec(s@),
        r matches Some(d) ==> date_wf(d),
{
    if s.unicode_len() != 10 {
        return None;
    }
    if s.get_char(4) != '-' || s.get_char(7) != '-' {
        return None;
    }
    let d0 = match digit_at(s, 0) {
        Some(v) => v,
        None => {
            return None;
        },
    };
    let d1 = match digit_at(s, 1) {
        Some(v) => v,
        None => {
            return None;
        },
    };
    let d2 = match digit_at(s, 2) {
        Some(v) => v,
        None => {
            return None;
        },
    };
    let d3 = match digit_at(s, 3) {
        Some(v) => v,
        None => {
            return None;
        },
    };
    let m0 = match digit_at(s, 5) {
        Some(v) => v,
        None => {
            return None;
        },
    };
    let m1 = match digit_at(s, 6) {
        Some(v) => v,
        None => {
            return None;
        },
    };
    let e0 = match digit_at(s, 8) {
        Some(v) => v,
        None => {
            return None;
        },
    };
    let e1 = match digit_at(s, 9) {
        Some(v) => v,
        None => {
            return None;
        },
    };
    let y = d0 * 1000 + d1 * 100 + d2 * 10 + d3;
    let m = m0 * 10 + m1;
    let d = e0 * 10 + e1;
    if m < 1 || m > 12 {
        return None;
    }
    let leap = (y % 4 == 0 && y % 100 != 0) || y % 400 == 0;
    let max_day: u32 = if m == 2 {
        if leap {
            29
        } else {
            28
        }
    } else if m == 4 || m == 6 || m == 9 || m == 11 {
        30
    } else {
        31
    };
    if d < 1 || d > max_day {
        return None;
    }
    Some(Date { year: y, month: m, day: d })
}

/// Whether a pattern is accepted by the regex engine: depends on the
/// pattern alone.
pub uninterp spec fn regex_ok(pattern: Seq<char>) -> bool;

/// Whether a pattern matches a haystack: depends on the pattern and the
/// haystack alone.
pub uninterp spec fn regex_match(pattern: Seq<char>, text: Seq<char>) -> bool;

/// Relies on `regex_lite::Regex::new`: whether a pattern compiles depends
/// on the pattern alone.
#[verifier::external_body]
pub(crate) fn regex_compiles(pattern: &str) -> (r: bool)
    ensures
        r == regex_ok(pattern@),
{
    regex_lite::Regex::new(pattern).is_ok()
}

/// Relies on `regex_lite::Regex::new` and `regex_lite::Regex::is_match`:
/// what a compiled pattern matches depends on the pattern and the haystack
/// alone.
#[verifier::external_body]
pub(crate) fn regex_is_match(pattern: &str, text: &str) -> (r: bool)
    requires
        regex_ok(pattern@),
    ensures
        r == regex_match(pattern@, text@),
{
    match regex_lite::Regex::new(pattern) {
        Ok(re) => re.is_match(text),
        Err(_) => false,
    }
}

/// One announcement entry as it stands in the document: the content and
/// four optional constraints, all still text.
#[derive(Debug)]
pub struct AnnouncementTipRaw {
    pub content: String,
    pub from_date: Option<String>,
    pub to_date: Option<String>,
    pub version_regex: Option<String>,
    pub target_app: Option<String>,
}

/// An entry is shown when every part of it is valid and every constraint
/// holds: its trimmed content is not empty, its dates parse and bracket
/// today (the lower bound inclusive, the upper exclusive), its version
/// pattern compiles and matches the running version, and it targets the
/// terminal application (`cli`, the default).
pub open spec fn raw_accepted(raw: AnnouncementTipRaw, today: Date, version: Seq<char>) -> bool {
    &&& trim_spec(raw.content@).len() > 0
    &&& (raw.from_date matches Some(s) ==> parse_date_spec(s@) is Some)
    &&& (raw.to_date matches Some(s) ==> parse_date_spec(s@) is Some)
    &&& (raw.version_regex matches Some(p) ==> regex_ok(p@) && regex_match(p@, version))
    &&& (raw.from_date matches Some(s) ==> (parse_date_spec(s@) matches Some(f) && !date_lt_spec(
        today,
        f,
    )))
    &&& (raw.to_date matches Some(s) ==> (parse_date_spec(s@) matches Some(t) && date_lt_spec(
        today,
        t,
    )))
    &&& (raw.target_app matches Some(t) ==> lower_spec(t@) == "cli"@)
}

/// Decide whether one entry is shown; its trimmed content if so.
fn eval_raw(raw: &AnnouncementTipRaw, today: Date, version: &str) -> (r: Option<String>)
    ensures
        r is Some <==> raw_accepted(*raw, today, version@),
        r matches Some(c) ==> c@ == trim_spec(raw.content@),
{
    let content = crate::text::trim_str(raw.content.as_str());
    if content.unicode_len() == 0 {
        return None;
    }
    match &raw.from_date {
        Some(s) => {
            match parse_date(s.as_str()) {
                Some(f) => {
                    if date_lt(&today, &f) {
                        return None;
                    }
                },
                None => {
                    return None;
                },
            }
        },
        None => {},
    }
    match &raw.to_date {
        Some(s) => {
            match parse_date(s.as_str()) {
                Some(t) => {
                    if !date_lt(&today, &t) {
                        return None;
                    }
                },
                None => {
                    return None;
                },
            }
        },
        None => {},
    }
    match &raw.version_regex {
        Some(p) => {
            if !regex_compiles(p.as_str()) {
                return None;
            }
            if !regex_is_match(p.as_str(), version) {
                return None;
            }
        },
        None => {},
    }
    match &raw.target_app {
        Some(t) => {
            let lowered = crate::text::lower_ascii(t.as_str());
            if !crate::text::str_eq(lowered.as_str(), "cli") {
                return None;
            }
        },
        None => {},
    }
    Some(content.to_owned())
}

/// The tip that is shown, from a list of entries: the last accepted one's
/// trimmed content.
pub open spec fn pick_spec(raws: Seq<AnnouncementTipRaw>, today: Date, version: Seq<char>) -> Option<
    Seq<char>,
>
    decreases raws.len(),
{
    if raws.len() == 0 {
        None
    } else if raw_accepted(raws[raws.len() - 1], today, version) {
        Some(trim_spec(raws[raws.len() - 1].content@))
    } else {
        pick_spec(raws.drop_last(), today, version)
    }
}

/// Pick the tip to show: the last entry that is valid and matches.
pub fn pick_announcement(raws: &Vec<AnnouncementTipRaw>, today: Date, version: &str) -> (r: Option<
    String,
>)
    ensures
        match r {
            Some(c) => pick_spec(raws@, today, version@) == Some(c@),
            None => pick_spec(raws@, today, version@) is None,
        },
{
    let mut latest: Option<String> = None;
    let mut i: usize = 0;
    proof {
        assert(raws@.subrange(0, 0) =~= Seq::<AnnouncementTipRaw>::empty());
    }
    while i < raws.len()
        invariant
            0 <= i <= raws@.len(),
            match latest {
                Some(c) => pick_spec(raws@.subrange(0, i as int), today, version@) == Some(c@),
                None => pick_spec(raws@.subrange(0, i as int), today, version@) is None,
            },
        decreases raws@.len() - i,
    {
        let here = eval_raw(&raws[i], today, version);
        proof {
            let pre = raws@.subrange(0, i as int);
            let ext = raws@.subrange(0, i + 1);
            assert(ext[ext.len() - 1] == raws@[i as int]);
            assert(ext.drop_last() =~= pre);
        }
        if here.is_some() {
            latest = here;
        }
        i += 1;
    }
    proof {
        assert(raws@.subrange(0, raws@.len() as int) =~= raws@);
    }
    latest
}

proof fn lemma_pick_nonempty(raws: Seq<AnnouncementTipRaw>, today: Date, version: Seq<char>)
    ensures
        pick_spec(raws, today, version) matches Some(c) ==> c.len() > 0,
    decreases raws.len(),
{
    if raws.len() > 0 && !raw_accepted(raws[raws.len() - 1], today, version) {
        lemma_pick_nonempty(raws.drop_last(), today, version);
    }
}

/// Declares `toml::map::Map` (and with it `toml::Table`) so its values can
/// pass through signatures; the verifier sees nothing inside them.
#[verifier::external_type_specification]
#[verifier::external_body]
#[verifier::reject_recursive_types(K)]
#[verifier::reject_recursive_types(V)]
pub struct ExTomlMap<K, V>(toml::map::Map<K, V>);

/// Declares `toml::Value`, likewise opaque.
#[verifier::external_type_specification]
#[verifier::external_body]
pub struct ExTomlValue(toml::Value);

/// Relies on `toml::Table`'s `FromStr`: parses the text as a TOML
/// document, or fails.
#[verifier::external_body]
fn parse_toml_table(text: &str) -> Option<toml::Table> {
    text.parse::<toml::Table>().ok()
}

/// Relies on `toml::map::Map::get`: looks the key up in the table.
#[verifier::external_body]
fn table_get<'a>(t: &'a toml::Table, key: &str) -> Option<&'a toml::Value> {
    t.get(key)
}

/// Relies on `toml::Value::as_array`: the elements, if the value is an
/// array.
#[verifier::external_body]
fn value_as_array<'a>(v: &'a toml::Value) -> Option<&'a Vec<toml::Value>> {
    v.as_array()
}

/// Relies on `toml::Value::as_table`: the table, if the value is one.
#[verifier::external_body]
fn value_as_table<'a>(v: &'a toml::Value) -> Option<&'a toml::Table> {
    v.as_table()
}

/// Relies on `toml::Value::as_str`: the text, if the value is a string.
#[verifier::external_body]
fn value_as_str<'a>(v: &'a toml::Value) -> Option<&'a str> {
    v.as_str()
}

/// Read an optional string field: absent is fine, a non-string value is a
/// document error.
fn opt_str_field(t: &toml::Table, key: &str) -> (r: Option<Option<String>>) {
    match table_get(t, key) {
        None => Some(None),
        Some(v) => match value_as_str(v) {
            Some(s) => Some(Some(s.to_owned())),
            None => None,
        },
    }
}

/// Decode the announcement document: a table whose `announcements` array
/// holds one table per entry, each with a string `content` and optional
/// string constraints. Any entry of the wrong shape fails the whole
/// document, as a strict decoder would.
fn extract_announcements(text: &str) -> Option<Vec<AnnouncementTipRaw>> {
    let table = match parse_toml_table(text) {
        Some(t) => t,
        None => {
            return None;
        },
    };
    let arr = match table_get(&table, "announcements") {
        Some(v) => match value_as_array(v) {
            Some(a) => a,
            None => {
                return None;
            },
        },
        None => {
            return None;
        },
    };
    let mut out: Vec<AnnouncementTipRaw> = Vec::new();
    let mut i: usize = 0;
    while i < arr.len()
        decreases arr@.len() - i,
    {
        let entry = match value_as_table(&arr[i]) {
            Some(e) => e,
            None => {
                return None;
            },
        };
        let content = match table_get(entry, "content") {
            Some(v) => match value_as_str(v) {
                Some(s) => s.to_owned(),
                None => {
                    return None;
                },
            },
            None => {
                return None;
            },
        };
        let from_date = match opt_str_field(entry, "from_date") {
            Some(f) => f,
            None => {
                return None;
            },
        };
        let to_date = match opt_str_field(entry, "to_date") {
            Some(f) => f,
            None => {
                return None;
            },
        };
        let version_regex = match opt_str_field(entry, "version_regex") {
            Some(f) => f,
            None => {
                return None;
            },
        };
        let target_app = match opt_str_field(entry, "target_app") {
            Some(f) => f,
            None => {
                return None;
            },
        };
        out.push(AnnouncementTipRaw { content, from_date, to_date, version_regex, target_app });
        i += 1;
    }
    Some(out)
}

/// Parse the announcement document and pick the tip to show today, for
/// this version: the last entry that is valid and matches. A document of
/// the wrong shape yields nothing.
pub fn parse_announcement_tip_toml(text: &str, today: Date, version: &str) -> (r: Option<String>)
    ensures
        r matches Some(c) ==> c@.len() > 0,
{
    match extract_announcements(text) {
        Some(raws) => {
            proof {
                lemma_pick_nonempty(raws@, today, version@);
            }
            pick_announcement(&raws, today, version)
        },
        None => None,
    }
}

} // verus!
