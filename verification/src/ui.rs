//! What is shown around a run: the weather line, and what the system's
//! tools report of disk, power, version and uptime.
use crate::logger::{lines, lines_of};
use crate::text::{
    contains, find_char, find_match, has_substring, index_of, index_of_char, is_blank, is_numeric,
    numeric, split_words, to_chars, trim, trimmed, words_of,
};
use vstd::prelude::*;

verus! {

/// Result of a weather lookup.
#[derive(Debug, PartialEq, Eq)]
pub enum WeatherStatus {
    /// The service answered with a summary.
    Available(String),
    /// The service answered, but not with anything to show.
    NoData(&'static str),
    /// The lookup failed.
    Error(String),
}

/// Whether the body of an answer holds a weather summary: it is not blank
/// and does not say that the place is unknown.
pub open spec fn has_weather(body: Seq<char>) -> bool {
    !is_blank(body) && !has_substring(trimmed(body), "Unknown"@)
}

/// What the body of the weather service's answer amounts to: the summary,
/// trimmed, or the note that none is to be had.
pub fn weather_from_body(body: &str) -> (status: WeatherStatus)
    ensures
        match status {
            WeatherStatus::Available(summary) => has_weather(body@) && summary@ == trimmed(body@),
            WeatherStatus::NoData(note) => !has_weather(body@) && note@
                == "Weather data currently unavailable."@,
            WeatherStatus::Error(_) => false,
        },
{
    let summary = trim(body);
    if summary.is_empty() || contains(summary, "Unknown") {
        WeatherStatus::NoData("Weather data currently unavailable.")
    } else {
        WeatherStatus::Available(summary.to_owned())
    }
}

/// The weather line as shown.
pub open spec fn weather_text(status: WeatherStatus) -> Seq<char> {
    match status {
        WeatherStatus::Available(summary) => summary@,
        WeatherStatus::NoData(note) => note@,
        WeatherStatus::Error(reason) => "Unable to fetch weather data ("@ + reason@ + ")."@,
    }
}

/// The weather line as shown.
pub fn weather_line(status: &WeatherStatus) -> (line: String)
    ensures
        line@ == weather_text(*status),
{
    match status {
        WeatherStatus::Available(summary) => summary.clone(),
        WeatherStatus::NoData(note) => (*note).to_owned(),
        WeatherStatus::Error(reason) => {
            let mut line = "Unable to fetch weather data (".to_owned();
            line.append(reason.as_str());
            line.append(").");
            line
        },
    }
}

/// How much of the disk is in use, as the disk tool words it.
#[derive(Debug, PartialEq, Eq)]
pub struct DiskUsage {
    pub total: String,
    pub used: String,
    pub percent: String,
}

/// What the disk tool's report says of the disk: total, used and
/// percentage. They are the second, third and fifth word of the report's
/// second line; a report without such a line says nothing.
pub open spec fn disk_usage_of(report: Seq<char>) -> Option<(Seq<char>, Seq<char>, Seq<char>)> {
    let rows = lines_of(report);
    if rows.len() < 2 {
        None
    } else {
        let fields = words_of(rows[1]);
        if fields.len() >= 5 {
            Some((fields[1], fields[2], fields[4]))
        } else {
            None
        }
    }
}

/// Reads the disk tool's report.
pub fn parse_disk_usage(report: &str) -> (usage: Option<DiskUsage>)
    ensures
        match usage {
            Some(u) => disk_usage_of(report@) == Some((u.total@, u.used@, u.percent@)),
            None => disk_usage_of(report@) is None,
        },
{
    let rows = lines(report);
    if rows.len() < 2 {
        return None;
    }
    let fields = split_words(rows[1].as_str());
    if fields.len() < 5 {
        return None;
    }
    Some(DiskUsage { total: fields[1].clone(), used: fields[2].clone(), percent: fields[4].clone() })
}

/// Where the power comes from.
#[derive(Debug, Clone, Copy, PartialEq, Eq, Structural)]
pub enum PowerState {
    Charging,
    Charged,
    Battery,
}

/// The battery's charge, in percent as the power tool words it, and where
/// the power comes from.
#[derive(Debug, PartialEq, Eq)]
pub struct BatteryStatus {
    pub percent: String,
    pub state: PowerState,
}

/// Index of the first numeric character of `s` at or after `from`, or the
/// length of `s` where there is none.
pub open spec fn find_numeric(s: Seq<char>, from: int) -> int
    decreases s.len() - from,
{
    if from >= s.len() {
        s.len() as int
    } else if from >= 0 && numeric(s[from]) {
        from
    } else {
        find_numeric(s, from + 1)
    }
}

/// A stretch without a numeric character does not change what is found.
proof fn lemma_find_numeric_skips(s: Seq<char>, from: int, to: int)
    requires
        0 <= from <= to <= s.len(),
        forall|i: int| from <= i < to ==> !numeric(s[i]),
    ensures
        find_numeric(s, from) == find_numeric(s, to),
    decreases to - from,
{
    if from < to {
        lemma_find_numeric_skips(s, from + 1, to);
    }
}

/// Where the power comes from according to a line of the power tool.
pub open spec fn power_state_of(line: Seq<char>) -> PowerState {
    if has_substring(line, "charging"@) {
        PowerState::Charging
    } else if has_substring(line, "charged"@) {
        PowerState::Charged
    } else {
        PowerState::Battery
    }
}

/// What the power tool's report says of the battery: the charge is what
/// stands on the report's second line from its first numeric character up
/// to the percent sign that follows. A report without such a line, number
/// or sign says nothing.
pub open spec fn battery_of(report: Seq<char>) -> Option<(Seq<char>, PowerState)> {
    let rows = lines_of(report);
    if rows.len() < 2 {
        None
    } else {
        let line = rows[1];
        let start = find_numeric(line, 0);
        let end = find_char(line, start, '%');
        if 0 <= start <= end < line.len() {
            Some((line.subrange(start, end), power_state_of(line)))
        } else {
            None
        }
    }
}

/// Reads the power tool's report.
pub fn parse_battery(report: &str) -> (battery: Option<BatteryStatus>)
    ensures
        match battery {
            Some(b) => battery_of(report@) == Some((b.percent@, b.state)),
            None => battery_of(report@) is None,
        },
{
    let rows = lines(report);
    if rows.len() < 2 {
        return None;
    }
    let line = rows[1].as_str();
    let chars = to_chars(line);
    let mut start: usize = 0;
    while start < chars.len() && !is_numeric(chars[start])
        invariant
            start <= chars.len(),
            forall|k: int| 0 <= k < start ==> !numeric(chars@[k]),
        decreases chars.len() - start,
    {
        start += 1;
    }
    proof {
        lemma_find_numeric_skips(chars@, 0, start as int);
    }
    if start >= chars.len() {
        return None;
    }
    let end = index_of_char(&chars, start, '%');
    if end >= chars.len() {
        return None;
    }
    let state = if contains(line, "charging") {
        PowerState::Charging
    } else if contains(line, "charged") {
        PowerState::Charged
    } else {
        PowerState::Battery
    };
    Some(BatteryStatus { percent: line.substring_char(start, end).to_owned(), state })
}

/// What the uptime tool's report says of the time the system is up: what
/// stands between the first `up ` and the comma that follows. A report
/// without either says nothing.
pub open spec fn uptime_of(report: Seq<char>) -> Option<Seq<char>> {
    match find_match(report, "up "@, 0) {
        Some(at) => {
            let start = at + 3;
            let end = find_char(report, start, ',');
            if 0 <= start <= end < report.len() {
                Some(report.subrange(start, end))
            } else {
                None
            }
        },
        None => None,
    }
}

/// Reads the uptime tool's report.
pub fn parse_uptime(report: &str) -> (uptime: Option<String>)
    ensures
        uptime.deep_view() == uptime_of(report@),
{
    let chars = to_chars(report);
    let needle = to_chars("up ");
    proof {
        reveal_strlit("up ");
    }
    match index_of(&chars, &needle, 0) {
        Some(at) => {
            let start = at + 3;
            let end = index_of_char(&chars, start, ',');
            if end >= chars.len() {
                return None;
            }
            Some(report.substring_char(start, end).to_owned())
        },
        None => None,
    }
}

/// The system's version as its tool prints it, without surrounding white
/// space.
pub fn parse_version(report: &str) -> (version: String)
    ensures
        version@ == trimmed(report@),
{
    trim(report).to_owned()
}

} // verus!
