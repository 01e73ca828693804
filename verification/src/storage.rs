//! What the database's rows mean, and the values that its queries are given.
use vstd::prelude::*;

verus! {

/// A moment: seconds since 1970 in UTC, and nanoseconds since the last whole second.
#[derive(Clone, Copy, Debug, PartialEq, Eq, Structural)]
pub struct UtcTime {
    pub secs: i64,
    pub nanos: u32,
}

/// The moment that `text` names; `None` if it names none.
pub uninterp spec fn utc_parsed(text: Seq<char>) -> Option<(i64, u32)>;

/// The RFC 3339 text of a moment; `None` for one that a calendar date cannot express.
pub uninterp spec fn utc_rfc3339(secs: i64, nanos: u32) -> Option<Seq<char>>;

/// Whether a clock can show the moment: less than a second is past the last whole one, or less
/// than two within a leap second, which only the last second of a minute can be.
pub open spec fn is_clock_time(secs: i64, nanos: u32) -> bool {
    nanos < 1_000_000_000 || (nanos < 2_000_000_000 && secs as int % 60 == 59)
}

/// Whether the calendar reaches the moment: it runs from the start of the year -262143 to the end
/// of the year 262142.
pub open spec fn is_in_calendar(secs: i64) -> bool {
    -8_334_601_228_800 <= secs < 8_210_266_876_800
}

/// Whether the moment lies in the years 0 to 9999.
pub open spec fn has_four_digit_year(secs: i64) -> bool {
    -62_167_219_200 <= secs < 253_402_300_800
}

/// Whether `text` ends in the offset of UTC.
pub open spec fn ends_in_utc(text: Seq<char>) -> bool {
    text.len() >= 6 && text.skip(text.len() - 6) == "+00:00"@
}

/// Whether `text` has the form of RFC 3339 with the offset of UTC: date and time to the second,
/// a fraction of three, six or nine digits or none, and `+00:00`.
pub open spec fn is_rfc3339_utc(text: Seq<char>) -> bool {
    let n = text.len() as int;
    &&& n == 25 || n == 29 || n == 32 || n == 35
    &&& text[4] == '-' && text[7] == '-' && text[10] == 'T' && text[13] == ':' && text[16] == ':'
    &&& n > 25 ==> text[19] == '.'
    &&& ends_in_utc(text)
    &&& forall|i: int|
        0 <= i < n - 6 && i != 4 && i != 7 && i != 10 && i != 13 && i != 16 && i != 19 ==> '0'
            <= #[trigger] text[i] && text[i] <= '9'
}

/// Calls `parse` for a `chrono::DateTime<Utc>`, which takes a relaxed form of RFC 3339; its
/// error is dropped. What it gives is a function of the text.
#[verifier::external_body]
fn parse_utc(text: &str) -> (time: Option<UtcTime>)
    ensures
        time is Some == utc_parsed(text@) is Some,
        time is Some ==> ((time->0).secs, (time->0).nanos) == utc_parsed(text@)->0,
{
    let time: chrono::DateTime<chrono::Utc> = text.parse().ok()?;
    Some(UtcTime { secs: time.timestamp(), nanos: time.timestamp_subsec_nanos() })
}

/// Calls `to_rfc3339` of `chrono::DateTime<Utc>`, made by `from_timestamp`. What it gives is a
/// function of the moment. There is a text exactly where the calendar reaches the moment and a
/// clock can show it. It ends in the offset of UTC, and it names the moment, a leap second
/// included. In the years 0 to 9999 it has the form of RFC 3339; other years have a sign.
#[verifier::external_body]
fn show_utc(time: &UtcTime) -> (text: Option<String>)
    ensures
        text is Some == utc_rfc3339(time.secs, time.nanos) is Some,
        text is Some ==> (text->0)@ == utc_rfc3339(time.secs, time.nanos)->0,
        text is Some == (is_in_calendar(time.secs) && is_clock_time(time.secs, time.nanos)),
        text is Some ==> ends_in_utc((text->0)@),
        text is Some ==> utc_parsed((text->0)@) == Some((time.secs, time.nanos)),
        text is Some ==> (has_four_digit_year(time.secs) ==> is_rfc3339_utc((text->0)@)),
{
    chrono::DateTime::from_timestamp(time.secs, time.nanos).map(|time| time.to_rfc3339())
}

/// The RFC 3339 text of a moment; `None` exactly where there is no such moment. What is written
/// is read back as the same moment, its part of a second and a leap second included.
pub fn format_rfc3339(dt: &UtcTime) -> (text: Option<String>)
    ensures
        text is Some == utc_rfc3339(dt.secs, dt.nanos) is Some,
        text is Some ==> (text->0)@ == utc_rfc3339(dt.secs, dt.nanos)->0,
        text is Some == (is_in_calendar(dt.secs) && is_clock_time(dt.secs, dt.nanos)),
        text is Some ==> ends_in_utc((text->0)@),
        text is Some ==> utc_parsed((text->0)@) == Some((dt.secs, dt.nanos)),
        text is Some ==> (has_four_digit_year(dt.secs) ==> is_rfc3339_utc((text->0)@)),
{
    show_utc(dt)
}

/// A miner that the pool knows.
#[derive(Debug)]
pub struct Worker {
    pub id: i64,
    pub name: String,
    pub authorized: bool,
    pub last_seen: Option<UtcTime>,
}

/// What a worker's row says.
#[verifier::ext_equal]
pub struct WorkerModel {
    pub id: i64,
    pub name: Seq<char>,
    pub authorized: bool,
    pub last_seen: Option<(i64, u32)>,
}

impl View for Worker {
    type V = WorkerModel;

    open spec fn view(&self) -> WorkerModel {
        WorkerModel {
            id: self.id,
            name: self.name@,
            authorized: self.authorized,
            last_seen: match self.last_seen {
                Some(time) => Some((time.secs, time.nanos)),
                None => None,
            },
        }
    }
}

impl Clone for Worker {
    fn clone(&self) -> (copy: Worker)
        ensures
            copy@ == self@,
    {
        Worker {
            id: self.id,
            name: self.name.clone(),
            authorized: self.authorized,
            last_seen: self.last_seen,
        }
    }
}

/// The worker that a row stands for: authorized unless its flag is zero, and last seen at the
/// moment that the text names, if it names one.
pub open spec fn worker_of_row(
    id: i64,
    name: Seq<char>,
    authorized: i64,
    last_seen: Option<Seq<char>>,
) -> WorkerModel {
    WorkerModel {
        id,
        name,
        authorized: authorized != 0,
        last_seen: match last_seen {
            Some(text) => utc_parsed(text),
            None => None,
        },
    }
}

/// Makes a worker of a row whose moment has been read.
pub fn worker_seen_at(id: i64, name: String, authorized: i64, last_seen: Option<UtcTime>) -> (worker:
    Worker)
    ensures
        worker == (Worker { id, name, authorized: authorized != 0, last_seen }),
{
    Worker { id, name, authorized: authorized != 0, last_seen }
}

/// Makes a worker of a row.
pub fn worker_from_row(id: i64, name: String, authorized: i64, last_seen: Option<String>) -> (worker:
    Worker)
    ensures
        worker@ == worker_of_row(
            id,
            name@,
            authorized,
            match last_seen {
                Some(text) => Some(text@),
                None => None,
            },
        ),
{
    let last_seen = match last_seen {
        Some(text) => parse_utc(&text),
        None => None,
    };
    worker_seen_at(id, name, authorized, last_seen)
}

/// A truth value as a column holds it.
pub open spec fn flag_of(value: bool) -> i64 {
    if value {
        1
    } else {
        0
    }
}

/// The column value of a truth value.
pub fn flag_column(value: bool) -> (flag: i64)
    ensures
        flag == flag_of(value),
{
    if value {
        1
    } else {
        0
    }
}

/// A worker is read back as authorized exactly if it was written so.
pub proof fn authorization_is_read_back(
    id: i64,
    name: Seq<char>,
    authorized: bool,
    last_seen: Option<Seq<char>>,
)
    ensures
        worker_of_row(id, name, flag_of(authorized), last_seen).authorized == authorized,
{
}

/// A share as it is recorded for a worker.
#[derive(Clone, Copy, Debug, PartialEq, Eq, Structural)]
pub struct ShareEntry {
    pub worker_id: i64,
    pub valid: i64,
}

/// What is recorded of an accepted share: a valid one for its worker, and nothing where the
/// worker could not be stored.
pub fn share_entry(worker_id: Option<i64>) -> (entry: Option<ShareEntry>)
    ensures
        entry == (match worker_id {
            Some(worker_id) => Some(ShareEntry { worker_id, valid: flag_of(true) }),
            None => None,
        }),
{
    match worker_id {
        Some(worker_id) => Some(ShareEntry { worker_id, valid: flag_column(true) }),
        None => None,
    }
}

/// The first second of the last `window_secs`.
pub fn window_cutoff(now: i64, window_secs: i64) -> (cutoff: i64)
    requires
        i64::MIN <= now - window_secs <= i64::MAX,
    ensures
        cutoff == now - window_secs,
{
    now - window_secs
}

/// The first second of the window that a rate is taken over; there is no rate over a window
/// that is not longer than nothing.
pub fn rate_cutoff(now: i64, window_secs: i64) -> (cutoff: Option<i64>)
    requires
        window_secs > 0 ==> now - window_secs >= i64::MIN,
    ensures
        cutoff == (if window_secs <= 0 {
            None
        } else {
            Some((now - window_secs) as i64)
        }),
{
    if window_secs <= 0 {
        None
    } else {
        Some(window_cutoff(now, window_secs))
    }
}

/// The first second of the last `minutes`.
pub fn bucket_cutoff(now: i64, minutes: i64) -> (cutoff: i64)
    requires
        i64::MIN <= minutes * 60 <= i64::MAX,
        i64::MIN <= now - minutes * 60 <= i64::MAX,
    ensures
        cutoff == now - minutes * 60,
{
    now - minutes * 60
}

} // verus!
