//! The calendar shown in the mixed layout, alternating with the slideshow:
//! upcoming events from the section's public Google Calendar, or a few mock
//! events when no API key is configured.

use vstd::prelude::*;

use crate::text::{copy_opt_string, opt_chars};

verus! {

/// The section's public calendar.
pub const CALENDAR_ID: &'static str = "fysiksektionen.se_0187vbmdcivl8mtio142e23cas@group.calendar.google.com";

/// How often the events are fetched again, in milliseconds.
pub const REFRESH_INTERVAL_MS: i32 = 600000;

/// An upcoming event.
#[derive(Debug, Clone)]
pub struct CalendarEvent {
    pub summary: String,
    pub location: Option<String>,
    /// RFC 3339 date and time, for timed events.
    pub date_time: Option<String>,
    /// Plain `YYYY-MM-DD` date, for all-day events.
    pub all_day_date: Option<String>,
}

/// The events list the Google Calendar API answers with.
pub struct RawEventsResponse {
    pub items: Option<Vec<RawEvent>>,
}

/// An event as the Google Calendar API reports it.
pub struct RawEvent {
    pub summary: String,
    pub location: Option<String>,
    pub start: RawEventTime,
}

/// When an event starts, as the Google Calendar API reports it.
pub struct RawEventTime {
    pub date_time: Option<String>,
    pub date: Option<String>,
}

/// The event a reported one is shown as.
pub open spec fn event_from(e: RawEvent) -> CalendarEvent {
    CalendarEvent {
        summary: e.summary,
        location: e.location,
        date_time: e.start.date_time,
        all_day_date: e.start.date,
    }
}

/// Reading an answer keeps each reported event as it was reported: the
/// `i`-th event has the `i`-th reported event's summary as its title
/// (whatever its location), its location, and its start time or day.
pub proof fn lemma_events_keep_reports(items: Seq<RawEvent>, i: int)
    requires
        0 <= i < items.len(),
    ensures
        items.map_values(|e: RawEvent| event_from(e)).len() == items.len(),
        items.map_values(|e: RawEvent| event_from(e))[i].summary == items[i].summary,
        items.map_values(|e: RawEvent| event_from(e))[i].location == items[i].location,
        items.map_values(|e: RawEvent| event_from(e))[i].date_time == items[i].start.date_time,
        items.map_values(|e: RawEvent| event_from(e))[i].all_day_date == items[i].start.date,
{
}

/// The events of an answer, in the order reported (none when the answer
/// lists no items).
pub fn events_from_response(resp: &RawEventsResponse) -> (res: Vec<CalendarEvent>)
    ensures
        resp.items is None ==> res@.len() == 0,
        resp.items matches Some(items) ==> res@ == items@.map_values(|e: RawEvent| event_from(e)),
        resp.items matches Some(items) ==> res@.len() == items@.len() && forall|i: int|
            0 <= i < items@.len() ==> {
                &&& #[trigger] res@[i].summary == items@[i].summary
                &&& res@[i].location == items@[i].location
                &&& res@[i].date_time == items@[i].start.date_time
                &&& res@[i].all_day_date == items@[i].start.date
            },
{
    let mut out: Vec<CalendarEvent> = Vec::new();
    match &resp.items {
        None => {},
        Some(items) => {
            let n = items.len();
            let mut i: usize = 0;
            while i < n
                invariant
                    n == items@.len(),
                    i <= n,
                    out@ == items@.take(i as int).map_values(|e: RawEvent| event_from(e)),
                decreases n - i,
            {
                let e = &items[i];
                out.push(
                    CalendarEvent {
                        summary: e.summary.clone(),
                        location: copy_opt_string(&e.location),
                        date_time: copy_opt_string(&e.start.date_time),
                        all_day_date: copy_opt_string(&e.start.date),
                    },
                );
                assert(items@.take(i + 1).map_values(|e: RawEvent| event_from(e)) =~= items@.take(
                    i as int,
                ).map_values(|e: RawEvent| event_from(e)).push(event_from(items@[i as int])));
                i = i + 1;
            }
            assert(items@.take(n as int) =~= items@);
        },
    }
    out
}

/// Where the next events of the calendar are fetched: at most ten single
/// events from `now` on, in start order. `calendar_id` is the calendar's id
/// already encoded as a URI component.
pub open spec fn events_url_for(calendar_id: Seq<char>, api_key: Seq<char>, now: Seq<char>) -> Seq<char> {
    "https://www.googleapis.com/calendar/v3/calendars/"@ + calendar_id + "/events?key="@ + api_key
        + "&timeMin="@ + now + "&singleEvents=true&orderBy=startTime&maxResults=10"@
}

/// Where the next events of the calendar are fetched.
pub fn events_url(calendar_id: &str, api_key: &str, now: &str) -> (res: String)
    ensures
        res@ == events_url_for(calendar_id@, api_key@, now@),
{
    let mut url = String::from_str("https://www.googleapis.com/calendar/v3/calendars/");
    url.append(calendar_id);
    url.append("/events?key=");
    url.append(api_key);
    url.append("&timeMin=");
    url.append(now);
    url.append("&singleEvents=true&orderBy=startTime&maxResults=10");
    url
}

/// When an event starts, as its card reads it: the date and time of a
/// timed event, the date of an all-day one, or nothing.
pub open spec fn event_start_text(e: CalendarEvent) -> Seq<char> {
    match e.date_time {
        Some(t) => t@,
        None => match e.all_day_date {
            Some(d) => d@,
            None => Seq::empty(),
        },
    }
}

/// When an event starts, as its card reads it.
pub fn event_start(event: &CalendarEvent) -> (res: String)
    ensures
        res@ == event_start_text(*event),
{
    match &event.date_time {
        Some(t) => t.clone(),
        None => match &event.all_day_date {
            Some(d) => d.clone(),
            None => String::new(),
        },
    }
}

/// Whether the event lasts all day (its card then shows no time).
pub fn is_all_day(event: &CalendarEvent) -> (res: bool)
    ensures
        res == event.all_day_date is Some,
{
    event.all_day_date.is_some()
}

/// Index of the first `T` in `s` at or after `i`, or the length of `s`.
pub open spec fn time_mark_from(s: Seq<char>, i: int) -> int
    decreases s.len() - i,
{
    if i >= s.len() {
        s.len() as int
    } else if s[i] == 'T' {
        i
    } else {
        time_mark_from(s, i + 1)
    }
}

/// The date part of an ISO 8601 date and time: everything before the `T`.
pub open spec fn date_part(iso: Seq<char>) -> Seq<char> {
    iso.subrange(0, time_mark_from(iso, 0))
}

/// The date part of an ISO 8601 date and time.
pub fn iso_date_part(iso: &str) -> (res: String)
    ensures
        res@ == date_part(iso@),
{
    let n = iso.unicode_len();
    let mut end: usize = 0;
    while end < n && iso.get_char(end) != 'T'
        invariant
            n == iso@.len(),
            end <= n,
            time_mark_from(iso@, 0) == time_mark_from(iso@, end as int),
        decreases n - end,
    {
        end = end + 1;
    }
    String::from_str(iso.substring_char(0, end))
}

/// The events shown when no API key is configured: a pub in an hour, a
/// section meeting tomorrow and an all-day exam the day after. The
/// arguments are those three moments in ISO 8601.
pub fn mock_events(in_one_hour: String, in_one_day: String, in_two_days: &str) -> (res: Vec<CalendarEvent>)
    ensures
        res@.len() == 3,
        res@[0].summary@ == "Pub"@ && opt_chars(res@[0].location) == Some("Konsulatet"@),
        res@[0].date_time == Some(in_one_hour) && res@[0].all_day_date is None,
        res@[1].summary@ == "Sektionsmöte"@ && opt_chars(res@[1].location) == Some("T-Centralen"@),
        res@[1].date_time == Some(in_one_day) && res@[1].all_day_date is None,
        res@[2].summary@ == "Tentamen i Kvantfysik"@ && opt_chars(res@[2].location) == Some("FA32"@),
        res@[2].date_time is None && opt_chars(res@[2].all_day_date) == Some(date_part(in_two_days@)),
{
    let mut events: Vec<CalendarEvent> = Vec::new();
    events.push(
        CalendarEvent {
            summary: String::from_str("Pub"),
            location: Some(String::from_str("Konsulatet")),
            date_time: Some(in_one_hour),
            all_day_date: None,
        },
    );
    events.push(
        CalendarEvent {
            summary: String::from_str("Sektionsmöte"),
            location: Some(String::from_str("T-Centralen")),
            date_time: Some(in_one_day),
            all_day_date: None,
        },
    );
    events.push(
        CalendarEvent {
            summary: String::from_str("Tentamen i Kvantfysik"),
            location: Some(String::from_str("FA32")),
            date_time: None,
            all_day_date: Some(iso_date_part(in_two_days)),
        },
    );
    events
}

/// What the calendar knows: the events last fetched, whether the first
/// fetch is still running, and whether the last fetch failed.
pub struct CalendarState {
    pub events: Vec<CalendarEvent>,
    pub loading: bool,
    pub error: bool,
}

/// The calendar before its first fetch: loading, without events.
pub fn calendar_start() -> (res: CalendarState)
    ensures
        res.events@.len() == 0,
        res.loading,
        !res.error,
{
    CalendarState { events: Vec::new(), loading: true, error: false }
}

/// What one fetch of the calendar gave.
pub enum CalendarFetch {
    /// No API key is configured; these are the mock events.
    Mock(Vec<CalendarEvent>),
    /// The Google Calendar API answered with these events, or failed.
    Fetched(Result<Vec<CalendarEvent>, String>),
}

/// The calendar after a fetch: it is no longer loading; mock events and
/// fetched ones replace the events (a successful fetch also clears the
/// error); a failed fetch keeps the events and marks the error.
pub fn calendar_refreshed(state: CalendarState, fetch: CalendarFetch) -> (res: CalendarState)
    ensures
        !res.loading,
        fetch matches CalendarFetch::Mock(evs) ==> res.events == evs && res.error == state.error,
        fetch matches CalendarFetch::Fetched(Ok(evs)) ==> res.events == evs && !res.error,
        fetch matches CalendarFetch::Fetched(Err(_)) ==> res.events == state.events && res.error,
{
    match fetch {
        CalendarFetch::Mock(evs) => CalendarState { events: evs, loading: false, error: state.error },
        CalendarFetch::Fetched(Ok(evs)) => CalendarState { events: evs, loading: false, error: false },
        CalendarFetch::Fetched(Err(_)) => CalendarState { events: state.events, loading: false, error: true },
    }
}

/// What the calendar shows.
#[derive(Debug, Clone, Copy, PartialEq, Eq, Structural)]
pub enum CalendarDisplay {
    /// "Laddar kalender..."
    Loading,
    /// "Kunde inte hämta kalender"
    Error,
    /// "Inga kommande händelser"
    NoEvents,
    /// The events, one card each.
    Events,
}

/// What the calendar shows: loading first, then the error if the last fetch
/// failed, then the events or a note that there are none.
pub fn calendar_display(state: &CalendarState) -> (res: CalendarDisplay)
    ensures
        res == (if state.loading {
            CalendarDisplay::Loading
        } else if state.error {
            CalendarDisplay::Error
        } else if state.events@.len() == 0 {
            CalendarDisplay::NoEvents
        } else {
            CalendarDisplay::Events
        }),
{
    if state.loading {
        CalendarDisplay::Loading
    } else if state.error {
        CalendarDisplay::Error
    } else if state.events.len() == 0 {
        CalendarDisplay::NoEvents
    } else {
        CalendarDisplay::Events
    }
}

} // verus!
