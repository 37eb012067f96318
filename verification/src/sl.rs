//! SL (Stockholm public transport) departure board: reading the departures
//! SL's API reports, and choosing which of them each card of the board
//! shows.

use vstd::prelude::*;

use crate::text::{decimal, decimal_string, str_eq};

verus! {

/// Site ids of the stops tracked on the board: Tekniska högskolan and
/// Östra station.
pub const TRACKED_SITES: [u32; 2] = [9204, 9600];

/// Site id of Tekniska högskolan.
pub const TEKNISKA_HSK: u32 = 9204;

/// How often the departures are fetched again, in milliseconds.
pub const POLL_INTERVAL_MS: i32 = 5000;

/// Number of upcoming departures shown per card (one next-departure
/// headline plus a few more in the smaller "future departures" line).
pub const DEPARTURE_COUNT: usize = 4;

/// How a line travels.
#[derive(Debug, Clone, Copy, PartialEq, Eq, Structural)]
pub enum SlTransportMode {
    Train,
    Metro,
    Bus,
    Tram,
    Ferry,
    Ship,
    Taxi,
}

/// The group of lines a line belongs to, which decides its badge colour.
#[derive(Debug, Clone, Copy, PartialEq, Eq, Structural)]
pub enum SlLineGroup {
    Train,
    RedMetro,
    GreenMetro,
    BlueMetro,
    Bus,
    BlueBus,
    CityLine,
    RoslagenLine,
}

/// The transport mode SL's API names by `s`, if any.
pub open spec fn transport_mode_named(s: Seq<char>) -> Option<SlTransportMode> {
    if s == "TRAIN"@ {
        Some(SlTransportMode::Train)
    } else if s == "METRO"@ {
        Some(SlTransportMode::Metro)
    } else if s == "BUS"@ {
        Some(SlTransportMode::Bus)
    } else if s == "TRAM"@ {
        Some(SlTransportMode::Tram)
    } else if s == "FERRY"@ {
        Some(SlTransportMode::Ferry)
    } else if s == "SHIP"@ {
        Some(SlTransportMode::Ship)
    } else if s == "TAXI"@ {
        Some(SlTransportMode::Taxi)
    } else {
        None
    }
}

/// The line group SL's API names by `s`, if any.
pub open spec fn line_group_named(s: Seq<char>) -> Option<SlLineGroup> {
    if s == "Pendeltåg"@ {
        Some(SlLineGroup::Train)
    } else if s == "Tunnelbanans röda linje"@ {
        Some(SlLineGroup::RedMetro)
    } else if s == "Tunnelbanans gröna linje"@ {
        Some(SlLineGroup::GreenMetro)
    } else if s == "Tunnelbanans blå linje"@ {
        Some(SlLineGroup::BlueMetro)
    } else if s == "Buss"@ {
        Some(SlLineGroup::Bus)
    } else if s == "Blåbuss"@ {
        Some(SlLineGroup::BlueBus)
    } else if s == "Spårväg City"@ {
        Some(SlLineGroup::CityLine)
    } else if s == "Roslagsbanan"@ {
        Some(SlLineGroup::RoslagenLine)
    } else {
        None
    }
}

/// The name SL's API gives a transport mode.
pub open spec fn transport_mode_sl_name(mode: SlTransportMode) -> Seq<char> {
    match mode {
        SlTransportMode::Train => "TRAIN"@,
        SlTransportMode::Metro => "METRO"@,
        SlTransportMode::Bus => "BUS"@,
        SlTransportMode::Tram => "TRAM"@,
        SlTransportMode::Ferry => "FERRY"@,
        SlTransportMode::Ship => "SHIP"@,
        SlTransportMode::Taxi => "TAXI"@,
    }
}

/// The name SL's API gives a line group.
pub open spec fn line_group_sl_name(line_group: SlLineGroup) -> Seq<char> {
    match line_group {
        SlLineGroup::Train => "Pendeltåg"@,
        SlLineGroup::RedMetro => "Tunnelbanans röda linje"@,
        SlLineGroup::GreenMetro => "Tunnelbanans gröna linje"@,
        SlLineGroup::BlueMetro => "Tunnelbanans blå linje"@,
        SlLineGroup::Bus => "Buss"@,
        SlLineGroup::BlueBus => "Blåbuss"@,
        SlLineGroup::CityLine => "Spårväg City"@,
        SlLineGroup::RoslagenLine => "Roslagsbanan"@,
    }
}

/// Each transport mode's SL name reads back as that mode, and a name is
/// read as a mode only if it is that mode's SL name: reading modes is the
/// inverse of naming them.
pub proof fn lemma_transport_mode_names(s: Seq<char>, mode: SlTransportMode)
    ensures
        transport_mode_named(transport_mode_sl_name(mode)) == Some(mode),
        transport_mode_named(s) == Some(mode) ==> s == transport_mode_sl_name(mode),
{
    reveal_strlit("TRAIN");
    reveal_strlit("METRO");
    reveal_strlit("BUS");
    reveal_strlit("TRAM");
    reveal_strlit("FERRY");
    reveal_strlit("SHIP");
    reveal_strlit("TAXI");
    match mode {
        SlTransportMode::Train => {
        },
        SlTransportMode::Metro => {
            assert("METRO"@[0] != "TRAIN"@[0]);
        },
        SlTransportMode::Bus => {
            assert("BUS"@.len() != "TRAIN"@.len());
            assert("BUS"@.len() != "METRO"@.len());
        },
        SlTransportMode::Tram => {
            assert("TRAM"@.len() != "TRAIN"@.len());
            assert("TRAM"@.len() != "METRO"@.len());
            assert("TRAM"@.len() != "BUS"@.len());
        },
        SlTransportMode::Ferry => {
            assert("FERRY"@[0] != "TRAIN"@[0]);
            assert("FERRY"@[0] != "METRO"@[0]);
            assert("FERRY"@.len() != "BUS"@.len());
            assert("FERRY"@.len() != "TRAM"@.len());
        },
        SlTransportMode::Ship => {
            assert("SHIP"@.len() != "TRAIN"@.len());
            assert("SHIP"@.len() != "METRO"@.len());
            assert("SHIP"@.len() != "BUS"@.len());
            assert("SHIP"@[0] != "TRAM"@[0]);
            assert("SHIP"@.len() != "FERRY"@.len());
        },
        SlTransportMode::Taxi => {
            assert("TAXI"@.len() != "TRAIN"@.len());
            assert("TAXI"@.len() != "METRO"@.len());
            assert("TAXI"@.len() != "BUS"@.len());
            assert("TAXI"@[1] != "TRAM"@[1]);
            assert("TAXI"@.len() != "FERRY"@.len());
            assert("TAXI"@[0] != "SHIP"@[0]);
        },
    }
}

/// Each line group's SL name reads back as that group, and a name is read
/// as a group only if it is that group's SL name: `"Roslagsbanan"` is read
/// as the Roslagsbanan group and nothing else is.
pub proof fn lemma_line_group_names(s: Seq<char>, line_group: SlLineGroup)
    ensures
        line_group_named(line_group_sl_name(line_group)) == Some(line_group),
        line_group_named(s) == Some(line_group) ==> s == line_group_sl_name(line_group),
{
    reveal_strlit("Pendeltåg");
    reveal_strlit("Tunnelbanans röda linje");
    reveal_strlit("Tunnelbanans gröna linje");
    reveal_strlit("Tunnelbanans blå linje");
    reveal_strlit("Buss");
    reveal_strlit("Blåbuss");
    reveal_strlit("Spårväg City");
    reveal_strlit("Roslagsbanan");
    match line_group {
        SlLineGroup::Train => {
        },
        SlLineGroup::RedMetro => {
            assert("Tunnelbanans röda linje"@.len() != "Pendeltåg"@.len());
        },
        SlLineGroup::GreenMetro => {
            assert("Tunnelbanans gröna linje"@.len() != "Pendeltåg"@.len());
            assert("Tunnelbanans gröna linje"@.len() != "Tunnelbanans röda linje"@.len());
        },
        SlLineGroup::BlueMetro => {
            assert("Tunnelbanans blå linje"@.len() != "Pendeltåg"@.len());
            assert("Tunnelbanans blå linje"@.len() != "Tunnelbanans röda linje"@.len());
            assert("Tunnelbanans blå linje"@.len() != "Tunnelbanans gröna linje"@.len());
        },
        SlLineGroup::Bus => {
            assert("Buss"@.len() != "Pendeltåg"@.len());
            assert("Buss"@.len() != "Tunnelbanans röda linje"@.len());
            assert("Buss"@.len() != "Tunnelbanans gröna linje"@.len());
            assert("Buss"@.len() != "Tunnelbanans blå linje"@.len());
        },
        SlLineGroup::BlueBus => {
            assert("Blåbuss"@.len() != "Pendeltåg"@.len());
            assert("Blåbuss"@.len() != "Tunnelbanans röda linje"@.len());
            assert("Blåbuss"@.len() != "Tunnelbanans gröna linje"@.len());
            assert("Blåbuss"@.len() != "Tunnelbanans blå linje"@.len());
            assert("Blåbuss"@.len() != "Buss"@.len());
        },
        SlLineGroup::CityLine => {
            assert("Spårväg City"@.len() != "Pendeltåg"@.len());
            assert("Spårväg City"@.len() != "Tunnelbanans röda linje"@.len());
            assert("Spårväg City"@.len() != "Tunnelbanans gröna linje"@.len());
            assert("Spårväg City"@.len() != "Tunnelbanans blå linje"@.len());
            assert("Spårväg City"@.len() != "Buss"@.len());
            assert("Spårväg City"@.len() != "Blåbuss"@.len());
        },
        SlLineGroup::RoslagenLine => {
            assert("Roslagsbanan"@.len() != "Pendeltåg"@.len());
            assert("Roslagsbanan"@.len() != "Tunnelbanans röda linje"@.len());
            assert("Roslagsbanan"@.len() != "Tunnelbanans gröna linje"@.len());
            assert("Roslagsbanan"@.len() != "Tunnelbanans blå linje"@.len());
            assert("Roslagsbanan"@.len() != "Buss"@.len());
            assert("Roslagsbanan"@.len() != "Blåbuss"@.len());
            assert("Roslagsbanan"@[0] != "Spårväg City"@[0]);
        },
    }
}

impl SlTransportMode {
    /// Reads a transport mode as SL's API writes it (`"TRAIN"`, `"METRO"`,
    /// ...); anything else is refused with `"Unexpected transport mode "`
    /// followed by the text.
    pub fn try_from(s: &str) -> (res: Result<SlTransportMode, String>)
        ensures
            transport_mode_named(s@) matches Some(m) ==> res == Ok::<SlTransportMode, String>(m),
            res matches Ok(m) ==> s@ == transport_mode_sl_name(m),
            transport_mode_named(s@) is None ==> (res matches Err(e) && e@ == "Unexpected transport mode "@
                + s@),
    {
        if str_eq(s, "TRAIN") {
            Ok(SlTransportMode::Train)
        } else if str_eq(s, "METRO") {
            Ok(SlTransportMode::Metro)
        } else if str_eq(s, "BUS") {
            Ok(SlTransportMode::Bus)
        } else if str_eq(s, "TRAM") {
            Ok(SlTransportMode::Tram)
        } else if str_eq(s, "FERRY") {
            Ok(SlTransportMode::Ferry)
        } else if str_eq(s, "SHIP") {
            Ok(SlTransportMode::Ship)
        } else if str_eq(s, "TAXI") {
            Ok(SlTransportMode::Taxi)
        } else {
            Err(String::from_str("Unexpected transport mode ").concat(s))
        }
    }
}

impl SlLineGroup {
    /// Reads a line group as SL's API names it (`"Pendeltåg"`,
    /// `"Tunnelbanans röda linje"`, ...); anything else is refused with
    /// `"Unexpected line group "` followed by the text.
    pub fn try_from(s: &str) -> (res: Result<SlLineGroup, String>)
        ensures
            line_group_named(s@) matches Some(g) ==> res == Ok::<SlLineGroup, String>(g),
            res matches Ok(g) ==> s@ == line_group_sl_name(g),
            line_group_named(s@) is None ==> (res matches Err(e) && e@ == "Unexpected line group "@ + s@),
    {
        if str_eq(s, "Pendeltåg") {
            Ok(SlLineGroup::Train)
        } else if str_eq(s, "Tunnelbanans röda linje") {
            Ok(SlLineGroup::RedMetro)
        } else if str_eq(s, "Tunnelbanans gröna linje") {
            Ok(SlLineGroup::GreenMetro)
        } else if str_eq(s, "Tunnelbanans blå linje") {
            Ok(SlLineGroup::BlueMetro)
        } else if str_eq(s, "Buss") {
            Ok(SlLineGroup::Bus)
        } else if str_eq(s, "Blåbuss") {
            Ok(SlLineGroup::BlueBus)
        } else if str_eq(s, "Spårväg City") {
            Ok(SlLineGroup::CityLine)
        } else if str_eq(s, "Roslagsbanan") {
            Ok(SlLineGroup::RoslagenLine)
        } else {
            Err(String::from_str("Unexpected line group ").concat(s))
        }
    }
}


/// One upcoming departure, as shown on the board.
#[derive(Debug, Clone)]
pub struct SlDeparture {
    pub site_id: u32,
    pub transport_mode: SlTransportMode,
    pub line_group: SlLineGroup,
    pub line_id: i64,
    pub direction_code: i64,
    pub stop_point_name: String,
    pub stop_point_designation: String,
    pub destination: String,
    pub via: Option<String>,
    pub line_designation: String,
    pub display_time: String,
}

/// A departure as SL's API reports it.
#[derive(Debug)]
pub struct RawDeparture {
    pub destination: String,
    pub via: Option<String>,
    pub direction_code: i64,
    pub display: String,
    pub expected: String,
    pub journey: RawJourney,
    pub stop_point: RawStopPoint,
    pub line: RawLine,
}

/// The journey a reported departure belongs to.
#[derive(Debug)]
pub struct RawJourney {
    pub id: i64,
}

/// The stop point a reported departure leaves from.
#[derive(Debug)]
pub struct RawStopPoint {
    pub name: String,
    pub designation: Option<String>,
}

/// The line of a reported departure.
#[derive(Debug)]
pub struct RawLine {
    pub id: i64,
    pub designation: String,
    pub transport_mode: String,
    pub group_of_lines: Option<String>,
}

/// The line group a reported departure is shown with: the one its report
/// names, or an ordinary bus line for a bus reported without one; `None`
/// when neither applies.
pub open spec fn line_group_of(raw: RawDeparture) -> Option<SlLineGroup> {
    match raw.line.group_of_lines {
        Some(g) => line_group_named(g@),
        None => if transport_mode_named(raw.line.transport_mode@) == Some(SlTransportMode::Bus) {
            Some(SlLineGroup::Bus)
        } else {
            None
        },
    }
}

fn unwrap_or_empty(s: Option<String>) -> (res: String)
    ensures
        s matches Some(v) ==> res == v,
        s is None ==> res@ == Seq::<char>::empty(),
{
    match s {
        Some(v) => v,
        None => String::new(),
    }
}

/// Why a reported departure cannot be shown: an unknown transport mode,
/// an unknown line group, or no line group for a line that is not a bus.
pub open spec fn departure_refusal(raw: RawDeparture) -> Option<Seq<char>> {
    if transport_mode_named(raw.line.transport_mode@) is None {
        Some("Unexpected transport mode "@ + raw.line.transport_mode@)
    } else if line_group_of(raw) is None {
        match raw.line.group_of_lines {
            Some(g) => Some("Unexpected line group "@ + g@),
            None => Some("Expected line group"@),
        }
    } else {
        None
    }
}

/// `d` is how the board shows the reported departure `raw` of the site
/// `site_id`.
pub open spec fn board_departure(d: SlDeparture, raw: RawDeparture, site_id: u32) -> bool {
    &&& d.site_id == site_id
    &&& Some(d.transport_mode) == transport_mode_named(raw.line.transport_mode@)
    &&& Some(d.line_group) == line_group_of(raw)
    &&& d.line_id == raw.line.id
    &&& d.direction_code == raw.direction_code
    &&& d.stop_point_name == raw.stop_point.name
    &&& d.stop_point_designation@ == (match raw.stop_point.designation {
        Some(x) => x@,
        None => Seq::<char>::empty(),
    })
    &&& d.destination == raw.destination
    &&& d.via == raw.via
    &&& d.line_designation == raw.line.designation
    &&& d.display_time == raw.display
}

/// A departure on the board keeps what was reported for it: it goes to the
/// reported destination (not to the stop it leaves from), leaves from the
/// reported stop at the reported time, on the reported line and direction,
/// from the site it was fetched for, with the transport mode SL named.
pub proof fn lemma_board_departure_keeps_report(d: SlDeparture, raw: RawDeparture, site_id: u32)
    requires
        board_departure(d, raw, site_id),
    ensures
        d.destination == raw.destination,
        d.stop_point_name == raw.stop_point.name,
        d.display_time == raw.display,
        d.site_id == site_id,
        d.line_id == raw.line.id,
        d.direction_code == raw.direction_code,
        d.via == raw.via,
        d.line_designation == raw.line.designation,
        raw.line.transport_mode@ == transport_mode_sl_name(d.transport_mode),
{
    lemma_transport_mode_names(raw.line.transport_mode@, d.transport_mode);
}

/// Turns a departure reported by SL's API at the site `site_id` into one
/// for the board. The transport mode must be known; so must the line group,
/// except that a bus without one counts as an ordinary bus.
pub fn parse_departure(raw: RawDeparture, site_id: u32) -> (res: Result<SlDeparture, String>)
    ensures
        departure_refusal(raw) matches Some(m) ==> (res matches Err(e) && e@ == m),
        departure_refusal(raw) is None ==> (res matches Ok(d) && board_departure(d, raw, site_id)),
        res matches Ok(d) ==> {
            &&& d.destination == raw.destination
            &&& d.stop_point_name == raw.stop_point.name
            &&& d.display_time == raw.display
            &&& d.site_id == site_id
            &&& d.line_id == raw.line.id
            &&& d.direction_code == raw.direction_code
            &&& d.via == raw.via
            &&& d.line_designation == raw.line.designation
            &&& raw.line.transport_mode@ == transport_mode_sl_name(d.transport_mode)
        },
{
    let transport_mode = match SlTransportMode::try_from(raw.line.transport_mode.as_str()) {
        Ok(m) => m,
        Err(e) => return Err(e),
    };
    let line_group = match &raw.line.group_of_lines {
        Some(g) => match SlLineGroup::try_from(g.as_str()) {
            Ok(lg) => lg,
            Err(e) => return Err(e),
        },
        None => if transport_mode == SlTransportMode::Bus {
            SlLineGroup::Bus
        } else {
            return Err(String::from_str("Expected line group"));
        },
    };
    Ok(
        SlDeparture {
            site_id,
            transport_mode,
            line_group,
            line_id: raw.line.id,
            direction_code: raw.direction_code,
            stop_point_name: raw.stop_point.name,
            stop_point_designation: unwrap_or_empty(raw.stop_point.designation),
            destination: raw.destination,
            via: raw.via,
            line_designation: raw.line.designation,
            display_time: raw.display,
        },
    )
}

/// `shown` and `refused` are what one site's answer gives, in order: the
/// board's departures for the reported ones that can be shown and leave far
/// enough ahead (the flag beside each), and the refusal of each one that
/// cannot be shown.
pub open spec fn site_departures(
    shown: Seq<SlDeparture>,
    refused: Seq<String>,
    answer: Seq<(RawDeparture, bool)>,
    site_id: u32,
) -> bool
    decreases answer.len(),
{
    if answer.len() == 0 {
        shown.len() == 0 && refused.len() == 0
    } else {
        let raw = answer.last().0;
        let ahead = answer.last().1;
        match departure_refusal(raw) {
            Some(m) => refused.len() > 0 && refused.last()@ == m && site_departures(
                shown,
                refused.drop_last(),
                answer.drop_last(),
                site_id,
            ),
            None => if ahead {
                shown.len() > 0 && board_departure(shown.last(), raw, site_id) && site_departures(
                    shown.drop_last(),
                    refused,
                    answer.drop_last(),
                    site_id,
                )
            } else {
                site_departures(shown, refused, answer.drop_last(), site_id)
            },
        }
    }
}

/// Adds what one site's answer gives to the board's departures and to the
/// refusals to log: each reported departure (with whether it leaves far
/// enough ahead to be shown) is read; those that can be shown and leave far
/// enough ahead are appended, in order, and the refusal of each one that
/// cannot be shown is appended to `refused`.
pub fn add_site_departures(
    all: &mut Vec<SlDeparture>,
    refused: &mut Vec<String>,
    site_id: u32,
    answer: Vec<(RawDeparture, bool)>,
)
    ensures
        final(all)@.len() >= old(all)@.len(),
        final(all)@.take(old(all)@.len() as int) == old(all)@,
        final(refused)@.len() >= old(refused)@.len(),
        final(refused)@.take(old(refused)@.len() as int) == old(refused)@,
        site_departures(
            final(all)@.skip(old(all)@.len() as int),
            final(refused)@.skip(old(refused)@.len() as int),
            answer@,
            site_id,
        ),
{
    let ghost all0 = all@;
    let ghost refused0 = refused@;
    let ghost whole = answer@;
    let mut rest = answer;
    let n = rest.len();
    let mut i: usize = 0;
    assert(whole.take(0) =~= Seq::<(RawDeparture, bool)>::empty());
    assert(all@.skip(all0.len() as int) =~= Seq::<SlDeparture>::empty());
    assert(refused@.skip(refused0.len() as int) =~= Seq::<String>::empty());
    while rest.len() > 0
        invariant
            n == whole.len(),
            i <= whole.len(),
            rest@ == whole.skip(i as int),
            all@.len() >= all0.len(),
            all@.take(all0.len() as int) == all0,
            refused@.len() >= refused0.len(),
            refused@.take(refused0.len() as int) == refused0,
            site_departures(
                all@.skip(all0.len() as int),
                refused@.skip(refused0.len() as int),
                whole.take(i as int),
                site_id,
            ),
        decreases rest.len(),
    {
        let ghost before_all = all@;
        let ghost before_refused = refused@;
        let (raw, ahead) = rest.remove(0);
        let ghost item = whole[i as int];
        assert(item == (raw, ahead)) by {
            assert(whole.skip(i as int)[0] == whole[i as int]);
        }
        assert(whole.take(i + 1).drop_last() =~= whole.take(i as int));
        assert(whole.take(i + 1).last() == item);
        match parse_departure(raw, site_id) {
            Ok(d) => {
                if ahead {
                    all.push(d);
                    assert(all@.skip(all0.len() as int).drop_last() =~= before_all.skip(all0.len() as int));
                    assert(all@.skip(all0.len() as int).last() == d);
                    assert(all@.take(all0.len() as int) =~= before_all.take(all0.len() as int));
                }
            },
            Err(e) => {
                refused.push(e);
                assert(refused@.skip(refused0.len() as int).drop_last() =~= before_refused.skip(
                    refused0.len() as int,
                ));
                assert(refused@.skip(refused0.len() as int).last() == e);
                assert(refused@.take(refused0.len() as int) =~= before_refused.take(refused0.len() as int));
            },
        }
        assert(rest@ =~= whole.skip(i + 1));
        i = i + 1;
    }
    assert(whole.take(i as int) =~= whole);
}

/// Where the board fetches the departures of a site.
pub open spec fn departures_url_for(site_id: u32) -> Seq<char> {
    "https://transport.integration.sl.se/v1/sites/"@ + decimal(site_id as nat) + "/departures"@
}

/// Where the board fetches the departures of the site `site_id`.
pub fn departures_url(site_id: u32) -> (res: String)
    ensures
        res@ == departures_url_for(site_id),
{
    let mut url = String::from_str("https://transport.integration.sl.se/v1/sites/");
    let id = decimal_string(site_id as u64);
    url.append(id.as_str());
    url.append("/departures");
    url
}


/// The departure is from the site, in the direction, of the transport mode
/// and on the line given.
pub open spec fn departure_matches(
    d: SlDeparture,
    site_id: u32,
    direction_code: i64,
    transport_mode: SlTransportMode,
    line_id: i64,
) -> bool {
    d.site_id == site_id && d.direction_code == direction_code && d.transport_mode == transport_mode
        && d.line_id == line_id
}

/// At most the first `DEPARTURE_COUNT` elements of `s`.
pub open spec fn first_few(s: Seq<SlDeparture>) -> Seq<SlDeparture> {
    if s.len() <= DEPARTURE_COUNT {
        s
    } else {
        s.take(DEPARTURE_COUNT as int)
    }
}

/// The departures one card shows: the first few of those that match, in
/// the order they were reported.
pub open spec fn selected_departures(
    ds: Seq<SlDeparture>,
    site_id: u32,
    direction_code: i64,
    transport_mode: SlTransportMode,
    line_id: i64,
) -> Seq<SlDeparture> {
    first_few(ds.filter(|d: SlDeparture| departure_matches(d, site_id, direction_code, transport_mode, line_id)))
}

fn copy_departure(d: &SlDeparture) -> (res: SlDeparture)
    ensures
        res == *d,
{
    SlDeparture {
        site_id: d.site_id,
        transport_mode: d.transport_mode,
        line_group: d.line_group,
        line_id: d.line_id,
        direction_code: d.direction_code,
        stop_point_name: d.stop_point_name.clone(),
        stop_point_designation: d.stop_point_designation.clone(),
        destination: d.destination.clone(),
        via: match &d.via {
            Some(v) => Some(v.clone()),
            None => None,
        },
        line_designation: d.line_designation.clone(),
        display_time: d.display_time.clone(),
    }
}

/// The first `DEPARTURE_COUNT` departures from the site `site_id` in the
/// direction `direction_code` of the line `line_id` with the given
/// transport mode, in the order they were reported.
pub fn filter_departures(
    departures: &[SlDeparture],
    site_id: u32,
    direction_code: i64,
    transport_mode: SlTransportMode,
    line_id: i64,
) -> (res: Vec<SlDeparture>)
    ensures
        res@ == selected_departures(departures@, site_id, direction_code, transport_mode, line_id),
{
    let ghost pred = |d: SlDeparture| departure_matches(d, site_id, direction_code, transport_mode, line_id);
    let mut out: Vec<SlDeparture> = Vec::new();
    let n = departures.len();
    let mut i: usize = 0;
    assert(departures@.take(0).filter(pred) =~= Seq::<SlDeparture>::empty()) by {
        reveal(Seq::filter);
    }
    while i < n
        invariant
            n == departures@.len(),
            i <= n,
            out@ == first_few(departures@.take(i as int).filter(pred)),
            pred == (|d: SlDeparture| departure_matches(d, site_id, direction_code, transport_mode, line_id)),
        decreases n - i,
    {
        let d = &departures[i];
        let ghost prev = departures@.take(i as int).filter(pred);
        assert(departures@.take(i + 1).drop_last() =~= departures@.take(i as int));
        assert(departures@.take(i + 1).filter(pred) == if pred(departures@[i as int]) {
            prev.push(departures@[i as int])
        } else {
            prev
        }) by {
            reveal(Seq::filter);
        }
        if d.site_id == site_id && d.direction_code == direction_code && d.transport_mode
            == transport_mode && d.line_id == line_id {
            if out.len() < DEPARTURE_COUNT {
                out.push(copy_departure(d));
                assert(out@ =~= first_few(prev.push(departures@[i as int])));
            } else {
                assert(first_few(prev.push(departures@[i as int])) =~= first_few(prev));
            }
        }
        i = i + 1;
    }
    assert(departures@.take(n as int) =~= departures@);
    out
}


/// What `filter_departures` selects are departures of the input that match,
/// at most `DEPARTURE_COUNT` of them.
pub proof fn lemma_selected_departures_match(
    ds: Seq<SlDeparture>,
    site_id: u32,
    direction_code: i64,
    transport_mode: SlTransportMode,
    line_id: i64,
)
    ensures
        ({
            let sel = selected_departures(ds, site_id, direction_code, transport_mode, line_id);
            &&& sel.len() <= DEPARTURE_COUNT
            &&& sel.len() <= ds.len()
            &&& forall|k: int|
                0 <= k < sel.len() ==> #[trigger] departure_matches(
                    sel[k],
                    site_id,
                    direction_code,
                    transport_mode,
                    line_id,
                ) && ds.contains(sel[k])
        }),
{
    let pred = |d: SlDeparture| departure_matches(d, site_id, direction_code, transport_mode, line_id);
    let f = ds.filter(pred);
    ds.lemma_filter_len(pred);
    let sel = selected_departures(ds, site_id, direction_code, transport_mode, line_id);
    assert forall|k: int| 0 <= k < sel.len() implies #[trigger] departure_matches(
        sel[k],
        site_id,
        direction_code,
        transport_mode,
        line_id,
    ) && ds.contains(sel[k]) by {
        assert(sel[k] == f[k]);
        ds.lemma_filter_pred(pred, k);
        assert(f.contains(f[k]));
        ds.lemma_filter_contains_rev(pred, f[k]);
    }
}

/// What the departure board shows: for Tekniska högskolan, the metro's
/// line 14 in both directions and the Roslagsbanan lines 27, 28 and 29
/// towards the city.
pub struct DepartureBoard {
    pub metro_direction_1: Vec<SlDeparture>,
    pub metro_direction_2: Vec<SlDeparture>,
    pub tram_27: Vec<SlDeparture>,
    pub tram_28: Vec<SlDeparture>,
    pub tram_29: Vec<SlDeparture>,
}

/// The cards of the departure board; `None` while there are no departures
/// yet (the board then says it is loading).
pub fn departure_board(departures: &[SlDeparture]) -> (res: Option<DepartureBoard>)
    ensures
        res is None <==> departures@.len() == 0,
        res matches Some(b) ==> {
            &&& b.metro_direction_1@ == selected_departures(
                departures@,
                TEKNISKA_HSK,
                1,
                SlTransportMode::Metro,
                14,
            )
            &&& b.metro_direction_2@ == selected_departures(
                departures@,
                TEKNISKA_HSK,
                2,
                SlTransportMode::Metro,
                14,
            )
            &&& b.tram_27@ == selected_departures(departures@, TEKNISKA_HSK, 2, SlTransportMode::Tram, 27)
            &&& b.tram_28@ == selected_departures(departures@, TEKNISKA_HSK, 2, SlTransportMode::Tram, 28)
            &&& b.tram_29@ == selected_departures(departures@, TEKNISKA_HSK, 2, SlTransportMode::Tram, 29)
        },
{
    if departures.len() == 0 {
        return None;
    }
    Some(
        DepartureBoard {
            metro_direction_1: filter_departures(departures, TEKNISKA_HSK, 1, SlTransportMode::Metro, 14),
            metro_direction_2: filter_departures(departures, TEKNISKA_HSK, 2, SlTransportMode::Metro, 14),
            tram_27: filter_departures(departures, TEKNISKA_HSK, 2, SlTransportMode::Tram, 27),
            tram_28: filter_departures(departures, TEKNISKA_HSK, 2, SlTransportMode::Tram, 28),
            tram_29: filter_departures(departures, TEKNISKA_HSK, 2, SlTransportMode::Tram, 29),
        },
    )
}

/// The texts joined with `", "` between them.
pub open spec fn joined(ts: Seq<Seq<char>>) -> Seq<char>
    decreases ts.len(),
{
    if ts.len() == 0 {
        Seq::empty()
    } else if ts.len() == 1 {
        ts[0]
    } else {
        joined(ts.drop_last()) + ", "@ + ts.last()
    }
}

/// The display times of the departures, in order.
pub open spec fn display_times(ds: Seq<SlDeparture>) -> Seq<Seq<char>> {
    ds.map_values(|d: SlDeparture| d.display_time@)
}

/// What one card of the board shows: the next departure's line, where it
/// goes and when, and when the following ones leave.
pub struct DepartureCard {
    pub transport_mode: SlTransportMode,
    pub line_group: SlLineGroup,
    pub line_designation: String,
    pub destination: String,
    pub next_departure: String,
    pub future_departures: String,
}

/// The card for the given departures; `None` when there are none (the card
/// then shows a dash).
pub fn departure_card(departures: &[SlDeparture]) -> (res: Option<DepartureCard>)
    ensures
        res is None <==> departures@.len() == 0,
        res matches Some(c) ==> {
            let first = departures@[0];
            &&& c.transport_mode == first.transport_mode
            &&& c.line_group == first.line_group
            &&& c.line_designation == first.line_designation
            &&& c.destination == first.destination
            &&& c.next_departure == first.display_time
            &&& c.future_departures@ == joined(display_times(departures@.drop_first()))
        },
{
    let n = departures.len();
    if n == 0 {
        return None;
    }
    let first = &departures[0];
    let mut future = String::new();
    let mut i: usize = 1;
    while i < n
        invariant
            n == departures@.len(),
            1 <= i <= n,
            future@ == joined(display_times(departures@.subrange(1, i as int))),
        decreases n - i,
    {
        let ghost before = departures@.subrange(1, i as int);
        assert(departures@.subrange(1, i + 1).drop_last() =~= before);
        assert(display_times(departures@.subrange(1, i + 1)).drop_last() =~= display_times(before));
        if i > 1 {
            future.append(", ");
        }
        future.append(departures[i].display_time.as_str());
        i = i + 1;
    }
    assert(departures@.subrange(1, n as int) =~= departures@.drop_first());
    Some(
        DepartureCard {
            transport_mode: first.transport_mode,
            line_group: first.line_group,
            line_designation: first.line_designation.clone(),
            destination: first.destination.clone(),
            next_departure: first.display_time.clone(),
            future_departures: future,
        },
    )
}

/// The CSS class of a line group's badge.
pub open spec fn badge_class_name(line_group: SlLineGroup) -> Seq<char> {
    match line_group {
        SlLineGroup::Train => "sl-line-badge-train"@,
        SlLineGroup::RedMetro => "sl-line-badge-red-metro"@,
        SlLineGroup::GreenMetro => "sl-line-badge-green-metro"@,
        SlLineGroup::BlueMetro => "sl-line-badge-blue-metro"@,
        SlLineGroup::Bus => "sl-line-badge-bus"@,
        SlLineGroup::BlueBus => "sl-line-badge-blue-bus"@,
        SlLineGroup::CityLine => "sl-line-badge-city-line"@,
        SlLineGroup::RoslagenLine => "sl-line-badge-roslagen-line"@,
    }
}

/// The name a line group has in this library.
pub open spec fn line_group_variant_name(line_group: SlLineGroup) -> Seq<char> {
    match line_group {
        SlLineGroup::Train => "Train"@,
        SlLineGroup::RedMetro => "RedMetro"@,
        SlLineGroup::GreenMetro => "GreenMetro"@,
        SlLineGroup::BlueMetro => "BlueMetro"@,
        SlLineGroup::Bus => "Bus"@,
        SlLineGroup::BlueBus => "BlueBus"@,
        SlLineGroup::CityLine => "CityLine"@,
        SlLineGroup::RoslagenLine => "RoslagenLine"@,
    }
}

/// An ASCII capital letter.
pub open spec fn is_ascii_upper(c: char) -> bool {
    'A' <= c <= 'Z'
}

/// The lower-case form of an ASCII capital letter.
pub open spec fn ascii_lower(c: char) -> char {
    ((c as u32) + 32) as char
}

/// A camel-case name in kebab case: every capital letter lower-cased, and
/// preceded by `-` unless it starts the name.
pub open spec fn kebab_case(s: Seq<char>) -> Seq<char>
    decreases s.len(),
{
    if s.len() == 0 {
        s
    } else if is_ascii_upper(s.last()) {
        if s.len() > 1 {
            kebab_case(s.drop_last()) + seq!['-', ascii_lower(s.last())]
        } else {
            seq![ascii_lower(s.last())]
        }
    } else {
        kebab_case(s.drop_last()).push(s.last())
    }
}

proof fn lemma_kebab_train()
    ensures
        "sl-line-badge-"@ + kebab_case("Train"@) == "sl-line-badge-train"@,
{
    reveal_strlit("sl-line-badge-");
    reveal_strlit("Train");
    reveal_strlit("train");
    reveal_strlit("sl-line-badge-train");
    reveal_with_fuel(kebab_case, 6);
    assert(kebab_case("Train"@) =~= "train"@);
    assert("sl-line-badge-train"@ =~= "sl-line-badge-"@ + "train"@);
}

proof fn lemma_kebab_red_metro()
    ensures
        "sl-line-badge-"@ + kebab_case("RedMetro"@) == "sl-line-badge-red-metro"@,
{
    reveal_strlit("sl-line-badge-");
    reveal_strlit("RedMetro");
    reveal_strlit("red-metro");
    reveal_strlit("sl-line-badge-red-metro");
    reveal_with_fuel(kebab_case, 9);
    assert(kebab_case("RedMetro"@) =~= "red-metro"@);
    assert("sl-line-badge-red-metro"@ =~= "sl-line-badge-"@ + "red-metro"@);
}

proof fn lemma_kebab_green_metro()
    ensures
        "sl-line-badge-"@ + kebab_case("GreenMetro"@) == "sl-line-badge-green-metro"@,
{
    reveal_strlit("sl-line-badge-");
    reveal_strlit("GreenMetro");
    reveal_strlit("green-metro");
    reveal_strlit("sl-line-badge-green-metro");
    reveal_with_fuel(kebab_case, 11);
    assert(kebab_case("GreenMetro"@) =~= "green-metro"@);
    assert("sl-line-badge-green-metro"@ =~= "sl-line-badge-"@ + "green-metro"@);
}

proof fn lemma_kebab_blue_metro()
    ensures
        "sl-line-badge-"@ + kebab_case("BlueMetro"@) == "sl-line-badge-blue-metro"@,
{
    reveal_strlit("sl-line-badge-");
    reveal_strlit("BlueMetro");
    reveal_strlit("blue-metro");
    reveal_strlit("sl-line-badge-blue-metro");
    reveal_with_fuel(kebab_case, 10);
    assert(kebab_case("BlueMetro"@) =~= "blue-metro"@);
    assert("sl-line-badge-blue-metro"@ =~= "sl-line-badge-"@ + "blue-metro"@);
}

proof fn lemma_kebab_bus()
    ensures
        "sl-line-badge-"@ + kebab_case("Bus"@) == "sl-line-badge-bus"@,
{
    reveal_strlit("sl-line-badge-");
    reveal_strlit("Bus");
    reveal_strlit("bus");
    reveal_strlit("sl-line-badge-bus");
    reveal_with_fuel(kebab_case, 4);
    assert(kebab_case("Bus"@) =~= "bus"@);
    assert("sl-line-badge-bus"@ =~= "sl-line-badge-"@ + "bus"@);
}

proof fn lemma_kebab_blue_bus()
    ensures
        "sl-line-badge-"@ + kebab_case("BlueBus"@) == "sl-line-badge-blue-bus"@,
{
    reveal_strlit("sl-line-badge-");
    reveal_strlit("BlueBus");
    reveal_strlit("blue-bus");
    reveal_strlit("sl-line-badge-blue-bus");
    reveal_with_fuel(kebab_case, 8);
    assert(kebab_case("BlueBus"@) =~= "blue-bus"@);
    assert("sl-line-badge-blue-bus"@ =~= "sl-line-badge-"@ + "blue-bus"@);
}

proof fn lemma_kebab_city_line()
    ensures
        "sl-line-badge-"@ + kebab_case("CityLine"@) == "sl-line-badge-city-line"@,
{
    reveal_strlit("sl-line-badge-");
    reveal_strlit("CityLine");
    reveal_strlit("city-line");
    reveal_strlit("sl-line-badge-city-line");
    reveal_with_fuel(kebab_case, 9);
    assert(kebab_case("CityLine"@) =~= "city-line"@);
    assert("sl-line-badge-city-line"@ =~= "sl-line-badge-"@ + "city-line"@);
}

proof fn lemma_kebab_roslagen_line()
    ensures
        "sl-line-badge-"@ + kebab_case("RoslagenLine"@) == "sl-line-badge-roslagen-line"@,
{
    reveal_strlit("sl-line-badge-");
    reveal_strlit("RoslagenLine");
    reveal_strlit("roslagen-line");
    reveal_strlit("sl-line-badge-roslagen-line");
    reveal_with_fuel(kebab_case, 13);
    assert(kebab_case("RoslagenLine"@) =~= "roslagen-line"@);
    assert("sl-line-badge-roslagen-line"@ =~= "sl-line-badge-"@ + "roslagen-line"@);
}

/// Each line group's badge class names that group: `sl-line-badge-`
/// followed by the group's own name in kebab case (`RedMetro` gives
/// `sl-line-badge-red-metro`).
pub proof fn lemma_badge_class_names_group(line_group: SlLineGroup)
    ensures
        badge_class_name(line_group) == "sl-line-badge-"@ + kebab_case(line_group_variant_name(line_group)),
{
    match line_group {
        SlLineGroup::Train => lemma_kebab_train(),
        SlLineGroup::RedMetro => lemma_kebab_red_metro(),
        SlLineGroup::GreenMetro => lemma_kebab_green_metro(),
        SlLineGroup::BlueMetro => lemma_kebab_blue_metro(),
        SlLineGroup::Bus => lemma_kebab_bus(),
        SlLineGroup::BlueBus => lemma_kebab_blue_bus(),
        SlLineGroup::CityLine => lemma_kebab_city_line(),
        SlLineGroup::RoslagenLine => lemma_kebab_roslagen_line(),
    }
}

/// Distinct line groups get distinct badge classes.
pub proof fn lemma_badge_classes_distinct(a: SlLineGroup, b: SlLineGroup)
    requires
        a != b,
    ensures
        badge_class_name(a) != badge_class_name(b),
{
    reveal_strlit("sl-line-badge-train");
    reveal_strlit("sl-line-badge-red-metro");
    reveal_strlit("sl-line-badge-green-metro");
    reveal_strlit("sl-line-badge-blue-metro");
    reveal_strlit("sl-line-badge-bus");
    reveal_strlit("sl-line-badge-blue-bus");
    reveal_strlit("sl-line-badge-city-line");
    reveal_strlit("sl-line-badge-roslagen-line");
    if badge_class_name(a) == badge_class_name(b) {
        assert(badge_class_name(a).len() == badge_class_name(b).len());
        assert(badge_class_name(a)[14] == badge_class_name(b)[14]);
    }
}

/// The CSS class of a line group's badge.
pub fn badge_class(line_group: SlLineGroup) -> (res: &'static str)
    ensures
        res@ == badge_class_name(line_group),
{
    match line_group {
        SlLineGroup::Train => "sl-line-badge-train",
        SlLineGroup::RedMetro => "sl-line-badge-red-metro",
        SlLineGroup::GreenMetro => "sl-line-badge-green-metro",
        SlLineGroup::BlueMetro => "sl-line-badge-blue-metro",
        SlLineGroup::Bus => "sl-line-badge-bus",
        SlLineGroup::BlueBus => "sl-line-badge-blue-bus",
        SlLineGroup::CityLine => "sl-line-badge-city-line",
        SlLineGroup::RoslagenLine => "sl-line-badge-roslagen-line",
    }
}

/// The full class list of a line badge.
pub fn line_badge_class(line_group: SlLineGroup) -> (res: String)
    ensures
        res@ == "sl-line-badge "@ + badge_class_name(line_group),
{
    String::from_str("sl-line-badge ").concat(badge_class(line_group))
}

/// The icon drawn next to a line's number.
#[derive(Debug, Clone, Copy, PartialEq, Eq, Structural)]
pub enum TransportIcon {
    /// Trains, the metro and trams.
    Rail,
    /// Buses and taxis.
    Road,
    /// Ferries and ships.
    Water,
}

/// The icon drawn for a transport mode.
pub fn transport_icon(mode: SlTransportMode) -> (res: TransportIcon)
    ensures
        res == (match mode {
            SlTransportMode::Train | SlTransportMode::Metro | SlTransportMode::Tram => TransportIcon::Rail,
            SlTransportMode::Bus | SlTransportMode::Taxi => TransportIcon::Road,
            SlTransportMode::Ferry | SlTransportMode::Ship => TransportIcon::Water,
        }),
{
    match mode {
        SlTransportMode::Train | SlTransportMode::Metro | SlTransportMode::Tram => TransportIcon::Rail,
        SlTransportMode::Bus | SlTransportMode::Taxi => TransportIcon::Road,
        SlTransportMode::Ferry | SlTransportMode::Ship => TransportIcon::Water,
    }
}

} // verus!
