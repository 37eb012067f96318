use konsol::sl::{
    add_site_departures, badge_class, departure_board, departure_card, departures_url, filter_departures, line_badge_class,
    parse_departure, transport_icon, RawDeparture, RawJourney, RawLine, RawStopPoint, SlDeparture,
    SlLineGroup, SlTransportMode, TransportIcon, DEPARTURE_COUNT, TRACKED_SITES,
};

fn dep(site: u32, dir: i64, mode: SlTransportMode, line: i64, time: &str) -> SlDeparture {
    SlDeparture {
        site_id: site,
        transport_mode: mode,
        line_group: SlLineGroup::RedMetro,
        line_id: line,
        direction_code: dir,
        stop_point_name: "Tekniska högskolan".to_string(),
        stop_point_designation: String::new(),
        destination: "Mörby centrum".to_string(),
        via: None,
        line_designation: line.to_string(),
        display_time: time.to_string(),
    }
}

fn raw(mode: &str, group: Option<&str>) -> RawDeparture {
    RawDeparture {
        destination: "Ropsten".to_string(),
        via: Some("Östermalm".to_string()),
        direction_code: 2,
        display: "3 min".to_string(),
        expected: "2024-01-01T12:00:00".to_string(),
        journey: RawJourney { id: 7 },
        stop_point: RawStopPoint { name: "Tekniska högskolan".to_string(), designation: None },
        line: RawLine {
            id: 13,
            designation: "13".to_string(),
            transport_mode: mode.to_string(),
            group_of_lines: group.map(|g| g.to_string()),
        },
    }
}

#[test]
fn transport_modes_and_groups() {
    assert_eq!(SlTransportMode::try_from("METRO"), Ok(SlTransportMode::Metro));
    assert_eq!(SlTransportMode::try_from("TAXI"), Ok(SlTransportMode::Taxi));
    assert_eq!(SlTransportMode::try_from("metro"), Err("Unexpected transport mode metro".to_string()));
    assert_eq!(SlLineGroup::try_from("Tunnelbanans röda linje"), Ok(SlLineGroup::RedMetro));
    assert_eq!(SlLineGroup::try_from("Spårväg City"), Ok(SlLineGroup::CityLine));
    assert_eq!(SlLineGroup::try_from("Tåg"), Err("Unexpected line group Tåg".to_string()));
}

#[test]
fn parse_reported_departures() {
    let d = parse_departure(raw("METRO", Some("Tunnelbanans röda linje")), 9204).unwrap();
    assert_eq!(d.site_id, 9204);
    assert_eq!(d.transport_mode, SlTransportMode::Metro);
    assert_eq!(d.line_group, SlLineGroup::RedMetro);
    assert_eq!(d.line_id, 13);
    assert_eq!(d.direction_code, 2);
    assert_eq!(d.stop_point_designation, "");
    assert_eq!(d.via, Some("Östermalm".to_string()));
    assert_eq!(d.display_time, "3 min");
    let bus = parse_departure(raw("BUS", None), 9600).unwrap();
    assert_eq!(bus.line_group, SlLineGroup::Bus);
    assert_eq!(parse_departure(raw("TRAM", None), 9204).unwrap_err(), "Expected line group");
    assert_eq!(parse_departure(raw("BOAT", None), 9204).unwrap_err(), "Unexpected transport mode BOAT");
    assert_eq!(parse_departure(raw("TRAM", Some("x")), 9204).unwrap_err(), "Unexpected line group x");
}

#[test]
fn filter_keeps_first_four_matches_in_order() {
    let mut ds = Vec::new();
    for k in 0..7 {
        ds.push(dep(9204, 1, SlTransportMode::Metro, 14, &format!("{k} min")));
        ds.push(dep(9204, 2, SlTransportMode::Metro, 14, "other direction"));
    }
    ds.push(dep(9600, 1, SlTransportMode::Metro, 14, "other site"));
    let sel = filter_departures(&ds, 9204, 1, SlTransportMode::Metro, 14);
    assert_eq!(sel.len(), DEPARTURE_COUNT);
    let times: Vec<&str> = sel.iter().map(|d| d.display_time.as_str()).collect();
    assert_eq!(times, ["0 min", "1 min", "2 min", "3 min"]);
    assert!(filter_departures(&ds, 9204, 1, SlTransportMode::Tram, 14).is_empty());
    assert_eq!(filter_departures(&ds, 9600, 1, SlTransportMode::Metro, 14).len(), 1);
}

#[test]
fn board_and_cards() {
    assert!(departure_board(&[]).is_none());
    let ds = vec![
        dep(9204, 1, SlTransportMode::Metro, 14, "Nu"),
        dep(9204, 2, SlTransportMode::Tram, 27, "5 min"),
        dep(9204, 2, SlTransportMode::Tram, 27, "12:40"),
        dep(9204, 2, SlTransportMode::Tram, 27, "12:55"),
    ];
    let board = departure_board(&ds).unwrap();
    assert_eq!(board.metro_direction_1.len(), 1);
    assert!(board.metro_direction_2.is_empty());
    assert_eq!(board.tram_27.len(), 3);
    assert!(board.tram_28.is_empty() && board.tram_29.is_empty());
    assert!(departure_card(&board.metro_direction_2).is_none());
    let card = departure_card(&board.tram_27).unwrap();
    assert_eq!(card.next_departure, "5 min");
    assert_eq!(card.future_departures, "12:40, 12:55");
    assert_eq!(card.destination, "Mörby centrum");
    let single = departure_card(&board.metro_direction_1).unwrap();
    assert_eq!(single.future_departures, "");
}

#[test]
fn badges_icons_and_urls() {
    assert_eq!(badge_class(SlLineGroup::GreenMetro), "sl-line-badge-green-metro");
    assert_eq!(badge_class(SlLineGroup::RoslagenLine), "sl-line-badge-roslagen-line");
    assert_eq!(line_badge_class(SlLineGroup::Bus), "sl-line-badge sl-line-badge-bus");
    assert_eq!(transport_icon(SlTransportMode::Tram), TransportIcon::Rail);
    assert_eq!(transport_icon(SlTransportMode::Taxi), TransportIcon::Road);
    assert_eq!(transport_icon(SlTransportMode::Ship), TransportIcon::Water);
    assert_eq!(departures_url(TRACKED_SITES[0]), "https://transport.integration.sl.se/v1/sites/9204/departures");
    assert_eq!(departures_url(TRACKED_SITES[1]), "https://transport.integration.sl.se/v1/sites/9600/departures");
    assert_eq!(departures_url(0), "https://transport.integration.sl.se/v1/sites/0/departures");
}

#[test]
fn collecting_the_sites_answers() {
    let mut all = Vec::new();
    let mut refused = Vec::new();
    add_site_departures(
        &mut all,
        &mut refused,
        9204,
        vec![
            (raw("METRO", Some("Tunnelbanans röda linje")), true),
            (raw("BOAT", None), true),
            (raw("BUS", None), false),
            (raw("TRAM", Some("Roslagsbanan")), true),
        ],
    );
    add_site_departures(&mut all, &mut refused, 9600, vec![(raw("TRAM", None), true), (raw("BUS", None), true)]);
    let seen: Vec<(u32, SlTransportMode)> = all.iter().map(|d| (d.site_id, d.transport_mode)).collect();
    assert_eq!(
        seen,
        vec![(9204, SlTransportMode::Metro), (9204, SlTransportMode::Tram), (9600, SlTransportMode::Bus)]
    );
    assert_eq!(refused, vec!["Unexpected transport mode BOAT".to_string(), "Expected line group".to_string()]);
}
