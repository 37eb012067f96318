use konsol::admin::{
    admin_label, admin_view, is_admin, permission_from_checkbox, remove_user_prompt, slide_card, slide_date_range,
    after_login, after_logout, user_status_view, AdminView, AuthState, UserStatusView,
};
use konsol::calendar::{events_from_response, events_url, event_start, is_all_day, iso_date_part, mock_events, calendar_display, calendar_refreshed, calendar_start, CalendarDisplay, CalendarFetch, CalendarEvent, RawEvent, RawEventTime, RawEventsResponse, CALENDAR_ID};
use konsol::client_util::{set_interval, truncate_chars};
use konsol::models::{AuthenticatedUser, PermissionLevel, Slide, SlideDateTime};
use konsol::screen::{initial_pane, initial_slide_index, Pane};
use konsol::spike::{
    spike_login_status, spike_login_verifying, spike_login_waiting, upload_slide, verify_google_credential, UploadedFile,
};

#[test]
fn truncation() {
    assert_eq!(truncate_chars("hello", 10), "hello");
    assert_eq!(truncate_chars("hello", 5), "hello");
    assert_eq!(truncate_chars("hello world", 5), "hello...");
    assert_eq!(truncate_chars("åäöåäö", 3), "åäö...");
    assert_eq!(truncate_chars("", 0), "");
    assert_eq!(truncate_chars("a", 0), "...");
}

#[test]
fn interval_outside_browser_does_nothing() {
    let mut ran = false;
    set_interval(move || ran = true, 1000);
}

#[test]
fn admin_page_decisions() {
    let admin = Some(Some(AuthenticatedUser { email: "a".to_string(), permission: PermissionLevel::Admin }));
    let user = Some(Some(AuthenticatedUser { email: "u".to_string(), permission: PermissionLevel::User }));
    assert_eq!(admin_view(&None), AdminView::Loading);
    assert_eq!(admin_view(&Some(None)), AdminView::NotLoggedIn);
    assert_eq!(admin_view(&user), AdminView::Page);
    assert!(is_admin(&admin));
    assert!(!is_admin(&user));
    assert!(!is_admin(&Some(None)));
    assert_eq!(permission_from_checkbox(&Some("on".to_string())), PermissionLevel::Admin);
    assert_eq!(permission_from_checkbox(&None), PermissionLevel::User);
    assert_eq!(remove_user_prompt("x@y"), "Are you sure you want to remove user x@y?");
    assert_eq!(admin_label(true), "Admin");
    assert_eq!(admin_label(false), "Not admin");
}

#[test]
fn slide_cards() {
    let day = SlideDateTime::midnight(2024, 3, 1);
    let slide = Slide {
        id: "s1".to_string(),
        caption: "A caption that is far longer than thirty characters".to_string(),
        start_date: day,
        end_date: day,
        active: false,
        filetype: "gif".to_string(),
    };
    let card = slide_card(&slide);
    assert_eq!(card.title, "A caption that is far longer t...");
    assert_eq!(card.indicator_class, "indicator inactive");
    assert_eq!(card.image_src, "/konsol/screen/slides/images/s1.gif");
}

#[test]
fn calendar_events() {
    let resp = RawEventsResponse {
        items: Some(vec![
            RawEvent {
                summary: "Pub".to_string(),
                location: None,
                start: RawEventTime { date_time: Some("2024-05-01T18:00:00+02:00".to_string()), date: None },
            },
            RawEvent {
                summary: "Tenta".to_string(),
                location: Some("FA32".to_string()),
                start: RawEventTime { date_time: None, date: Some("2024-05-02".to_string()) },
            },
        ]),
    };
    let events = events_from_response(&resp);
    assert_eq!(events.len(), 2);
    assert_eq!(event_start(&events[0]), "2024-05-01T18:00:00+02:00");
    assert!(!is_all_day(&events[0]));
    assert_eq!(event_start(&events[1]), "2024-05-02");
    assert!(is_all_day(&events[1]));
    assert_eq!(events[1].location, Some("FA32".to_string()));
    assert!(events_from_response(&RawEventsResponse { items: None }).is_empty());
    let none = CalendarEvent { summary: String::new(), location: None, date_time: None, all_day_date: None };
    assert_eq!(event_start(&none), "");
}

#[test]
fn calendar_urls_and_mock_events() {
    assert_eq!(
        events_url("id%40x", "KEY", "2024-05-01T00:00:00.000Z"),
        "https://www.googleapis.com/calendar/v3/calendars/id%40x/events?key=KEY&timeMin=2024-05-01T00:00:00.000Z&singleEvents=true&orderBy=startTime&maxResults=10"
    );
    assert!(CALENDAR_ID.ends_with("@group.calendar.google.com"));
    assert_eq!(iso_date_part("2024-05-03T10:00:00.000Z"), "2024-05-03");
    assert_eq!(iso_date_part("2024-05-03"), "2024-05-03");
    let evs = mock_events("h".to_string(), "d".to_string(), "2024-05-03T10:00:00.000Z");
    assert_eq!(evs.len(), 3);
    assert_eq!(evs[0].summary, "Pub");
    assert_eq!(evs[1].summary, "Sektionsmöte");
    assert_eq!(evs[2].all_day_date, Some("2024-05-03".to_string()));
}

#[test]
fn prototype_answers() {
    let files = vec![
        UploadedFile { file_name: "a.png".to_string(), size: 12 },
        UploadedFile { file_name: "b.jpg".to_string(), size: 0 },
    ];
    assert_eq!(upload_slide(&files), "received: a.png (12 bytes), b.jpg (0 bytes)");
    assert_eq!(upload_slide(&[]), "received: ");
    assert_eq!(verify_google_credential("").unwrap_err(), "empty credential");
    assert_eq!(verify_google_credential("fake.jwt.credential").unwrap(), "verified credential of length 19");
    assert_eq!(verify_google_credential("å").unwrap(), "verified credential of length 2");
}

#[test]
fn slide_date_ranges() {
    let slide = Slide {
        id: "s".to_string(),
        caption: String::new(),
        start_date: SlideDateTime::midnight(2024, 3, 1),
        end_date: SlideDateTime::midnight(999, 12, 31),
        active: true,
        filetype: "png".to_string(),
    };
    assert_eq!(slide_date_range(&slide), "2024-03-01 \u{2013} 0999-12-31");
    let far = Slide {
        start_date: SlideDateTime::midnight(-1, 1, 5),
        end_date: SlideDateTime::midnight(10000, 2, 29),
        ..slide.clone()
    };
    assert_eq!(slide_date_range(&far), "-0001-01-05 \u{2013} +10000-02-29");
    let older = Slide { start_date: SlideDateTime::midnight(-12345, 6, 7), ..slide };
    assert_eq!(slide_date_range(&older), "-12345-06-07 \u{2013} 0999-12-31");
}

#[test]
fn login_corner() {
    let nobody: AuthState = Some(None);
    assert!(matches!(user_status_view(&None, &None), UserStatusView::Loading));
    assert!(matches!(user_status_view(&nobody, &None), UserStatusView::Loading));
    assert!(matches!(
        user_status_view(&nobody, &Some(Ok("cid".to_string()))),
        UserStatusView::LoginButton(ref id) if id == "cid"
    ));
    assert!(matches!(user_status_view(&nobody, &Some(Err("unset".to_string()))), UserStatusView::LoginUnavailable));
    let admin = AuthenticatedUser { email: "a@f.kth.se".to_string(), permission: PermissionLevel::Admin };
    let state = after_login(nobody.clone(), Ok(admin));
    assert!(matches!(
        user_status_view(&state, &None),
        UserStatusView::LoggedIn { ref email, admin: true } if email == "a@f.kth.se"
    ));
    assert!(matches!(after_login(nobody, Err("bad token".to_string())), Some(None)));
    assert!(matches!(after_logout(), Some(None)));
}

#[test]
fn calendar_states() {
    let event = CalendarEvent { summary: "Pub".to_string(), location: None, date_time: None, all_day_date: Some("2024-05-01".to_string()) };
    let state = calendar_start();
    assert_eq!(calendar_display(&state), CalendarDisplay::Loading);
    let state = calendar_refreshed(state, CalendarFetch::Fetched(Ok(vec![])));
    assert_eq!(calendar_display(&state), CalendarDisplay::NoEvents);
    let state = calendar_refreshed(state, CalendarFetch::Fetched(Ok(vec![event.clone()])));
    assert_eq!(calendar_display(&state), CalendarDisplay::Events);
    let state = calendar_refreshed(state, CalendarFetch::Fetched(Err("403".to_string())));
    assert_eq!(calendar_display(&state), CalendarDisplay::Error);
    assert_eq!(state.events.len(), 1);
    let state = calendar_refreshed(calendar_start(), CalendarFetch::Mock(vec![event]));
    assert_eq!(calendar_display(&state), CalendarDisplay::Events);
}

#[test]
fn starting_turns_and_spike_status() {
    assert_eq!(initial_pane(), Pane::Slide);
    assert_eq!(initial_slide_index(), 0);
    assert_eq!(spike_login_waiting(), "waiting for credential...");
    assert_eq!(spike_login_verifying(), "verifying...");
    assert_eq!(spike_login_status(Ok("verified credential of length 3".to_string())), "verified credential of length 3");
    assert_eq!(spike_login_status(Err("empty credential".to_string())), "error: empty credential");
}
