use konsol::models::{Settings, Slide, SlideDateTime};
use konsol::screen::{
    google_slides_embed_url, last_update_text, left_pane, live_frame_src, live_url, next_slide_index,
    previous_slide_index, screen_layout, slide_image_src, toggle_pane, LeftPane, Pane, ScreenLayout,
};

const EMBED: &str = "https://docs.google.com/presentation/d/abc123/embed?start=true&loop=true&delayms=3000";

#[test]
fn edit_link() {
    assert_eq!(
        google_slides_embed_url("https://docs.google.com/presentation/d/abc123/edit#slide=id.p"),
        EMBED
    );
}

#[test]
fn published_link() {
    assert_eq!(
        google_slides_embed_url(
            "https://docs.google.com/presentation/d/abc123/pub?start=false&loop=false&delayms=60000"
        ),
        EMBED
    );
}

#[test]
fn embed_link() {
    assert_eq!(google_slides_embed_url(EMBED), EMBED);
}

#[test]
fn bare_document_link() {
    assert_eq!(google_slides_embed_url("https://docs.google.com/presentation/d/abc123/"), EMBED);
}

#[test]
fn present_and_preview_links() {
    assert_eq!(google_slides_embed_url("https://docs.google.com/presentation/d/abc123/present"), EMBED);
    assert_eq!(google_slides_embed_url("https://docs.google.com/presentation/d/abc123/preview?x=1"), EMBED);
    assert_eq!(google_slides_embed_url("https://docs.google.com/presentation/d/abc123///"), EMBED);
}

#[test]
fn embed_url_idempotent_on_examples() {
    for url in [
        "https://docs.google.com/presentation/d/xyz/edit?usp=sharing",
        "weird/pub/",
        "",
        "?only-query",
    ] {
        let once = google_slides_embed_url(url);
        assert_eq!(google_slides_embed_url(&once), once);
    }
    assert_eq!(google_slides_embed_url(""), "/embed?start=true&loop=true&delayms=3000");
}

#[test]
fn slide_steps_wrap_and_undo() {
    assert_eq!(next_slide_index(0, 3), 1);
    assert_eq!(next_slide_index(2, 3), 0);
    assert_eq!(previous_slide_index(0, 3), 2);
    assert_eq!(previous_slide_index(2, 3), 1);
    for len in 1..6usize {
        for i in 0..len {
            assert_eq!(previous_slide_index(next_slide_index(i, len), len), i);
            assert_eq!(next_slide_index(previous_slide_index(i, len), len), i);
        }
    }
    assert_eq!(next_slide_index(0, 1), 0);
}

fn settings(layout: &str, live_mode: bool, url: &str) -> Settings {
    Settings {
        id: 1,
        layout_type: layout.to_string(),
        color_mode: "dark".to_string(),
        live_mode,
        live_slides_url: url.to_string(),
    }
}

#[test]
fn layout_selection() {
    assert_eq!(screen_layout("fullscreen_slideshow"), ScreenLayout::FullscreenSlideshow);
    assert_eq!(screen_layout("mixed"), ScreenLayout::Mixed);
    assert_eq!(screen_layout(""), ScreenLayout::Mixed);
    assert_eq!(screen_layout(&Settings::default().layout_type), ScreenLayout::Mixed);
}

#[test]
fn live_url_needs_mode_and_link() {
    assert_eq!(live_url(&settings("mixed", true, "https://x")), Some("https://x".to_string()));
    assert_eq!(live_url(&settings("mixed", false, "https://x")), None);
    assert_eq!(live_url(&settings("mixed", true, "")), None);
    assert_eq!(live_url(&Settings::default()), None);
}

#[test]
fn panes_alternate() {
    assert_eq!(toggle_pane(Pane::Slide), Pane::Calendar);
    assert_eq!(toggle_pane(toggle_pane(Pane::Slide)), Pane::Slide);
    assert!(matches!(left_pane(Pane::Slide, 2, &None), LeftPane::Slideshow));
    assert!(matches!(left_pane(Pane::Slide, 0, &None), LeftPane::Calendar));
    assert!(matches!(left_pane(Pane::Calendar, 2, &None), LeftPane::Calendar));
    match left_pane(Pane::Slide, 0, &Some("u".to_string())) {
        LeftPane::LiveSlides(u) => assert_eq!(u, "u"),
        _ => panic!("expected the live slides"),
    }
}

#[test]
fn last_update_line() {
    assert_eq!(last_update_text(&Some("12:00:01".to_string())), "Senast uppdaterad: 12:00:01");
    assert_eq!(last_update_text(&None), "Senast uppdaterad: Aldrig");
}

#[test]
fn image_and_frame_addresses() {
    let day = SlideDateTime::midnight(2024, 5, 1);
    let slide = Slide {
        id: "abc".to_string(),
        caption: "c".to_string(),
        start_date: day,
        end_date: day,
        active: true,
        filetype: "png".to_string(),
    };
    assert_eq!(slide_image_src(&slide), "/konsol/screen/slides/images/abc.png");
    assert_eq!(live_frame_src(EMBED, 0), format!("{EMBED}&cb=0"));
    assert_eq!(live_frame_src("e", 4294967295), "e&cb=4294967295");
    assert_eq!(live_frame_src("e", 120), "e&cb=120");
}
