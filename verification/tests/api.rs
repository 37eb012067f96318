use konsol::api::auth::{add_user, authorize_user, credential_email};
use konsol::api::calendar::get_calendar_api_key;
use konsol::api::settings::{update_settings, validate_settings_update};
use konsol::api::slides::{
    begin_upload, collect_slide_form, delete_slide, image_of_removed_slide, parse_slide_date, slide_from_form,
    slide_image_file, upload_slide, upload_step, FormField, SlideForm, UploadAction, UploadEvent, UploadState,
};
use konsol::api::ApiError;
use konsol::text::trim;
use konsol::models::{AuthenticatedUser, PermissionLevel, Settings, Slide, SlideDateTime};
use konsol::session::{
    cookie_secret, cookie_secure, end_session, require_admin, require_auth, session_value, start_session,
    DEFAULT_COOKIE_SECRET,
};

fn admin() -> Option<AuthenticatedUser> {
    Some(AuthenticatedUser { email: "a@f.kth.se".to_string(), permission: PermissionLevel::Admin })
}

fn plain_user() -> Option<AuthenticatedUser> {
    Some(AuthenticatedUser { email: "u@f.kth.se".to_string(), permission: PermissionLevel::User })
}

#[test]
fn session_checks() {
    assert_eq!(require_auth(plain_user()).unwrap().email, "u@f.kth.se");
    assert!(matches!(require_auth(None), Err(ApiError::NotLoggedIn)));
    assert_eq!(require_admin(admin()).unwrap().email, "a@f.kth.se");
    assert!(matches!(require_admin(plain_user()), Err(ApiError::Forbidden)));
    assert!(matches!(require_admin(None), Err(ApiError::NotLoggedIn)));
    assert_eq!(ApiError::NotLoggedIn.message(), "Not logged in");
    assert_eq!(ApiError::Forbidden.message(), "Forbidden");
}

#[test]
fn cookie_configuration() {
    assert!(cookie_secure(&Some("TRUE".to_string())));
    assert!(cookie_secure(&Some("true".to_string())));
    assert!(cookie_secure(&Some("tRuE".to_string())));
    assert!(!cookie_secure(&Some("yes".to_string())));
    assert!(!cookie_secure(&Some(" true".to_string())));
    assert!(!cookie_secure(&None));
    assert_eq!(cookie_secret(None), DEFAULT_COOKIE_SECRET);
    assert_eq!(cookie_secret(Some("k".repeat(64))), "k".repeat(64));
}

#[test]
fn login_decisions() {
    assert_eq!(credential_email(Some("x@y".to_string())).unwrap(), "x@y");
    assert_eq!(credential_email(None).unwrap_err().message(), "No email in Google payload");
    let u = authorize_user("x@y".to_string(), Some(PermissionLevel::Admin)).unwrap();
    assert_eq!(u.permission, PermissionLevel::Admin);
    assert_eq!(
        authorize_user("x@y".to_string(), None).unwrap_err().message(),
        "Not an authorized user"
    );
}

#[test]
fn adding_users() {
    let u = add_user(admin(), "new@f.kth.se".to_string(), PermissionLevel::Admin).unwrap();
    assert!(u.admin);
    assert_eq!(u.email, "new@f.kth.se");
    assert_eq!(u.id.len(), 36);
    assert_eq!(PermissionLevel::from(u.admin), PermissionLevel::Admin);
    let v = add_user(admin(), "n@f.kth.se".to_string(), PermissionLevel::User).unwrap();
    assert!(!v.admin);
    assert_ne!(u.id, v.id);
    assert!(matches!(
        add_user(plain_user(), "n@f.kth.se".to_string(), PermissionLevel::User),
        Err(ApiError::Forbidden)
    ));
    assert!(matches!(add_user(None, "n".to_string(), PermissionLevel::User), Err(ApiError::NotLoggedIn)));
}

#[test]
fn permission_round_trip() {
    assert_eq!(PermissionLevel::from(true), PermissionLevel::Admin);
    assert_eq!(PermissionLevel::from(false), PermissionLevel::User);
}

#[test]
fn calendar_key() {
    assert_eq!(get_calendar_api_key(String::new()), None);
    assert_eq!(get_calendar_api_key("key".to_string()), Some("key".to_string()));
}

#[test]
fn settings_validation() {
    assert_eq!(
        validate_settings_update("mixed", "  https://docs.google.com/presentation/d/x/edit \n").unwrap(),
        "https://docs.google.com/presentation/d/x/edit"
    );
    assert_eq!(validate_settings_update("fullscreen_slideshow", "   ").unwrap(), "");
    assert_eq!(
        validate_settings_update("grid", "").unwrap_err().message(),
        "unknown layout type: grid"
    );
    assert_eq!(
        validate_settings_update("mixed", "https://example.com/").unwrap_err().message(),
        "live slides URL must be a Google Slides link (https://docs.google.com/presentation/...)"
    );
    let accepted = validate_settings_update("mixed", "\u{2003}https://docs.google.com/presentation/d/y\u{00A0}").unwrap();
    assert_eq!(accepted, "https://docs.google.com/presentation/d/y");
    assert_eq!(validate_settings_update("mixed", &accepted).unwrap(), accepted);
}

fn stored_settings() -> Settings {
    Settings {
        id: 1,
        layout_type: "mixed".to_string(),
        color_mode: "dark".to_string(),
        live_mode: false,
        live_slides_url: String::new(),
    }
}

#[test]
fn settings_update_keeps_colour_mode() {
    let new = update_settings(
        plain_user(),
        stored_settings(),
        "fullscreen_slideshow".to_string(),
        true,
        "  https://docs.google.com/presentation/d/z/pub \t",
    )
    .unwrap();
    assert_eq!(new.id, 1);
    assert_eq!(new.color_mode, "dark");
    assert_eq!(new.layout_type, "fullscreen_slideshow");
    assert!(new.live_mode);
    assert_eq!(new.live_slides_url, "https://docs.google.com/presentation/d/z/pub");
}

#[test]
fn settings_update_refusals() {
    let refused = update_settings(None, stored_settings(), "grid".to_string(), true, "x").unwrap_err();
    assert_eq!(refused.message(), "Not logged in");
    let refused = update_settings(plain_user(), stored_settings(), "grid".to_string(), true, "x").unwrap_err();
    assert_eq!(refused.message(), "unknown layout type: grid");
    let refused =
        update_settings(plain_user(), stored_settings(), "mixed".to_string(), false, "https://example.com").unwrap_err();
    assert!(matches!(refused, ApiError::NotGoogleSlidesUrl));
    let cleared = update_settings(plain_user(), stored_settings(), "mixed".to_string(), false, " ").unwrap();
    assert_eq!(cleared.live_slides_url, "");
}

fn field(name: &str, subtype: Option<&str>, bytes: &[u8]) -> FormField {
    FormField { name: name.to_string(), content_subtype: subtype.map(|s| s.to_string()), bytes: bytes.to_vec() }
}

#[test]
fn collecting_the_form() {
    let fields = vec![
        field("caption", None, b"first"),
        field("imageFile", Some("png"), &[1, 2, 3]),
        field("caption", None, "Välkommen".as_bytes()),
        field("start", None, b"2024-05-01"),
        field("end", None, &[0x32, 0xff]),
        field("other", None, b"ignored"),
    ];
    let form = collect_slide_form(&fields);
    assert_eq!(form.caption, Some("Välkommen".to_string()));
    assert_eq!(form.start, Some("2024-05-01".to_string()));
    assert_eq!(form.end, Some("2\u{FFFD}".to_string()));
    assert_eq!(form.visible, None);
    assert_eq!(form.image_type, Some("png".to_string()));
    assert_eq!(form.image, Some(vec![1, 2, 3]));
}

fn form(visible: Option<&str>, start: &str) -> SlideForm {
    SlideForm {
        caption: Some("Pub".to_string()),
        start: Some(start.to_string()),
        end: Some("2024-02-29".to_string()),
        visible: visible.map(|v| v.to_string()),
        image_type: Some("jpeg".to_string()),
        image: Some(vec![9, 9]),
    }
}

#[test]
fn uploading_slides() {
    let new = slide_from_form(form(Some("true"), "2024-01-31")).unwrap();
    assert!(new.slide.active);
    assert_eq!(new.slide.caption, "Pub");
    assert_eq!(new.slide.filetype, "jpeg");
    assert_eq!(new.slide.start_date, SlideDateTime::midnight(2024, 1, 31));
    assert_eq!(new.slide.end_date, SlideDateTime::midnight(2024, 2, 29));
    assert_eq!(new.image, vec![9, 9]);
    assert_eq!(new.slide.id.len(), 36);
    assert!(!slide_from_form(form(None, "2024-01-31")).unwrap().slide.active);
    assert!(!slide_from_form(form(Some("on"), "2024-01-31")).unwrap().slide.active);
    assert_eq!(
        slide_from_form(form(None, "2023-02-29")).err().unwrap().message(),
        "input is out of range"
    );
    assert_eq!(slide_from_form(form(None, "31/01/2024")).err().unwrap().message(), "input contains invalid characters");
    let mut missing = form(None, "2024-01-31");
    missing.image = None;
    assert_eq!(slide_from_form(missing).err().unwrap().message(), "missing image file");
    let mut missing = form(None, "2024-01-31");
    missing.caption = None;
    missing.start = None;
    assert_eq!(slide_from_form(missing).err().unwrap().message(), "missing caption");
    let mut missing = form(None, "2024-01-31");
    missing.end = None;
    assert_eq!(slide_from_form(missing).err().unwrap().message(), "missing end date");
}

fn upload_fields() -> Vec<FormField> {
    vec![
        field("caption", None, b"Pub"),
        field("start", None, b"2024-01-31"),
        field("end", None, b"2024-02-29"),
        field("visible", None, b"true"),
        field("imageFile", Some("png"), &[7, 7, 7]),
    ]
}

#[test]
fn uploading_slides_from_the_form() {
    let fields = upload_fields();
    assert_eq!(upload_slide(None, Some(&fields)).err().unwrap().message(), "Not logged in");
    assert_eq!(upload_slide(None, None).err().unwrap().message(), "Not logged in");
    assert_eq!(upload_slide(plain_user(), None).err().unwrap().message(), "no multipart data");
    let new = upload_slide(plain_user(), Some(&fields)).unwrap();
    assert_eq!(new.slide.caption, "Pub");
    assert!(new.slide.active);
    assert_eq!(new.slide.filetype, "png");
    assert_eq!(new.image, vec![7, 7, 7]);
    assert_eq!(new.slide.start_date, SlideDateTime::midnight(2024, 1, 31));
    let no_caption: Vec<FormField> = fields[1..].to_vec();
    assert_eq!(upload_slide(plain_user(), Some(&no_caption)).err().unwrap().message(), "missing caption");
    let untyped = vec![
        field("caption", None, b"Pub"),
        field("start", None, b"2024-01-31"),
        field("end", None, b"2024-02-29"),
        field("imageFile", None, &[1]),
    ];
    assert_eq!(upload_slide(plain_user(), Some(&untyped)).err().unwrap().message(), "missing image file");
}

fn sample_slide(id: &str, filetype: &str) -> Slide {
    Slide {
        id: id.to_string(),
        caption: "Pub".to_string(),
        start_date: SlideDateTime::midnight(2024, 1, 31),
        end_date: SlideDateTime::midnight(2024, 2, 29),
        active: true,
        filetype: filetype.to_string(),
    }
}

#[test]
fn slide_image_files() {
    assert_eq!(slide_image_file("abc", "png"), "./slide_images/abc.png");
    assert_eq!(slide_image_file("abc", ""), "./slide_images/abc");
}

#[test]
fn storing_an_upload() {
    let new = upload_slide(plain_user(), Some(&upload_fields())).unwrap();
    let id = new.slide.id.clone();
    let (state, action) = begin_upload(new);
    match action {
        UploadAction::WriteImage { path, bytes } => {
            assert_eq!(path, format!("./slide_images/{id}.png"));
            assert_eq!(bytes, vec![7, 7, 7]);
        }
        _ => panic!("the image is written first"),
    }
    let (state, action) = upload_step(state, UploadEvent::ImageWritten(Ok(())));
    assert!(matches!(action, UploadAction::InsertSlide(ref s) if s.id == id));
    let (state, action) = upload_step(state, UploadEvent::SlideInserted(Err("UNIQUE constraint failed".to_string())));
    match action {
        UploadAction::RemoveImage(path) => assert_eq!(path, format!("./slide_images/{id}.png")),
        _ => panic!("the image is removed when the slide cannot be stored"),
    }
    let (state, action) = upload_step(state, UploadEvent::ImageRemoved(Err("gone".to_string())));
    assert!(matches!(state, UploadState::Finished));
    assert!(matches!(action, UploadAction::Answer(Err(ref e)) if e == "UNIQUE constraint failed"));
}

#[test]
fn storing_an_upload_that_succeeds_or_cannot_write() {
    let new = slide_from_form(form(None, "2024-01-31")).unwrap();
    let (state, _) = begin_upload(new);
    let (state, _) = upload_step(state, UploadEvent::ImageWritten(Ok(())));
    let (state, action) = upload_step(state, UploadEvent::SlideInserted(Ok(sample_slide("s", "jpeg"))));
    assert!(matches!(state, UploadState::Finished));
    assert!(matches!(action, UploadAction::Answer(Ok(ref s)) if s.id == "s"));
    let new = slide_from_form(form(None, "2024-01-31")).unwrap();
    let (state, _) = begin_upload(new);
    let (state, action) = upload_step(state, UploadEvent::ImageWritten(Err("disk full".to_string())));
    assert!(matches!(state, UploadState::Finished));
    assert!(matches!(action, UploadAction::Answer(Err(ref e)) if e == "disk full"));
}

#[test]
fn slide_dates() {
    assert_eq!(parse_slide_date("1999-12-31").unwrap(), SlideDateTime::midnight(1999, 12, 31));
    assert!(matches!(parse_slide_date(""), Err(ApiError::InvalidDate(_))));
}

#[test]
fn deleting_slides() {
    let uploaded = slide_from_form(form(None, "2024-01-31")).unwrap().slide.id;
    assert_eq!(delete_slide(plain_user(), &uploaded).unwrap(), uploaded);
    assert_eq!(
        delete_slide(plain_user(), "67E55044-10B1-426F-9247-BB680E5FE0C8").unwrap(),
        "67e55044-10b1-426f-9247-bb680e5fe0c8"
    );
    assert_eq!(
        delete_slide(plain_user(), "67e5504410b1426f9247bb680e5fe0c8").unwrap(),
        "67e55044-10b1-426f-9247-bb680e5fe0c8"
    );
    assert!(matches!(delete_slide(plain_user(), "not-a-uuid"), Err(ApiError::InvalidSlideId(_))));
    assert!(matches!(delete_slide(None, &uploaded), Err(ApiError::NotLoggedIn)));
    assert_eq!(
        image_of_removed_slide(Ok(sample_slide("abc", "gif"))).unwrap(),
        "./slide_images/abc.gif"
    );
    assert_eq!(image_of_removed_slide(Err("not found".to_string())).unwrap_err(), "not found");
}

#[test]
fn sessions_round_trip() {
    let json = r#"{"email":"a@f.kth.se","permission":"Admin"}"#;
    let headers = start_session(json, None, &None);
    assert_eq!(headers.len(), 1);
    let header = &headers[0];
    assert!(header.starts_with("auth="));
    assert!(header.ends_with("; HttpOnly; SameSite=Lax; Path=/"));
    let pair = header.split(';').next().unwrap();
    assert_eq!(session_value(Some(pair), None), Some(json.to_string()));
    assert_eq!(session_value(Some(&format!("other=1; {pair}")), None), Some(json.to_string()));
    assert_eq!(session_value(None, None), None);
    assert_eq!(session_value(Some("auth=forged"), None), None);
    let other_key = Some("z".repeat(64));
    assert_eq!(session_value(Some(pair), other_key.clone()), None);
    let secure = start_session(json, other_key.clone(), &Some("TRUE".to_string()));
    assert!(secure[0].ends_with("; HttpOnly; SameSite=Lax; Secure; Path=/"));
    let pair = secure[0].split(';').next().unwrap();
    assert_eq!(session_value(Some(pair), other_key), Some(json.to_string()));
    assert!(end_session().is_empty());
}

#[test]
fn trimming_matches_std_on_every_char() {
    for code in 0u32..=0x10FFFF {
        if let Some(c) = char::from_u32(code) {
            let s = format!("{c}x{c}");
            assert_eq!(trim(&s), s.trim(), "U+{code:04X}");
        }
    }
}
