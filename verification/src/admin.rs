//! Decisions of the admin page: what a visitor sees depending on who is
//! logged in, and how slides and users are presented.

use vstd::prelude::*;

use crate::client_util::{truncate_chars, truncated};
use crate::api::slides::is_calendar_date;
use crate::models::{AuthenticatedUser, PermissionLevel, Slide, SlideDateTime};
use crate::text::decimal;
use crate::screen::{slide_image_path, slide_image_src};
use crate::text::str_eq;

verus! {

/// What the admin page knows of its visitor: not checked yet (`None`),
/// checked and not logged in (`Some(None)`), or logged in as a user.
pub type AuthState = Option<Option<AuthenticatedUser>>;

/// The main area of the admin page.
#[derive(Debug, Clone, Copy, PartialEq, Eq, Structural)]
pub enum AdminView {
    /// The login check is still running.
    Loading,
    /// Nobody is logged in.
    NotLoggedIn,
    /// The chosen page (slides, settings or users).
    Page,
}

/// The main area of the admin page for a visitor.
pub fn admin_view(state: &AuthState) -> (res: AdminView)
    ensures
        res == (match *state {
            None => AdminView::Loading,
            Some(None) => AdminView::NotLoggedIn,
            Some(Some(_)) => AdminView::Page,
        }),
{
    match state {
        None => AdminView::Loading,
        Some(None) => AdminView::NotLoggedIn,
        Some(Some(_)) => AdminView::Page,
    }
}

/// The visitor is logged in as an administrator.
pub open spec fn is_admin_state(state: AuthState) -> bool {
    state matches Some(Some(u)) && u.permission == PermissionLevel::Admin
}

/// Whether the visitor is logged in as an administrator: only then are the
/// users page and its link shown.
pub fn is_admin(state: &AuthState) -> (res: bool)
    ensures
        res == is_admin_state(*state),
{
    match state {
        Some(Some(u)) => u.permission == PermissionLevel::Admin,
        _ => false,
    }
}

/// The permission level the "add user" form asks for: administrator when
/// its checkbox was sent checked (`"on"`).
pub fn permission_from_checkbox(admin: &Option<String>) -> (res: PermissionLevel)
    ensures
        res == (if (match *admin {
            Some(v) => v@ == "on"@,
            None => false,
        }) {
            PermissionLevel::Admin
        } else {
            PermissionLevel::User
        }),
{
    let checked = match admin {
        Some(v) => str_eq(v.as_str(), "on"),
        None => false,
    };
    if checked {
        PermissionLevel::Admin
    } else {
        PermissionLevel::User
    }
}

/// The question asked before a user is removed.
pub fn remove_user_prompt(email: &str) -> (res: String)
    ensures
        res@ == "Are you sure you want to remove user "@ + email@ + "?"@,
{
    let mut s = String::from_str("Are you sure you want to remove user ");
    s.append(email);
    s.append("?");
    s
}

/// How a user's rights read on their card.
pub fn admin_label(admin: bool) -> (res: &'static str)
    ensures
        res@ == (if admin {
            "Admin"@
        } else {
            "Not admin"@
        }),
{
    if admin {
        "Admin"
    } else {
        "Not admin"
    }
}

/// Number of caption characters a slide card shows.
pub const CARD_CAPTION_LENGTH: usize = 30;

/// What a slide's card on the admin page shows.
pub struct SlideCardView {
    /// The caption, cut to `CARD_CAPTION_LENGTH` characters.
    pub title: String,
    /// Classes of the dot showing whether the slide is visible.
    pub indicator_class: String,
    /// Where the slide's image is served.
    pub image_src: String,
}

/// The card of a slide.
pub fn slide_card(slide: &Slide) -> (res: SlideCardView)
    ensures
        res.title@ == truncated(slide.caption@, CARD_CAPTION_LENGTH as nat),
        res.indicator_class@ == (if slide.active {
            "indicator active"@
        } else {
            "indicator inactive"@
        }),
        res.image_src@ == slide_image_path(slide.id@, slide.filetype@),
{
    SlideCardView {
        title: truncate_chars(slide.caption.as_str(), CARD_CAPTION_LENGTH),
        indicator_class: if slide.active {
            String::from_str("indicator active")
        } else {
            String::from_str("indicator inactive")
        },
        image_src: slide_image_src(slide),
    }
}


/// `s` padded on the left with zeros to `width` characters.
pub open spec fn zero_padded(s: Seq<char>, width: nat) -> Seq<char> {
    if s.len() >= width {
        s
    } else {
        Seq::new((width - s.len()) as nat, |i: int| '0') + s
    }
}

/// How `chrono` writes a year for `%Y`: zero-padded to four digits in 0 to
/// 9999, and otherwise with a sign, zero-padded to five characters.
pub open spec fn year_text(year: int) -> Seq<char> {
    if 0 <= year <= 9999 {
        zero_padded(decimal(year as nat), 4)
    } else if year > 9999 {
        "+"@ + decimal(year as nat)
    } else {
        "-"@ + zero_padded(decimal((-year) as nat), 4)
    }
}

/// How `chrono` writes a date with the format `%Y-%m-%d`.
pub open spec fn formatted_ymd(year: i32, month: u32, day: u32) -> Seq<char> {
    year_text(year as int) + "-"@ + zero_padded(decimal(month as nat), 2) + "-"@ + zero_padded(
        decimal(day as nat),
        2,
    )
}

/// Calls `chrono::NaiveDate::from_ymd_opt` and writes the date with
/// `format("%Y-%m-%d")`.
///
/// This states what chrono's formatting source shows for `%Y`, `%m` and
/// `%d`: the year as `year_text` gives it, month and day zero-padded to two
/// digits, joined by `-`. `from_ymd_opt` gives a date for every valid
/// calendar date in `NaiveDate`'s range, hence the `requires`.
#[verifier::external_body]
fn format_ymd(year: i32, month: u32, day: u32) -> (res: String)
    requires
        is_calendar_date(year, month, day),
    ensures
        res@ == formatted_ymd(year, month, day),
{
    chrono::NaiveDate::from_ymd_opt(year, month, day).unwrap().format("%Y-%m-%d").to_string()
}

/// The days a slide is shown, as its card reads them: first and last day
/// joined by an en dash.
pub fn slide_date_range(slide: &Slide) -> (res: String)
    requires
        is_calendar_date(slide.start_date.year, slide.start_date.month, slide.start_date.day),
        is_calendar_date(slide.end_date.year, slide.end_date.month, slide.end_date.day),
    ensures
        res@ == formatted_ymd(slide.start_date.year, slide.start_date.month, slide.start_date.day)
            + " – "@ + formatted_ymd(slide.end_date.year, slide.end_date.month, slide.end_date.day),
{
    let mut text = format_ymd(slide.start_date.year, slide.start_date.month, slide.start_date.day);
    text.append(" – ");
    let end = format_ymd(slide.end_date.year, slide.end_date.month, slide.end_date.day);
    text.append(end.as_str());
    text
}

/// What the login corner of the admin page shows.
#[derive(Debug)]
pub enum UserStatusView {
    /// The login check, or the Google client id, is not known yet.
    Loading,
    /// Google's sign-in button, for this client id.
    LoginButton(String),
    /// The Google client id could not be had.
    LoginUnavailable,
    /// The logged-in user's address (a click logs out), marked when an
    /// administrator.
    LoggedIn { email: String, admin: bool },
}

/// The login corner for a visitor and the Google client id fetched so far
/// (`None` while it is being fetched).
pub fn user_status_view(state: &AuthState, client_id: &Option<Result<String, String>>) -> (res: UserStatusView)
    ensures
        state is None ==> res is Loading,
        state matches Some(None) ==> (match *client_id {
            None => res is Loading,
            Some(Ok(id)) => res matches UserStatusView::LoginButton(v) && v == id,
            Some(Err(_)) => res is LoginUnavailable,
        }),
        state matches Some(Some(u)) ==> (res matches UserStatusView::LoggedIn { email, admin } && email
            == u.email && admin == (u.permission == PermissionLevel::Admin)),
{
    match state {
        None => UserStatusView::Loading,
        Some(None) => match client_id {
            None => UserStatusView::Loading,
            Some(Ok(id)) => UserStatusView::LoginButton(id.clone()),
            Some(Err(_)) => UserStatusView::LoginUnavailable,
        },
        Some(Some(u)) => UserStatusView::LoggedIn {
            email: u.email.clone(),
            admin: u.permission == PermissionLevel::Admin,
        },
    }
}

/// The visitor after Google's credential was checked: logged in as the
/// user the check gave; a failed check (only logged) changes nothing.
pub fn after_login(state: AuthState, verified: Result<AuthenticatedUser, String>) -> (res: AuthState)
    ensures
        verified matches Ok(u) ==> res == Some(Some(u)),
        verified is Err ==> res == state,
{
    match verified {
        Ok(u) => Some(Some(u)),
        Err(_) => state,
    }
}

/// The visitor after logging out: checked and not logged in, whatever the
/// server answered.
pub fn after_logout() -> (res: AuthState)
    ensures
        res == Some(None::<AuthenticatedUser>),
{
    Some(None)
}

} // verus!
