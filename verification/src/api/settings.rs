//! Changing the screen's settings from the admin page.

use vstd::prelude::*;

use super::ApiError;
use crate::models::{AuthenticatedUser, Settings};
use crate::session::require_auth;
use crate::text::{has_prefix, lemma_trim_idempotent, starts_with, str_eq, trim, trimmed};

verus! {

/// Layout names the screen knows.
pub open spec fn known_layout(layout_type: Seq<char>) -> bool {
    layout_type == "mixed"@ || layout_type == "fullscreen_slideshow"@
}

/// Every Google Slides link starts with this.
pub open spec fn google_slides_prefix() -> Seq<char> {
    "https://docs.google.com/presentation/"@
}

/// A live slides link the settings accept, once trimmed: none at all, or a
/// Google Slides link.
pub open spec fn acceptable_live_url(url: Seq<char>) -> bool {
    url.len() == 0 || has_prefix(url, google_slides_prefix())
}

/// A live slides link is accepted exactly when it is empty or begins with
/// `https://docs.google.com/presentation/`: a Google Docs document, a
/// spreadsheet or any other site is refused.
pub proof fn lemma_accepted_links_are_presentations(url: Seq<char>)
    ensures
        acceptable_live_url(url) <==> (url.len() == 0 || (url.len() >= 37 && url.subrange(0, 37)
            == "https://docs.google.com/presentation/"@)),
        url.len() >= 33 && url.subrange(0, 33) == "https://docs.google.com/document/"@
            ==> !acceptable_live_url(url),
{
    reveal_strlit("https://docs.google.com/presentation/");
    reveal_strlit("https://docs.google.com/document/");
    if url.len() >= 33 && url.subrange(0, 33) == "https://docs.google.com/document/"@ && url.len() >= 37 {
        assert(url.subrange(0, 37)[24] == url.subrange(0, 33)[24]);
        assert("https://docs.google.com/presentation/"@[24] != "https://docs.google.com/document/"@[24]);
    }
}

/// Checks a settings change: the layout must be one the screen knows, and
/// the live slides link, trimmed of surrounding whitespace, must be empty or
/// a Google Slides link. Gives the trimmed link.
pub fn validate_settings_update(layout_type: &str, live_slides_url: &str) -> (res: Result<String, ApiError>)
    ensures
        !known_layout(layout_type@) ==> (res matches Err(ApiError::UnknownLayoutType(t)) && t@
            == layout_type@),
        known_layout(layout_type@) && !acceptable_live_url(trimmed(live_slides_url@)) ==> res matches Err(
            ApiError::NotGoogleSlidesUrl,
        ),
        known_layout(layout_type@) && acceptable_live_url(trimmed(live_slides_url@)) ==> (res matches Ok(
            u,
        ) && u@ == trimmed(live_slides_url@)),
        res matches Ok(u) ==> u@.len() == 0 || (u@.len() >= 37 && u@.subrange(0, 37)
            == "https://docs.google.com/presentation/"@),
{
    proof {
        reveal_strlit("https://docs.google.com/presentation/");
    }
    if !(str_eq(layout_type, "mixed") || str_eq(layout_type, "fullscreen_slideshow")) {
        return Err(ApiError::UnknownLayoutType(String::from_str(layout_type)));
    }
    let url = trim(live_slides_url);
    if !url.is_empty() && !starts_with(url, "https://docs.google.com/presentation/") {
        return Err(ApiError::NotGoogleSlidesUrl);
    }
    Ok(String::from_str(url))
}

/// A settings change by the session's user: refused when nobody is logged
/// in, then as `validate_settings_update` refuses. Otherwise the stored
/// singleton row (id 1) gets the new layout, live mode and trimmed live
/// slides link, and keeps its colour mode, which is not editable here.
pub fn update_settings(
    current: Option<AuthenticatedUser>,
    stored: Settings,
    layout_type: String,
    live_mode: bool,
    live_slides_url: &str,
) -> (res: Result<Settings, ApiError>)
    ensures
        current is None ==> res matches Err(ApiError::NotLoggedIn),
        current is Some && !known_layout(layout_type@) ==> (res matches Err(ApiError::UnknownLayoutType(t))
            && t@ == layout_type@),
        current is Some && known_layout(layout_type@) && !acceptable_live_url(trimmed(live_slides_url@))
            ==> res matches Err(ApiError::NotGoogleSlidesUrl),
        current is Some && known_layout(layout_type@) && acceptable_live_url(trimmed(live_slides_url@))
            ==> (res matches Ok(s) && {
            &&& s.id == 1
            &&& s.layout_type == layout_type
            &&& s.color_mode == stored.color_mode
            &&& s.live_mode == live_mode
            &&& s.live_slides_url@ == trimmed(live_slides_url@)
        }),
{
    match require_auth(current) {
        Ok(_) => {},
        Err(e) => return Err(e),
    }
    let url = match validate_settings_update(layout_type.as_str(), live_slides_url) {
        Ok(u) => u,
        Err(e) => return Err(e),
    };
    Ok(Settings { id: 1, layout_type, color_mode: stored.color_mode, live_mode, live_slides_url: url })
}

/// A live slides link the settings stored is accepted again unchanged:
/// saving the settings page a second time without edits stores the same
/// link.
pub proof fn lemma_stored_link_accepted_again(url: Seq<char>)
    requires
        acceptable_live_url(trimmed(url)),
    ensures
        trimmed(trimmed(url)) == trimmed(url),
        acceptable_live_url(trimmed(trimmed(url))),
{
    lemma_trim_idempotent(url);
}

} // verus!
