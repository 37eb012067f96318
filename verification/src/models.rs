//! The data the screen and the admin page share: slides, users, settings and
//! the authenticated user of a session.

use vstd::prelude::*;

verus! {

/// A calendar date and time of day, as stored for a slide's first and last
/// day (a slide's dates are always at midnight when it is uploaded).
#[derive(Debug, Clone, Copy, PartialEq, Eq)]
pub struct SlideDateTime {
    pub year: i32,
    pub month: u32,
    pub day: u32,
    pub hour: u32,
    pub minute: u32,
    pub second: u32,
    pub nanosecond: u32,
}

impl SlideDateTime {
    /// Midnight at the start of the given day.
    pub open spec fn midnight_spec(year: i32, month: u32, day: u32) -> SlideDateTime {
        SlideDateTime { year, month, day, hour: 0, minute: 0, second: 0, nanosecond: 0 }
    }

    /// Midnight at the start of the given day.
    #[verifier::when_used_as_spec(midnight_spec)]
    pub fn midnight(year: i32, month: u32, day: u32) -> (res: SlideDateTime)
        ensures
            res == SlideDateTime::midnight_spec(year, month, day),
    {
        SlideDateTime { year, month, day, hour: 0, minute: 0, second: 0, nanosecond: 0 }
    }
}

/// An uploaded slide: an image with a caption, shown between two dates.
#[derive(Debug, Clone, PartialEq)]
pub struct Slide {
    pub id: String,
    pub caption: String,
    pub start_date: SlideDateTime,
    pub end_date: SlideDateTime,
    pub active: bool,
    pub filetype: String,
}

/// A user allowed to log in to the admin page.
#[derive(Debug, Clone, PartialEq)]
pub struct User {
    pub id: String,
    pub email: String,
    pub admin: bool,
}

/// The screen's settings (a single stored row).
#[derive(Debug, Clone, PartialEq)]
pub struct Settings {
    pub id: i32,
    pub layout_type: String,
    pub color_mode: String,
    pub live_mode: bool,
    pub live_slides_url: String,
}

impl Default for Settings {
    /// The settings the screen falls back to while none could be loaded.
    fn default() -> (res: Settings)
        ensures
            res.id == 0,
            res.layout_type@ == Seq::<char>::empty(),
            res.color_mode@ == Seq::<char>::empty(),
            !res.live_mode,
            res.live_slides_url@ == Seq::<char>::empty(),
    {
        Settings {
            id: 0,
            layout_type: String::new(),
            color_mode: String::new(),
            live_mode: false,
            live_slides_url: String::new(),
        }
    }
}

/// A partial change to a stored slide: each `Some` field replaces the
/// stored one.
#[derive(Debug)]
pub struct UpdateSlide<'a> {
    pub id: &'a str,
    pub caption: Option<&'a str>,
    pub start_date: Option<SlideDateTime>,
    pub end_date: Option<SlideDateTime>,
    pub active: Option<bool>,
    pub filetype: Option<&'a str>,
}

/// Permission level for an authenticated user. Crosses the client/server
/// boundary, unlike the stored `User` whose `admin: bool` is the on-disk
/// representation.
#[derive(Debug, Clone, Copy, PartialEq, Eq, Structural)]
pub enum PermissionLevel {
    User,
    Admin,
}

impl From<bool> for PermissionLevel {
    fn from(admin: bool) -> (res: PermissionLevel) {
        if admin {
            PermissionLevel::Admin
        } else {
            PermissionLevel::User
        }
    }
}

impl vstd::std_specs::convert::FromSpecImpl<bool> for PermissionLevel {
    open spec fn obeys_from_spec() -> bool {
        true
    }

    open spec fn from_spec(admin: bool) -> PermissionLevel {
        if admin {
            PermissionLevel::Admin
        } else {
            PermissionLevel::User
        }
    }
}

/// The stored `admin` flag that a permission level corresponds to.
pub open spec fn is_admin_level(p: PermissionLevel) -> bool {
    p == PermissionLevel::Admin
}

/// Going from the stored flag to the permission level and back loses
/// nothing, and neither does the way back: the two representations of a
/// user's rights are interchangeable.
pub proof fn lemma_permission_round_trip(admin: bool, p: PermissionLevel)
    ensures
        is_admin_level(<PermissionLevel as vstd::std_specs::convert::FromSpec<bool>>::from_spec(admin)) == admin,
        <PermissionLevel as vstd::std_specs::convert::FromSpec<bool>>::from_spec(is_admin_level(p)) == p,
{
}

/// The authenticated user, as stored in the session cookie and returned by
/// the authentication requests.
#[derive(Debug, Clone)]
pub struct AuthenticatedUser {
    pub email: String,
    pub permission: PermissionLevel,
}

} // verus!
