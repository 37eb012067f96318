//! The backend's settings record and its builder.

use vstd::prelude::*;

use crate::ids::{is_random_uuid, new_random_id};

verus! {

/// The backend's settings row.
#[derive(Debug, Clone)]
pub struct Settings {
    pub id: String,
    pub dark_mode: bool,
    pub slide_interval: i32,
}

/// Shortest slide interval the backend accepts, in milliseconds.
pub const MIN_SLIDE_INTERVAL: i32 = 1000;

/// Slide interval of fresh settings, in milliseconds.
pub const DEFAULT_SLIDE_INTERVAL: i32 = 3000;

/// The settings are acceptable: an id, and an interval of at least a second.
pub open spec fn settings_valid(s: Settings) -> bool {
    s.id@.len() > 0 && s.slide_interval >= MIN_SLIDE_INTERVAL
}

/// Message for an empty id.
pub open spec fn empty_id_message() -> Seq<char> {
    "ID cannot be empty"@
}

/// Message for a slide interval under a second.
pub open spec fn short_interval_message() -> Seq<char> {
    "Slide interval must be >= 1000ms"@
}

/// The defaults a read stores when there are no settings yet (a random id,
/// dark mode off, a three-second interval) pass the checks an update must
/// pass, so storing them back is accepted.
pub proof fn lemma_defaults_valid(d: Settings)
    requires
        is_random_uuid(d.id@),
        d.slide_interval == DEFAULT_SLIDE_INTERVAL,
    ensures
        settings_valid(d),
{
}

/// A copy of `s` (the fields' own clones keep their values).
pub fn copy_settings(s: &Settings) -> (res: Settings)
    ensures
        res == *s,
{
    Settings { id: s.id.clone(), dark_mode: s.dark_mode, slide_interval: s.slide_interval }
}

impl Settings {
    /// A builder with neither field chosen yet.
    pub fn builder() -> (res: SettingsBuilder)
        ensures
            res@ == (None::<bool>, None::<i32>),
    {
        SettingsBuilder { dark_mode: None, slide_interval: None }
    }

    /// Checks the id first, then the interval.
    fn validate(&self) -> (res: Result<(), String>)
        ensures
            res is Ok <==> settings_valid(*self),
            res matches Err(e) ==> e@ == (if self.id@.len() == 0 {
                empty_id_message()
            } else {
                short_interval_message()
            }),
    {
        if self.id.as_str().is_empty() {
            return Err(String::from_str("ID cannot be empty"));
        }
        if self.slide_interval < MIN_SLIDE_INTERVAL {
            return Err(String::from_str("Slide interval must be >= 1000ms"));
        }
        Ok(())
    }
}

/// Collects the chosen fields of new settings.
pub struct SettingsBuilder {
    dark_mode: Option<bool>,
    slide_interval: Option<i32>,
}

impl View for SettingsBuilder {
    /// The dark-mode flag and the interval chosen so far.
    type V = (Option<bool>, Option<i32>);

    closed spec fn view(&self) -> (Option<bool>, Option<i32>) {
        (self.dark_mode, self.slide_interval)
    }
}

impl Default for SettingsBuilder {
    fn default() -> (res: SettingsBuilder)
        ensures
            res@ == (None::<bool>, None::<i32>),
    {
        SettingsBuilder { dark_mode: None, slide_interval: None }
    }
}

/// The interval `build` uses: the chosen one, or the default.
pub open spec fn chosen_interval(b: (Option<bool>, Option<i32>)) -> i32 {
    match b.1 {
        Some(v) => v,
        None => DEFAULT_SLIDE_INTERVAL,
    }
}

/// The dark-mode flag `build` uses: the chosen one, or off.
pub open spec fn chosen_dark_mode(b: (Option<bool>, Option<i32>)) -> bool {
    match b.0 {
        Some(v) => v,
        None => false,
    }
}

impl SettingsBuilder {
    /// Chooses the dark-mode flag.
    pub fn dark_mode(self, value: bool) -> (res: SettingsBuilder)
        ensures
            res@ == (Some(value), self@.1),
    {
        SettingsBuilder { dark_mode: Some(value), slide_interval: self.slide_interval }
    }

    /// Chooses the slide interval, in milliseconds.
    pub fn slide_interval(self, value: i32) -> (res: SettingsBuilder)
        ensures
            res@ == (self@.0, Some(value)),
    {
        SettingsBuilder { dark_mode: self.dark_mode, slide_interval: Some(value) }
    }

    /// Settings with a fresh random id and the chosen (or default) fields;
    /// refused when the interval is under a second.
    pub fn build(self) -> (res: Result<Settings, String>)
        ensures
            res is Ok <==> chosen_interval(self@) >= MIN_SLIDE_INTERVAL,
            res matches Ok(s) ==> {
                &&& s.dark_mode == chosen_dark_mode(self@)
                &&& s.slide_interval == chosen_interval(self@)
                &&& is_random_uuid(s.id@)
            },
            res matches Err(e) ==> e@ == short_interval_message(),
    {
        let settings = Settings {
            id: new_random_id(),
            dark_mode: match self.dark_mode {
                Some(v) => v,
                None => false,
            },
            slide_interval: match self.slide_interval {
                Some(v) => v,
                None => DEFAULT_SLIDE_INTERVAL,
            },
        };
        match settings.validate() {
            Ok(()) => Ok(settings),
            Err(e) => Err(e),
        }
    }
}

} // verus!
