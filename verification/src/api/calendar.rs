//! The calendar's configuration.

use vstd::prelude::*;

verus! {

/// The Google Calendar API key to use, from the configured value: an empty
/// value (the default when unset) means none is configured, and the screen
/// then shows mock events.
pub fn get_calendar_api_key(configured: String) -> (res: Option<String>)
    ensures
        configured@.len() == 0 ==> res is None,
        configured@.len() > 0 ==> res == Some(configured),
{
    if configured.as_str().is_empty() {
        None
    } else {
        Some(configured)
    }
}

} // verus!
