//! The backend's settings actions: the cached settings store, answering with
//! the backend's own error type.

use vstd::prelude::*;

use super::models::{copy_settings, short_interval_message, Settings, DEFAULT_SLIDE_INTERVAL, MIN_SLIDE_INTERVAL};
use super::store::{
    get_step, inserted_step, replaced_step, row_loaded_step, update_step, SettingsStep, StorePhase,
    StoreState,
};
use crate::ids::{is_random_uuid, new_random_id};

verus! {

/// Why a settings request failed.
#[derive(Debug)]
pub enum Error {
    /// The database refused a query; its message.
    Database(String),
    /// No database connection could be had; the reason.
    Connection(String),
    NotFound,
    /// The new settings were refused; why.
    Validation(String),
}

/// The text the error is reported with.
pub open spec fn error_message(e: Error) -> Seq<char> {
    match e {
        Error::Database(m) => "Database error: "@ + m@,
        Error::Connection(m) => "Connection error: "@ + m@,
        Error::NotFound => "Settings not found"@,
        Error::Validation(m) => "Validation error: "@ + m@,
    }
}

impl Error {
    /// The text the error is reported with.
    pub fn message(&self) -> (res: String)
        ensures
            res@ == error_message(*self),
    {
        match self {
            Error::Database(m) => String::from_str("Database error: ").concat(m.as_str()),
            Error::Connection(m) => String::from_str("Connection error: ").concat(m.as_str()),
            Error::NotFound => String::from_str("Settings not found"),
            Error::Validation(m) => String::from_str("Validation error: ").concat(m.as_str()),
        }
    }
}

/// The settings store behind the backend's `/api/settings` routes.
pub struct SettingsActions {
    cache: Option<Settings>,
    phase: StorePhase,
}

impl View for SettingsActions {
    type V = StoreState;

    closed spec fn view(&self) -> StoreState {
        StoreState { cache: self.cache, phase: self.phase }
    }
}

impl SettingsActions {
    /// An empty cache and no request running.
    pub fn new() -> (res: SettingsActions)
        ensures
            res@.cache is None,
            res@.phase is Idle,
    {
        SettingsActions { cache: None, phase: StorePhase::Idle }
    }

    /// Whether no request is running (a new one may start).
    pub fn is_idle(&self) -> (res: bool)
        ensures
            res == (self@.phase is Idle),
    {
        match self.phase {
            StorePhase::Idle => true,
            _ => false,
        }
    }

    /// Starts a read: answered from the cache when it holds settings, else
    /// the stored row must be loaded.
    pub fn get_settings(&mut self) -> (res: SettingsStep<Error>)
        requires
            old(self)@.phase is Idle,
        ensures
            (final(self)@, res) == get_step::<Error>(old(self)@),
    {
        match &self.cache {
            Some(s) => SettingsStep::Found(copy_settings(s)),
            None => {
                self.phase = StorePhase::Loading;
                SettingsStep::LoadRow
            },
        }
    }

    /// Continues a read with the database's answer for the first stored
    /// row. A missing row is replaced by defaults with a fresh random id,
    /// dark mode off and a three-second interval.
    pub fn row_loaded(&mut self, row: Result<Option<Settings>, Error>) -> (res: SettingsStep<Error>)
        requires
            old(self)@.phase is Loading,
        ensures
            row matches Ok(None) ==> exists|d: Settings|
                {
                    &&& is_random_uuid(d.id@)
                    &&& !d.dark_mode
                    &&& d.slide_interval == DEFAULT_SLIDE_INTERVAL
                    &&& (final(self)@, res) == row_loaded_step(old(self)@, row, d)
                },
            !(row matches Ok(None)) ==> (final(self)@, res) == row_loaded_step(
                old(self)@,
                row,
                arbitrary(),
            ),
    {
        match row {
            Ok(Some(s)) => {
                let answer = copy_settings(&s);
                self.cache = Some(s);
                self.phase = StorePhase::Idle;
                SettingsStep::Found(answer)
            },
            Ok(None) => {
                let d = Settings { id: new_random_id(), dark_mode: false, slide_interval: DEFAULT_SLIDE_INTERVAL };
                let answer = copy_settings(&d);
                let ghost gd = d;
                self.phase = StorePhase::Inserting(d);
                let step = SettingsStep::<Error>::InsertDefaults(answer);
                assert((self@, step) == row_loaded_step(old(self)@, row, gd));
                step
            },
            Err(e) => {
                self.phase = StorePhase::Idle;
                SettingsStep::Failed(e)
            },
        }
    }

    /// Finishes a read that inserted defaults, with the database's answer.
    pub fn defaults_inserted(&mut self, res: Result<(), Error>) -> (step: SettingsStep<Error>)
        requires
            old(self)@.phase is Inserting,
        ensures
            (final(self)@, step) == inserted_step(old(self)@, res),
    {
        let mut phase = StorePhase::Idle;
        std::mem::swap(&mut phase, &mut self.phase);
        match phase {
            StorePhase::Inserting(d) => match res {
                Ok(()) => {
                    let answer = copy_settings(&d);
                    self.cache = Some(d);
                    SettingsStep::Found(answer)
                },
                Err(e) => SettingsStep::Failed(e),
            },
            _ => {
                proof {
                    assert(false);
                }
                SettingsStep::Updated
            },
        }
    }

    /// Starts an update: settings with an interval under a second are
    /// refused, others are written to the database first.
    pub fn update_settings(&mut self, new_settings: Settings) -> (res: SettingsStep<Error>)
        requires
            old(self)@.phase is Idle,
        ensures
            new_settings.slide_interval < MIN_SLIDE_INTERVAL ==> {
                &&& final(self)@ == old(self)@
                &&& res matches SettingsStep::Failed(Error::Validation(m))
                &&& m@ == short_interval_message()
            },
            new_settings.slide_interval >= MIN_SLIDE_INTERVAL ==> (final(self)@, res) == update_step::<
                Error,
            >(old(self)@, new_settings, Ok(())),
    {
        if new_settings.slide_interval < MIN_SLIDE_INTERVAL {
            return SettingsStep::Failed(Error::Validation(String::from_str("Slide interval must be >= 1000ms")));
        }
        let answer = copy_settings(&new_settings);
        self.phase = StorePhase::Replacing(new_settings);
        SettingsStep::ReplaceRow(answer)
    }

    /// Finishes an update with the database's answer; once stored, the new
    /// settings are cached.
    pub fn row_replaced(&mut self, res: Result<(), Error>) -> (step: SettingsStep<Error>)
        requires
            old(self)@.phase is Replacing,
        ensures
            (final(self)@, step) == replaced_step(old(self)@, res),
    {
        let mut phase = StorePhase::Idle;
        std::mem::swap(&mut phase, &mut self.phase);
        match phase {
            StorePhase::Replacing(n) => match res {
                Ok(()) => {
                    self.cache = Some(n);
                    SettingsStep::Updated
                },
                Err(e) => SettingsStep::Failed(e),
            },
            _ => {
                proof {
                    assert(false);
                }
                SettingsStep::Updated
            },
        }
    }
}

} // verus!
