//! The settings service: the cached settings store in front of a settings
//! repository, answering with `SettingsError`.

use vstd::prelude::*;

use super::errors::SettingsError;
use super::models::{
    copy_settings, empty_id_message, settings_valid, short_interval_message, Settings,
    DEFAULT_SLIDE_INTERVAL, MIN_SLIDE_INTERVAL,
};
use super::store::{
    get_step, inserted_step, replaced_step, row_loaded_step, update_step, SettingsStep, StorePhase,
    StoreState,
};
use crate::ids::{is_random_uuid, new_random_id};

verus! {

/// The settings store in front of the repository that holds the row.
pub struct SettingsService {
    cache: Option<Settings>,
    phase: StorePhase,
}

impl View for SettingsService {
    type V = StoreState;

    closed spec fn view(&self) -> StoreState {
        StoreState { cache: self.cache, phase: self.phase }
    }
}

impl SettingsService {
    /// An empty cache and no request running.
    pub fn new() -> (res: SettingsService)
        ensures
            res@.cache is None,
            res@.phase is Idle,
    {
        SettingsService { cache: None, phase: StorePhase::Idle }
    }

    /// Whether no request is running (a new one may start).
    pub fn is_idle(&self) -> (res: bool)
        ensures
            res == (self@.phase is Idle),
    {
        match self.phase {
            StorePhase::Idle => true,
            _ => false,
        }
    }

    /// Starts a read: answered from the cache when it holds settings, else
    /// the stored row must be loaded.
    pub fn get_settings(&mut self) -> (res: SettingsStep<SettingsError>)
        requires
            old(self)@.phase is Idle,
        ensures
            (final(self)@, res) == get_step::<SettingsError>(old(self)@),
    {
        match &self.cache {
            Some(s) => SettingsStep::Found(copy_settings(s)),
            None => {
                self.phase = StorePhase::Loading;
                SettingsStep::LoadRow
            },
        }
    }

    /// Continues a read with the repository's answer for the stored row. A
    /// missing row is replaced by defaults with a fresh random id, dark mode
    /// off and a three-second interval.
    pub fn ensure_settings_exist(&mut self, row: Result<Option<Settings>, SettingsError>) -> (res:
        SettingsStep<SettingsError>)
        requires
            old(self)@.phase is Loading,
        ensures
            row matches Ok(None) ==> exists|d: Settings|
                {
                    &&& is_random_uuid(d.id@)
                    &&& !d.dark_mode
                    &&& d.slide_interval == DEFAULT_SLIDE_INTERVAL
                    &&& (final(self)@, res) == row_loaded_step(old(self)@, row, d)
                },
            !(row matches Ok(None)) ==> (final(self)@, res) == row_loaded_step(
                old(self)@,
                row,
                arbitrary(),
            ),
    {
        match row {
            Ok(Some(s)) => {
                let answer = copy_settings(&s);
                self.cache = Some(s);
                self.phase = StorePhase::Idle;
                SettingsStep::Found(answer)
            },
            Ok(None) => {
                let d = Settings { id: new_random_id(), dark_mode: false, slide_interval: DEFAULT_SLIDE_INTERVAL };
                let answer = copy_settings(&d);
                let ghost gd = d;
                self.phase = StorePhase::Inserting(d);
                let step = SettingsStep::<SettingsError>::InsertDefaults(answer);
                assert((self@, step) == row_loaded_step(old(self)@, row, gd));
                step
            },
            Err(e) => {
                self.phase = StorePhase::Idle;
                SettingsStep::Failed(e)
            },
        }
    }

    /// Finishes a read that inserted defaults, with the repository's answer.
    pub fn defaults_saved(&mut self, res: Result<(), SettingsError>) -> (step: SettingsStep<SettingsError>)
        requires
            old(self)@.phase is Inserting,
        ensures
            (final(self)@, step) == inserted_step(old(self)@, res),
    {
        let mut phase = StorePhase::Idle;
        std::mem::swap(&mut phase, &mut self.phase);
        match phase {
            StorePhase::Inserting(d) => match res {
                Ok(()) => {
                    let answer = copy_settings(&d);
                    self.cache = Some(d);
                    SettingsStep::Found(answer)
                },
                Err(e) => SettingsStep::Failed(e),
            },
            _ => {
                proof {
                    assert(false);
                }
                SettingsStep::Updated
            },
        }
    }

    /// Starts an update: settings with an interval under a second, or else
    /// with an empty id, are refused; others are saved first.
    pub fn update_settings(&mut self, settings: Settings) -> (res: SettingsStep<SettingsError>)
        requires
            old(self)@.phase is Idle,
        ensures
            !settings_valid(settings) ==> {
                &&& final(self)@ == old(self)@
                &&& res matches SettingsStep::Failed(SettingsError::Validation(m))
                &&& m@ == (if settings.slide_interval < MIN_SLIDE_INTERVAL {
                    short_interval_message()
                } else {
                    empty_id_message()
                })
            },
            settings_valid(settings) ==> (final(self)@, res) == update_step::<SettingsError>(
                old(self)@,
                settings,
                Ok(()),
            ),
    {
        if settings.slide_interval < MIN_SLIDE_INTERVAL {
            return SettingsStep::Failed(
                SettingsError::Validation(String::from_str("Slide interval must be >= 1000ms")),
            );
        }
        if settings.id.as_str().is_empty() {
            return SettingsStep::Failed(SettingsError::Validation(String::from_str("ID cannot be empty")));
        }
        let answer = copy_settings(&settings);
        self.phase = StorePhase::Replacing(settings);
        SettingsStep::ReplaceRow(answer)
    }

    /// Finishes an update with the repository's answer; once stored, the new
    /// settings are cached.
    pub fn settings_saved(&mut self, res: Result<(), SettingsError>) -> (step: SettingsStep<SettingsError>)
        requires
            old(self)@.phase is Replacing,
        ensures
            (final(self)@, step) == replaced_step(old(self)@, res),
    {
        let mut phase = StorePhase::Idle;
        std::mem::swap(&mut phase, &mut self.phase);
        match phase {
            StorePhase::Replacing(n) => match res {
                Ok(()) => {
                    self.cache = Some(n);
                    SettingsStep::Updated
                },
                Err(e) => SettingsStep::Failed(e),
            },
            _ => {
                proof {
                    assert(false);
                }
                SettingsStep::Updated
            },
        }
    }
}

} // verus!
