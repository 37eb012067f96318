//! The cached settings store both backend front-ends share: a single stored
//! row, read once from the database and then served from the cache, and
//! written through to the database before the cache takes the new value.
//!
//! The database work itself happens outside; each step below takes what the
//! last database call answered and says which call to make next, or what to
//! answer the request.

use vstd::prelude::*;

use super::models::Settings;

verus! {

/// Where a request to the store stands.
pub enum StorePhase {
    /// No request is running.
    Idle,
    /// A read missed the cache; the stored row is being loaded.
    Loading,
    /// There was no stored row; these defaults are being inserted.
    Inserting(Settings),
    /// An update was accepted; the stored row is being replaced by it.
    Replacing(Settings),
}

/// The store's state: the cached settings and the running request.
pub struct StoreState {
    pub cache: Option<Settings>,
    pub phase: StorePhase,
}

/// What the store asks of its caller next.
pub enum SettingsStep<E> {
    /// Load the first stored row and hand the answer to the load step.
    LoadRow,
    /// Insert these defaults and hand the answer to the insert step.
    InsertDefaults(Settings),
    /// Replace the stored row by these settings and hand the answer to the
    /// replace step.
    ReplaceRow(Settings),
    /// The read is answered with these settings.
    Found(Settings),
    /// The update is done.
    Updated,
    /// The request failed with this error.
    Failed(E),
}

/// A read: from the cache when it holds settings, else from the database.
pub open spec fn get_step<E>(st: StoreState) -> (StoreState, SettingsStep<E>) {
    match st.cache {
        Some(s) => (st, SettingsStep::Found(s)),
        None => (StoreState { cache: None, phase: StorePhase::Loading }, SettingsStep::LoadRow),
    }
}

/// The stored row arrived (or did not): a found row is cached and returned,
/// a missing one is replaced by `defaults`, and an error ends the read.
pub open spec fn row_loaded_step<E>(
    st: StoreState,
    row: Result<Option<Settings>, E>,
    defaults: Settings,
) -> (StoreState, SettingsStep<E>) {
    match row {
        Ok(Some(s)) => (StoreState { cache: Some(s), phase: StorePhase::Idle }, SettingsStep::Found(s)),
        Ok(None) => (
            StoreState { cache: st.cache, phase: StorePhase::Inserting(defaults) },
            SettingsStep::InsertDefaults(defaults),
        ),
        Err(e) => (StoreState { cache: st.cache, phase: StorePhase::Idle }, SettingsStep::Failed(e)),
    }
}

/// The defaults were inserted (or not): once stored they are cached and
/// returned.
pub open spec fn inserted_step<E>(st: StoreState, res: Result<(), E>) -> (StoreState, SettingsStep<E>)
    recommends
        st.phase is Inserting,
{
    let d = st.phase->Inserting_0;
    match res {
        Ok(()) => (StoreState { cache: Some(d), phase: StorePhase::Idle }, SettingsStep::Found(d)),
        Err(e) => (StoreState { cache: st.cache, phase: StorePhase::Idle }, SettingsStep::Failed(e)),
    }
}

/// An update: refused with the outcome of `check` when that is an error,
/// else written to the database.
pub open spec fn update_step<E>(st: StoreState, new: Settings, check: Result<(), E>) -> (
    StoreState,
    SettingsStep<E>,
) {
    match check {
        Ok(()) => (
            StoreState { cache: st.cache, phase: StorePhase::Replacing(new) },
            SettingsStep::ReplaceRow(new),
        ),
        Err(e) => (st, SettingsStep::Failed(e)),
    }
}

/// The stored row was replaced (or not): once stored the new settings are
/// cached.
pub open spec fn replaced_step<E>(st: StoreState, res: Result<(), E>) -> (StoreState, SettingsStep<E>)
    recommends
        st.phase is Replacing,
{
    let n = st.phase->Replacing_0;
    match res {
        Ok(()) => (StoreState { cache: Some(n), phase: StorePhase::Idle }, SettingsStep::Updated),
        Err(e) => (StoreState { cache: st.cache, phase: StorePhase::Idle }, SettingsStep::Failed(e)),
    }
}

/// Whether a request is running.
pub open spec fn is_idle(st: StoreState) -> bool {
    st.phase is Idle
}

/// A read after a successful write gives back what was written, and does so
/// from the cache, without asking the database: an accepted update that the
/// database stored, followed by a read, answers with the new settings.
pub proof fn lemma_read_after_write<E>(st: StoreState, new: Settings)
    requires
        is_idle(st),
    ensures
        ({
            let (s1, a1) = update_step::<E>(st, new, Ok(()));
            let (s2, a2) = replaced_step::<E>(s1, Ok(()));
            let (s3, a3) = get_step::<E>(s2);
            &&& a1 == SettingsStep::<E>::ReplaceRow(new)
            &&& a2 == SettingsStep::<E>::Updated
            &&& a3 == SettingsStep::<E>::Found(new)
            &&& s3 == s2
            &&& is_idle(s3)
        }),
{
}

/// Once a read has been answered, further reads give the same settings and
/// change nothing, until the next update.
pub proof fn lemma_cached_reads_stable<E>(st: StoreState)
    requires
        is_idle(st),
        st.cache is Some,
    ensures
        get_step::<E>(st) == (st, SettingsStep::<E>::Found(st.cache->0)),
        get_step::<E>(get_step::<E>(st).0) == get_step::<E>(st),
{
}

/// A read that had to load settings leaves them cached, whichever way it
/// found them: a stored row, or the inserted defaults.
pub proof fn lemma_loaded_settings_cached<E>(st: StoreState, row: Result<Option<Settings>, E>, defaults: Settings)
    requires
        is_idle(st),
        st.cache is None,
    ensures
        ({
            let (s1, a1) = get_step::<E>(st);
            let (s2, a2) = row_loaded_step::<E>(s1, row, defaults);
            &&& a1 == SettingsStep::<E>::LoadRow
            &&& (row matches Ok(Some(r)) ==> a2 == SettingsStep::<E>::Found(r) && s2.cache == Some(r))
            &&& (row matches Ok(None) ==> {
                let (s3, a3) = inserted_step::<E>(s2, Ok(()));
                a2 == SettingsStep::<E>::InsertDefaults(defaults) && a3 == SettingsStep::<E>::Found(defaults)
                    && s3.cache == Some(defaults) && is_idle(s3)
            })
        }),
{
}

/// The cache only takes values the database has stored: a refused update, or
/// a failed database call, leaves the cached settings as they were.
pub proof fn lemma_failures_keep_cache<E>(st: StoreState, new: Settings, err: E)
    requires
        is_idle(st),
    ensures
        update_step::<E>(st, new, Err(err)) == (st, SettingsStep::<E>::Failed(err)),
        ({
            let (s1, _) = update_step::<E>(st, new, Ok(()));
            let (s2, a2) = replaced_step::<E>(s1, Err(err));
            s2.cache == st.cache && is_idle(s2) && a2 == SettingsStep::<E>::Failed(err)
        }),
{
}

} // verus!
