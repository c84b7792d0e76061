//! Clock bootstrap policy: produce exactly one trustworthy snapshot per
//! boot, never failing visibly.
//!
//! The machine tries the persistent store first, then one network fetch,
//! then the hardcoded fallback; it always terminates in `Done` and never
//! retries within a boot. The runtime performs the store query and the
//! fetch and feeds their outcomes in here.

use vstd::prelude::*;

use crate::clock::ClockSnapshot;
use crate::http::Error;

verus! {

/// The bootstrap policy's states.
#[derive(Clone, Copy, PartialEq, Eq, Structural, Debug)]
pub enum BootstrapState {
    /// Query the persistent store.
    TryPersistent,
    /// The store was empty: drive one network fetch.
    TryNetwork,
    /// The fetch failed: adopt the hardcoded fallback.
    Fallback,
    /// A snapshot has been adopted; bootstrap is over for this boot.
    Done(ClockSnapshot),
}

/// What the policy asks the runtime to do next.
#[derive(Clone, Copy, PartialEq, Eq, Structural, Debug)]
pub enum BootstrapAction {
    /// Load from the persistent store.
    QueryStore,
    /// Invoke the time-fetch client once.
    FetchTime,
    /// Adopt the fallback snapshot; no outside work.
    AdoptFallback,
    /// Nothing: the policy is done.
    Finished,
}

/// Any snapshot a bootstrap state carries is well formed.
pub open spec fn state_wf(s: BootstrapState) -> bool {
    s matches BootstrapState::Done(snap) ==> snap.wf()
}

pub open spec fn spec_required_action(s: BootstrapState) -> BootstrapAction {
    match s {
        BootstrapState::TryPersistent => BootstrapAction::QueryStore,
        BootstrapState::TryNetwork => BootstrapAction::FetchTime,
        BootstrapState::Fallback => BootstrapAction::AdoptFallback,
        BootstrapState::Done(_) => BootstrapAction::Finished,
    }
}

pub open spec fn spec_on_store_loaded(loaded: Option<ClockSnapshot>) -> BootstrapState {
    match loaded {
        Some(snap) => BootstrapState::Done(snap),
        None => BootstrapState::TryNetwork,
    }
}

/// A fetched timestamp is adopted with the UTC offset.
pub open spec fn spec_on_fetch(fetched: Result<i64, Error>) -> BootstrapState {
    match fetched {
        Ok(epoch) => BootstrapState::Done(
            ClockSnapshot { epoch_seconds: epoch, offset_seconds: 0 },
        ),
        Err(_) => BootstrapState::Fallback,
    }
}

/// The fallback snapshot: epoch zero, UTC.
pub open spec fn spec_fallback_state() -> BootstrapState {
    BootstrapState::Done(ClockSnapshot { epoch_seconds: 0, offset_seconds: 0 })
}

impl BootstrapState {
    /// Every boot starts by trying the persistent store.
    pub fn start() -> (s: BootstrapState)
        ensures
            s == BootstrapState::TryPersistent,
            state_wf(s),
    {
        BootstrapState::TryPersistent
    }

    /// What the runtime must do in this state.
    pub fn required_action(&self) -> (a: BootstrapAction)
        ensures
            a == spec_required_action(*self),
    {
        match self {
            BootstrapState::TryPersistent => BootstrapAction::QueryStore,
            BootstrapState::TryNetwork => BootstrapAction::FetchTime,
            BootstrapState::Fallback => BootstrapAction::AdoptFallback,
            BootstrapState::Done(_) => BootstrapAction::Finished,
        }
    }

    /// Feed in what the persistent store returned: a present snapshot is
    /// adopted immediately, skipping all network activity; an absent one
    /// sends the policy to the network.
    pub fn on_store_loaded(self, loaded: Option<ClockSnapshot>) -> (next: BootstrapState)
        requires
            self == BootstrapState::TryPersistent,
            loaded matches Some(snap) ==> snap.wf(),
        ensures
            next == spec_on_store_loaded(loaded),
            state_wf(next),
    {
        match loaded {
            Some(snap) => BootstrapState::Done(snap),
            None => BootstrapState::TryNetwork,
        }
    }

    /// Feed in the outcome of the single network fetch: a timestamp is
    /// adopted with the UTC offset; any failure is absorbed here and sends
    /// the policy to the fallback — it is never surfaced further.
    pub fn on_fetch(self, fetched: Result<i64, Error>) -> (next: BootstrapState)
        requires
            self == BootstrapState::TryNetwork,
        ensures
            next == spec_on_fetch(fetched),
            state_wf(next),
    {
        match fetched {
            Ok(epoch) => BootstrapState::Done(
                ClockSnapshot { epoch_seconds: epoch, offset_seconds: 0 },
            ),
            Err(_) => BootstrapState::Fallback,
        }
    }

    /// Adopt the hardcoded fallback: epoch zero, UTC.
    pub fn on_fallback(self) -> (next: BootstrapState)
        requires
            self == BootstrapState::Fallback,
        ensures
            next == spec_fallback_state(),
            state_wf(next),
    {
        BootstrapState::Done(ClockSnapshot { epoch_seconds: 0, offset_seconds: 0 })
    }

    /// The adopted snapshot, once the policy is done.
    pub fn snapshot(&self) -> (r: Option<ClockSnapshot>)
        ensures
            (*self) matches BootstrapState::Done(snap) ==> r == Some(snap),
            (*self) is Done <==> r is Some,
    {
        match self {
            BootstrapState::Done(snap) => Some(*snap),
            _ => None,
        }
    }
}

/// Law: a fetch is only ever requested from the `TryNetwork` state, and a
/// present persistent snapshot completes bootstrap in one step without
/// passing through it — so the time-fetch client is never invoked.
pub proof fn lemma_persistent_hit_skips_network(snap: ClockSnapshot)
    ensures
        spec_on_store_loaded(Some(snap)) == BootstrapState::Done(snap),
        forall|s: BootstrapState|
            spec_required_action(s) == BootstrapAction::FetchTime <==> s
                == BootstrapState::TryNetwork,
{
}

/// Law: with an absent persistent snapshot and any failed fetch — a DNS
/// failure among them — bootstrap terminates with the fallback snapshot,
/// epoch zero at UTC.
pub proof fn lemma_absent_store_failed_fetch_falls_back(e: Error)
    ensures
        spec_on_store_loaded(None) == BootstrapState::TryNetwork,
        spec_on_fetch(Err(e)) == BootstrapState::Fallback,
        spec_fallback_state() == BootstrapState::Done(
            ClockSnapshot { epoch_seconds: 0, offset_seconds: 0 },
        ),
{
}

} // verus!
