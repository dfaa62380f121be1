//! The periodic cache-synchronization protocol.
//!
//! A root context arms a short initialization tick at configure time. On
//! each tick it either pulls the authoritative quota set (uninitialized
//! cache) or pushes the current blob for reconciliation (initialized
//! cache); after a successful dispatch the next tick fires at the
//! steady-state refresh cadence, after a failed one at the short
//! initialization interval, so an unreachable backend is retried quickly
//! rather than after a full refresh window. The host performs the calls
//! and the store writes; this module decides them.

use vstd::prelude::*;
use crate::config::FilterConfig;
use crate::json::spec_is_json_object;

verus! {

/// The short interval, in seconds, of the initialization tick and of
/// every fast retry.
pub const INITIALISATION_TICK_SECS: u64 = 10;

/// What a root context does right after its configuration document is
/// accepted.
pub struct SchedulerInit {
    /// The parsed configuration.
    pub config: FilterConfig,
    /// The first tick to arm: the short initialization interval.
    pub tick_secs: u64,
    /// Whether to clear the shared cache key before the first tick.
    pub reset_cache: bool,
}

/// The decision at configure time: a missing document or one that is not
/// a JSON object fails configuration (the instance does not activate);
/// otherwise the instance starts with the document's configuration, an
/// armed initialization tick, and a cleared cache key.
pub fn on_configure(doc: Option<&Vec<u8>>) -> (r: Option<SchedulerInit>)
    ensures
        match doc {
            None => r is None,
            Some(d) => match r {
                None => !spec_is_json_object(d@),
                Some(init) => {
                    &&& spec_is_json_object(d@)
                    &&& init.config@ == crate::config::spec_config_of(d@)
                    &&& init.tick_secs == INITIALISATION_TICK_SECS
                    &&& init.reset_cache
                },
            },
        },
{
    match doc {
        None => None,
        Some(d) => match FilterConfig::from_document(d.as_slice()) {
            None => None,
            Some(config) => Some(
                SchedulerInit { config, tick_secs: INITIALISATION_TICK_SECS, reset_cache: true },
            ),
        },
    }
}

/// The synchronization call one tick issues.
pub enum SyncCall {
    /// The cache is uninitialized: pull the authoritative quota set with
    /// an empty-bodied call.
    Pull,
    /// The cache holds data: push the current blob, verbatim, for
    /// reconciliation.
    Push { blob: Vec<u8> },
}

/// The call to issue on a tick, from the current content of the shared
/// cache key: pull when uninitialized, push the blob verbatim when not.
pub fn plan_tick(cache: Option<Vec<u8>>) -> (c: SyncCall)
    ensures
        match cache {
            None => c is Pull,
            Some(b) => c matches SyncCall::Push { blob } && blob@ == b@,
        },
{
    match cache {
        None => SyncCall::Pull,
        Some(b) => SyncCall::Push { blob: b },
    }
}

/// The interval to rearm after issuing the tick's call: the steady-state
/// refresh cadence when the dispatch was accepted, the short
/// initialization interval when it failed, for a fast retry.
pub fn rearm_after_dispatch(config: &FilterConfig, dispatch_ok: bool) -> (t: u64)
    ensures
        dispatch_ok ==> t == config.cache_refresh_secs,
        !dispatch_ok ==> t == INITIALISATION_TICK_SECS,
{
    if dispatch_ok {
        config.cache_refresh_secs
    } else {
        INITIALISATION_TICK_SECS
    }
}

/// What to do with the shared cache when the synchronization response
/// arrives.
pub enum SyncUpdate {
    /// Overwrite the cache key with these bytes, verbatim.
    WriteCache { blob: Vec<u8> },
    /// An empty response body: leave the cache as it is.
    Skip,
}

/// The decision on the synchronization response: a body is written to the
/// cache verbatim, a missing body leaves the cache untouched.
pub fn on_sync_response(body: Option<Vec<u8>>) -> (u: SyncUpdate)
    ensures
        match body {
            Some(b) => u matches SyncUpdate::WriteCache { blob } && blob@ == b@,
            None => u is Skip,
        },
{
    match body {
        None => SyncUpdate::Skip,
        Some(b) => SyncUpdate::WriteCache { blob: b },
    }
}

/// The interval to rearm after the cache write: a failed write (a
/// versioned-write conflict included) rearms the short initialization
/// interval for a fast retry; a successful one leaves the armed cadence
/// alone.
pub fn rearm_after_cache_write(write_ok: bool) -> (t: Option<u64>)
    ensures
        write_ok ==> t is None,
        !write_ok ==> t == Some(INITIALISATION_TICK_SECS),
{
    if write_ok {
        None
    } else {
        Some(INITIALISATION_TICK_SECS)
    }
}

} // verus!
