//! The startup decision: whether to spawn the server, and what the state is
//! initialized with.
//!
//! A production build performs exactly one spawn attempt and stores the
//! resulting handle; a spawn failure is non-fatal and leaves the slot empty.
//! A development build performs no spawn attempt at all: an externally
//! managed server is assumed to be running already.

use vstd::prelude::*;
use crate::state::ApplicationState;
use crate::supervisor::SpawnError;

verus! {

/// The closed set of build configurations, fixed at build time.
#[derive(Clone, Copy, Debug, PartialEq, Eq, Structural)]
pub enum BuildMode {
    Development,
    Production,
}

/// Whether startup spawns a server process in this build mode.
pub open spec fn spawns_server(mode: BuildMode) -> bool {
    mode is Production
}

/// How many spawn attempts one application run performs: one in production,
/// none in development.
pub open spec fn spawn_attempts(mode: BuildMode) -> nat {
    if spawns_server(mode) {
        1
    } else {
        0
    }
}

/// The handle stored after one production spawn attempt: the new process on
/// success, no handle on failure.
pub open spec fn handle_of_attempt<H>(outcome: Result<H, SpawnError>) -> Option<H> {
    match outcome {
        Ok(h) => Some(h),
        Err(_) => None,
    }
}

/// Whether startup spawns a server process in this build mode: only a
/// production build manages its own server.
pub fn should_spawn_server(mode: BuildMode) -> (b: bool)
    ensures
        b == spawns_server(mode),
{
    match mode {
        BuildMode::Development => false,
        BuildMode::Production => true,
    }
}

/// Runs the startup routine: in a production build, performs the single
/// spawn attempt by calling `spawn` exactly once and stores its outcome; in
/// a development build, never calls `spawn` and stores no handle. A failed
/// spawn is non-fatal: startup still completes, with an empty slot.
///
/// `spawn` is the one effectful step, supplied by the surrounding shell; it
/// is consumed by the call, so a second attempt within this routine is
/// impossible.
pub fn run_startup<H, F: FnOnce() -> Result<H, SpawnError>>(mode: BuildMode, spawn: F) -> (s:
    ApplicationState<H>)
    requires
        spawns_server(mode) ==> call_requires(spawn, ()),
    ensures
        !spawns_server(mode) ==> s.initial_handle() is None,
        spawns_server(mode) ==> (exists|outcome: Result<H, SpawnError>|
            call_ensures(spawn, (), outcome) && s.initial_handle() == handle_of_attempt(
                outcome,
            )),
{
    match mode {
        BuildMode::Development => ApplicationState::initialize(None),
        BuildMode::Production => {
            let outcome = spawn();
            let ghost attempted = outcome;
            let s = match outcome {
                Ok(handle) => ApplicationState::initialize(Some(handle)),
                Err(_) => ApplicationState::initialize(None),
            };
            proof {
                assert(call_ensures(spawn, (), attempted));
                assert(s.initial_handle() == handle_of_attempt(attempted));
            }
            s
        },
    }
}

/// At most one spawn attempt occurs per application run: none in a
/// development build, exactly one in a production build.
pub proof fn lemma_at_most_one_spawn_attempt(mode: BuildMode)
    ensures
        spawn_attempts(mode) <= 1,
        mode is Development ==> spawn_attempts(mode) == 0,
        mode is Production ==> spawn_attempts(mode) == 1,
{
}

} // verus!
