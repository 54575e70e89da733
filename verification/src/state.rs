//! Lock-guarded ownership of the (at most one) supervised process handle.
//!
//! `ApplicationState` is created once at startup and holds the only handle
//! to the supervised server process behind a verified reader-writer lock.
//! The lock's invariant pins the slot to the state machine of the design:
//! the slot holds either the handle stored at initialization or nothing, so
//! no call can ever observe a handle other than the one produced by the
//! single startup spawn.

use vstd::prelude::*;
use vstd::rwlock::RwLock;
use vstd::rwlock::RwLockPredicate;

verus! {

/// The lock invariant of the handle slot: the slot holds either the handle
/// stored at initialization or no handle at all. This is the state machine
/// `{Empty, Holding(initial)}` of the design; a handle that differs from the
/// initial one can never be stored.
pub struct SlotInvariant<H> {
    pub initial: Option<H>,
}

impl<H> RwLockPredicate<Option<H>> for SlotInvariant<H> {
    open spec fn inv(self, v: Option<H>) -> bool {
        v == self.initial || v is None
    }
}

/// The process-wide record guarding the supervised process handle.
///
/// It is generic in the handle type `H`, so the surrounding shell can store
/// its real OS child-process handle while tests store a mock value.
pub struct ApplicationState<H> {
    server: RwLock<Option<H>, SlotInvariant<H>>,
}

impl<H> ApplicationState<H> {
    /// The handle stored when the state was constructed: `Some(handle)` in a
    /// production build after a successful spawn, `None` in a development
    /// build or after a failed spawn.
    pub closed spec fn initial_handle(&self) -> Option<H> {
        self.server.pred().initial
    }

    /// Every value the slot can hold: the initial handle, or nothing once
    /// the handle has been taken for termination.
    pub open spec fn slot_inv(&self, v: Option<H>) -> bool {
        v == self.initial_handle() || v is None
    }

    /// Constructs the state with its initial value. This is the only way the
    /// slot ever comes to hold a handle.
    pub fn initialize(handle: Option<H>) -> (s: ApplicationState<H>)
        ensures
            s.initial_handle() == handle,
    {
        let server = RwLock::new(handle, Ghost(SlotInvariant { initial: handle }));
        ApplicationState { server }
    }

    /// The only sanctioned way to read or mutate the held handle. Acquires
    /// exclusive access for the duration of `f`, so no concurrent caller can
    /// observe or mutate the slot while `f` runs, then releases access
    /// unconditionally. `f` receives the current slot value and returns the
    /// new slot value together with its own result; the new value must again
    /// satisfy the slot invariant, which rules out storing a fresh handle.
    pub fn with_server<R, F: FnOnce(Option<H>) -> (Option<H>, R)>(&self, f: F) -> (r: R)
        requires
            forall|v: Option<H>| self.slot_inv(v) ==> call_requires(f, (v,)),
            forall|v: Option<H>, out: (Option<H>, R)|
                self.slot_inv(v) && call_ensures(f, (v,), out) ==> self.slot_inv(out.0),
        ensures
            (exists|v: Option<H>, w: Option<H>|
                self.slot_inv(v) && self.slot_inv(w) && call_ensures(f, (v,), (w, r))),
    {
        let (v, write_handle) = self.server.acquire_write();
        proof {
            assert(self.slot_inv(v));
        }
        let (w, r) = f(v);
        write_handle.release_write(w);
        r
    }

    /// Removes and returns the held handle, leaving the slot empty: the
    /// `Holding -> Empty` transition a shutdown hook performs before
    /// terminating the child. There is no way back: the slot stays empty.
    pub fn take_server(&self) -> (r: Option<H>)
        ensures
            self.slot_inv(r),
            r is Some ==> r == self.initial_handle(),
    {
        let (v, write_handle) = self.server.acquire_write();
        write_handle.release_write(None);
        v
    }

    /// Reports whether the slot currently holds a handle. A `true` answer
    /// can only come from the slot still holding the handle stored at
    /// initialization.
    pub fn server_present(&self) -> (present: bool)
        ensures
            present ==> self.initial_handle() is Some,
    {
        let read_handle = self.server.acquire_read();
        let present = read_handle.borrow().is_some();
        read_handle.release_read();
        present
    }
}

/// At most one server process handle ever exists in the state: any handle
/// observed in the slot is exactly the one stored at initialization, so a
/// second, different handle can never appear.
pub proof fn lemma_observed_handle_is_initial<H>(s: &ApplicationState<H>, v: Option<H>)
    requires
        s.slot_inv(v),
        v is Some,
    ensures
        v == s.initial_handle(),
        s.initial_handle() is Some,
{
}

} // verus!
