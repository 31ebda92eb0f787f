use crate::error::BridgeError;
use vstd::prelude::*;

verus! {

/// The connection slot and its guard, as the rules see them.
pub struct SessionState {
    /// The slot holds a connection.
    pub connected: bool,
    /// Some caller is inside its guarded section.
    pub guard_held: bool,
}

/// The answer to a caller that asks for the guarded connection.
#[derive(Debug, Clone, Copy, PartialEq, Eq, Structural)]
pub enum Admission {
    /// The caller holds the guard and may use the connection.
    Granted,
    /// Another caller holds the guard: suspend and ask again.
    Wait,
    /// The slot is empty: fail with `NotConnected`.
    NotConnected,
}

/// What the host has to do for a disconnect.
#[derive(Debug, Clone, Copy, PartialEq, Eq, Structural)]
pub enum Teardown {
    /// Send the one teardown call to the backend.
    SendDisconnect,
    /// Another caller holds the guard: suspend and ask again.
    Wait,
    /// Already disconnected: nothing to do.
    Nothing,
}

/// The state after a caller asked for the guarded connection, and the answer.
pub open spec fn acquire(state: SessionState) -> (SessionState, Admission) {
    if state.guard_held {
        (state, Admission::Wait)
    } else if !state.connected {
        (state, Admission::NotConnected)
    } else {
        (SessionState { connected: true, guard_held: true }, Admission::Granted)
    }
}

/// The state after a guarded section ended, on whatever path.
pub open spec fn release(state: SessionState) -> SessionState {
    SessionState { connected: state.connected, guard_held: false }
}

/// The state after a disconnect was asked for, and what the host must do.
pub open spec fn tear_down(state: SessionState) -> (SessionState, Teardown) {
    if state.guard_held {
        (state, Teardown::Wait)
    } else if state.connected {
        (SessionState { connected: false, guard_held: false }, Teardown::SendDisconnect)
    } else {
        (state, Teardown::Nothing)
    }
}

/// The guard admits one caller at a time: a request is granted only while
/// the guard is free and then holds it; while it is held every other
/// request, a disconnect too, must wait and leaves the state as it is; after
/// the release the next request is served.
pub proof fn lemma_guard_excludes(state: SessionState)
    ensures
        acquire(state).1 == Admission::Granted ==> !state.guard_held && acquire(state).0.guard_held,
        state.guard_held ==> acquire(state) == (state, Admission::Wait) && tear_down(state) == (
            state,
            Teardown::Wait,
        ),
        acquire(state).1 == Admission::Granted ==> acquire(release(acquire(state).0)).1
            == Admission::Granted,
{
}

/// Of two disconnects in a row at most the first sends the teardown call,
/// and the second changes nothing; with the guard free the slot is empty
/// after the first and the second has nothing to do.
pub proof fn lemma_disconnect_idempotent(state: SessionState)
    ensures
        tear_down(tear_down(state).0).0 == tear_down(state).0,
        tear_down(tear_down(state).0).1 != Teardown::SendDisconnect,
        !state.guard_held ==> !tear_down(state).0.connected && tear_down(tear_down(state).0).1
            == Teardown::Nothing,
{
}

enum Slot<C> {
    Empty,
    Idle(C),
    Lent,
}

/// Owner of the one backend connection: it decides who may use it, lends it
/// to one call at a time, and hands it out for the teardown.
pub struct SessionManager<C> {
    slot: Slot<C>,
}

impl<C> View for SessionManager<C> {
    type V = SessionState;

    closed spec fn view(&self) -> SessionState {
        SessionState { connected: !(self.slot is Empty), guard_held: self.slot is Lent }
    }
}

impl<C> SessionManager<C> {
    /// The connection that rests in the slot: none while the slot is empty,
    /// and none while a call has it.
    pub closed spec fn connection(&self) -> Option<C> {
        match self.slot {
            Slot::Idle(connection) => Some(connection),
            _ => None,
        }
    }

    /// The guard is held only over a connection, and the connection rests in
    /// the slot exactly while there is one and no call has it.
    pub proof fn lemma_slot_consistent(&self)
        ensures
            self@.guard_held ==> self@.connected,
            self.connection() is Some <==> self@.connected && !self@.guard_held,
    {
    }

    /// A manager with an empty slot and a free guard.
    pub fn new() -> (manager: Self)
        ensures
            manager@ == (SessionState { connected: false, guard_held: false }),
            manager.connection() is None,
    {
        SessionManager { slot: Slot::Empty }
    }

    pub fn is_connected(&self) -> (connected: bool)
        ensures
            connected == self@.connected,
    {
        match &self.slot {
            Slot::Empty => false,
            _ => true,
        }
    }

    pub fn is_guard_held(&self) -> (held: bool)
        ensures
            held == self@.guard_held,
    {
        match &self.slot {
            Slot::Lent => true,
            _ => false,
        }
    }

    /// Puts a connection into the slot and returns the one it replaces, if
    /// any. The host calls this once, at start-up, while no call is running.
    pub fn connect(&mut self, connection: C) -> (replaced: Option<C>)
        requires
            !old(self)@.guard_held,
        ensures
            final(self)@ == (SessionState { connected: true, guard_held: false }),
            final(self).connection() == Some(connection),
            replaced == old(self).connection(),
    {
        let mut slot = Slot::Idle(connection);
        std::mem::swap(&mut self.slot, &mut slot);
        match slot {
            Slot::Idle(earlier) => Some(earlier),
            _ => None,
        }
    }

    /// Asks for the guarded connection on behalf of one call. The connection
    /// is handed out exactly when the call is granted.
    pub fn begin_call(&mut self) -> (answer: (Admission, Option<C>))
        ensures
            (final(self)@, answer.0) == acquire(old(self)@),
            answer.0 == Admission::Granted ==> answer.1 is Some && answer.1 == old(self).connection()
                && final(self).connection() is None,
            answer.0 != Admission::Granted ==> answer.1 is None && final(self).connection() == old(
                self,
            ).connection(),
    {
        let mut slot = Slot::Lent;
        std::mem::swap(&mut self.slot, &mut slot);
        match slot {
            Slot::Idle(connection) => (Admission::Granted, Some(connection)),
            Slot::Lent => (Admission::Wait, None),
            Slot::Empty => {
                self.slot = Slot::Empty;
                (Admission::NotConnected, None)
            },
        }
    }

    /// Ends a guarded section, on success and on failure alike: the
    /// connection goes back into the slot and the guard is free.
    pub fn end_call(&mut self, connection: C)
        requires
            old(self)@.guard_held,
        ensures
            final(self)@ == release(old(self)@),
            final(self).connection() == Some(connection),
    {
        self.slot = Slot::Idle(connection);
    }

    /// Runs one operation with exclusive use of the connection and puts the
    /// connection back whatever the operation returned. With an empty slot
    /// the operation is not run and the call fails with `NotConnected`.
    pub fn with_connection<T, F: FnOnce(C) -> (C, Result<T, BridgeError>)>(&mut self, op: F) -> (outcome:
        Result<T, BridgeError>)
        requires
            !old(self)@.guard_held,
            old(self).connection() is Some ==> op.requires((old(self).connection()->Some_0,)),
        ensures
            final(self)@ == old(self)@,
            match old(self).connection() {
                Some(connection) => final(self).connection() is Some && op.ensures(
                    (connection,),
                    (final(self).connection()->Some_0, outcome),
                ),
                None => final(self).connection() is None && outcome is Err && outcome->Err_0
                    is NotConnected,
            },
    {
        let (_, lent) = self.begin_call();
        match lent {
            Some(connection) => {
                let (connection, outcome) = op(connection);
                self.end_call(connection);
                outcome
            },
            None => Err(BridgeError::NotConnected),
        }
    }

    /// Decides what a disconnect has to do. Where the teardown call is due
    /// the slot is emptied and the connection handed out for that call.
    pub fn disconnect(&mut self) -> (answer: (Teardown, Option<C>))
        ensures
            (final(self)@, answer.0) == tear_down(old(self)@),
            answer.0 == Teardown::SendDisconnect ==> answer.1 is Some && answer.1 == old(
                self,
            ).connection(),
            answer.0 != Teardown::SendDisconnect ==> answer.1 is None,
            final(self).connection() is None,
            answer.0 == Teardown::Wait ==> old(self).connection() is None,
    {
        let mut slot = Slot::Empty;
        std::mem::swap(&mut self.slot, &mut slot);
        match slot {
            Slot::Idle(connection) => (Teardown::SendDisconnect, Some(connection)),
            Slot::Lent => {
                self.slot = Slot::Lent;
                (Teardown::Wait, None)
            },
            Slot::Empty => (Teardown::Nothing, None),
        }
    }
}

} // verus!
