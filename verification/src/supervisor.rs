//! The connection supervisor: a single shared slot holding either no
//! connection or the identity of the one valid connection, cleared the
//! moment a transport failure is seen, with exactly one reconnect attempt
//! scheduled per trigger. The caller guards the slot with mutual
//! exclusion and performs the scheduled reconnect on a separate execution
//! context; the slot itself never blocks on channel activity.

use vstd::prelude::*;
use crate::frame::TransportKind;

verus! {

/// The identity of an installed connection: the process identifier used
/// in command payloads. The byte-stream endpoint itself stays with the
/// caller that opened it.
#[derive(Clone, Copy, PartialEq, Eq, Structural, Debug)]
pub struct HandleInfo {
    pub pid: u32,
}

/// Whether a transport failure of this kind invalidates the connection:
/// a broken pipe, a reset and an unexpected end of stream do; any other
/// failure leaves the connection as it was.
pub open spec fn spec_invalidates(k: TransportKind) -> bool {
    k is BrokenPipe || k is ConnectionReset || k is UnexpectedEof
}

/// Classify a transport failure.
pub fn invalidates_connection(k: TransportKind) -> (r: bool)
    ensures
        r == spec_invalidates(k),
{
    match k {
        TransportKind::BrokenPipe => true,
        TransportKind::ConnectionReset => true,
        TransportKind::UnexpectedEof => true,
        TransportKind::Other => false,
    }
}

/// What the caller must do after an operation on the slot.
#[derive(Clone, Copy, PartialEq, Eq, Structural, Debug)]
pub enum SupervisorAction {
    /// Nothing to schedule.
    NoAction,
    /// Start one fresh connection attempt on a separate execution
    /// context; install its result with `install` or report it with
    /// `connect_attempt_failed`.
    ScheduleReconnect,
}

/// The single shared cell holding the current connection, or nothing.
pub struct ConnectionSlot {
    slot: Option<HandleInfo>,
}

impl View for ConnectionSlot {
    type V = Option<HandleInfo>;

    closed spec fn view(&self) -> Option<HandleInfo> {
        self.slot
    }
}

impl ConnectionSlot {
    /// At startup the slot is empty; the first connection attempt runs
    /// asynchronously and installs its result.
    pub fn new() -> (r: ConnectionSlot)
        ensures
            r@ is None,
    {
        ConnectionSlot { slot: None }
    }

    /// The current connection, if one is installed, without blocking on
    /// any channel activity.
    pub fn acquire(&self) -> (r: Option<HandleInfo>)
        ensures
            r == self@,
    {
        match &self.slot {
            Some(h) => Some(*h),
            None => None,
        }
    }

    /// A successful connection attempt installs its handle; it replaces
    /// whatever the slot held.
    pub fn install(&mut self, pid: u32)
        ensures
            final(self)@ == Some(HandleInfo { pid }),
    {
        self.slot = Some(HandleInfo { pid });
    }

    /// A failed connection attempt leaves the slot empty.
    pub fn connect_attempt_failed(&mut self)
        ensures
            final(self)@ is None,
    {
        self.slot = None;
    }

    /// Clear the slot at once — concurrent readers next see it empty —
    /// and schedule exactly one fresh connection attempt.
    pub fn invalidate_and_reconnect(&mut self) -> (a: SupervisorAction)
        ensures
            final(self)@ is None,
            a == SupervisorAction::ScheduleReconnect,
    {
        self.slot = None;
        SupervisorAction::ScheduleReconnect
    }

    /// A transport failure of an invalidating kind empties the slot and
    /// schedules exactly one reconnect; any other failure changes
    /// nothing.
    pub fn on_transport_error(&mut self, kind: TransportKind) -> (a: SupervisorAction)
        ensures
            spec_invalidates(kind) ==> final(self)@ is None && a
                == SupervisorAction::ScheduleReconnect,
            !spec_invalidates(kind) ==> final(self)@ == old(self)@ && a
                == SupervisorAction::NoAction,
    {
        if invalidates_connection(kind) {
            self.invalidate_and_reconnect()
        } else {
            SupervisorAction::NoAction
        }
    }

    /// Take the current connection for one report. When the slot is
    /// empty the report is dropped, not queued, and one reconnect is
    /// scheduled instead; scheduling while already empty is safe, so
    /// this is idempotent.
    pub fn acquire_for_report(&self) -> (r: (Option<HandleInfo>, SupervisorAction))
        ensures
            self@ is Some ==> r == (self@, SupervisorAction::NoAction),
            self@ is None ==> r == (None::<HandleInfo>, SupervisorAction::ScheduleReconnect),
    {
        match &self.slot {
            Some(h) => (Some(*h), SupervisorAction::NoAction),
            None => (None, SupervisorAction::ScheduleReconnect),
        }
    }
}

} // verus!
