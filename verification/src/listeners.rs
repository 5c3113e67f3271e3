//! The completion bridge for a transaction's terminal events.
//!
//! The engine reports a transaction's end through one of three callbacks —
//! complete, abort, error — each fired at most once, in an order the engine
//! alone decides. [`IdbTransactionListeners`] converts "the next terminal
//! event fires" into a single-resolution suspension point:
//!
//! * the first terminal event observed is recorded and later signals are
//!   ignored;
//! * polling after resolution returns the recorded outcome unchanged, as
//!   often as asked, without touching the engine again;
//! * polling before resolution stores the caller's wake handle, and exactly
//!   the most recently stored handle is released when the event arrives —
//!   stale handles are never invoked;
//! * disposal de-registers the callbacks, after which an event reaching the
//!   set has no effect at all: cancelling the wait never cancels the work,
//!   and no callback fires into disposed state.
//!
//! The bridge's behaviour is fixed by three spec-level transition functions
//! ([`bridge_on_event`], [`bridge_poll`], [`bridge_dispose`]); the executable
//! methods are proved to follow them step for step, and the laws at the end
//! of this module are proved of the transitions themselves.

use vstd::prelude::*;

use crate::outcome::{IdbTransactionResult, OutcomeModel};

verus! {

/// A terminal lifecycle event as the engine delivers it: the transaction
/// committed, was cleanly rolled back, or was rolled back by a failed
/// operation (with the engine's diagnostic detail).
pub enum TerminalEvent {
    Complete,
    Abort,
    Error(String),
}

/// The outcome a terminal event resolves to.
pub open spec fn outcome_of_event(ev: TerminalEvent) -> OutcomeModel {
    match ev {
        TerminalEvent::Complete => OutcomeModel::Success,
        TerminalEvent::Abort => OutcomeModel::Abort,
        TerminalEvent::Error(s) => OutcomeModel::Error(s@),
    }
}

/// Mathematical state of a completion bridge: whether its callbacks are still
/// registered with the engine, the recorded outcome if a terminal event has
/// fired, and the wake handle of the most recent pending poll.
pub struct BridgeState {
    pub registered: bool,
    pub resolved: Option<OutcomeModel>,
    pub waker: Option<u64>,
}

/// The state of a freshly bound bridge.
pub open spec fn bridge_fresh() -> BridgeState {
    BridgeState { registered: true, resolved: None, waker: None }
}

/// Transition for an arriving terminal event: on a registered, unresolved
/// bridge the outcome is recorded and the stored wake handle (second
/// component) is released; on any other bridge nothing changes and no one is
/// woken.
pub open spec fn bridge_on_event(m: BridgeState, ev: OutcomeModel) -> (BridgeState, Option<u64>) {
    if m.registered && m.resolved is None {
        (BridgeState { registered: m.registered, resolved: Some(ev), waker: None }, m.waker)
    } else {
        (m, None)
    }
}

/// Transition for one poll: a resolved bridge reports its outcome (second
/// component) and does not change; an unresolved one stores `wake`,
/// displacing any earlier handle, and reports nothing.
pub open spec fn bridge_poll(m: BridgeState, wake: u64) -> (BridgeState, Option<OutcomeModel>) {
    match m.resolved {
        Some(o) => (m, Some(o)),
        None => (
            BridgeState { registered: m.registered, resolved: None, waker: Some(wake) },
            None,
        ),
    }
}

/// Transition for disposal: the callbacks are de-registered and the stored
/// wake handle is dropped; a recorded outcome is kept.
pub open spec fn bridge_dispose(m: BridgeState) -> BridgeState {
    BridgeState { registered: false, resolved: m.resolved, waker: None }
}

/// What one poll of the bridge reports: the recorded terminal outcome, or
/// "still pending" with the caller's wake handle now stored.
pub enum TransactionPoll {
    Ready(IdbTransactionResult),
    Pending,
}

/// The listener set bound to one transaction: at most one live registration
/// per terminal event, at most one recorded outcome, at most one stored wake
/// handle.
pub struct IdbTransactionListeners {
    registered: bool,
    resolved: Option<IdbTransactionResult>,
    waker: Option<u64>,
}

impl View for IdbTransactionListeners {
    type V = BridgeState;

    closed spec fn view(&self) -> BridgeState {
        BridgeState {
            registered: self.registered,
            resolved: match self.resolved {
                Some(o) => Some(o@),
                None => None,
            },
            waker: self.waker,
        }
    }
}

impl IdbTransactionListeners {
    /// Bind a fresh listener set: all three callbacks registered, nothing
    /// resolved, no wake handle stored. Registration happens at
    /// construction, before any operation can be observed, so that even an
    /// engine resolving immediately cannot slip past the listeners.
    pub fn new() -> (r: IdbTransactionListeners)
        ensures
            r@ == bridge_fresh(),
    {
        IdbTransactionListeners { registered: true, resolved: None, waker: None }
    }

    /// Entry point for the engine's terminal callbacks. Returns the wake
    /// handle to release, if any; delivering the wake signal is the caller's
    /// (the event loop's) job.
    pub fn on_event(&mut self, ev: TerminalEvent) -> (wake: Option<u64>)
        ensures
            final (self)@ == bridge_on_event(old(self)@, outcome_of_event(ev)).0,
            wake == bridge_on_event(old(self)@, outcome_of_event(ev)).1,
    {
        if self.registered && self.resolved.is_none() {
            self.resolved = Some(
                match ev {
                    TerminalEvent::Complete => IdbTransactionResult::Success,
                    TerminalEvent::Abort => IdbTransactionResult::Abort,
                    TerminalEvent::Error(s) => IdbTransactionResult::Error(s),
                },
            );
            let wake = self.waker;
            self.waker = None;
            wake
        } else {
            None
        }
    }

    /// One poll by a cooperative scheduler. If a terminal event has been
    /// recorded, return it — repeatedly, identically, without re-invoking
    /// anything. Otherwise store `wake`, displacing any earlier handle, so
    /// that exactly one wake signal goes to the most recent poller.
    pub fn do_poll(&mut self, wake: u64) -> (r: TransactionPoll)
        ensures
            final (self)@ == bridge_poll(old(self)@, wake).0,
            match bridge_poll(old(self)@, wake).1 {
                Some(o) => r matches TransactionPoll::Ready(res) && res@ == o,
                None => r is Pending,
            },
    {
        match &self.resolved {
            Some(o) => TransactionPoll::Ready(o.duplicate()),
            None => {
                self.waker = Some(wake);
                TransactionPoll::Pending
            },
        }
    }

    /// The engine-reported error detail, present exactly when the recorded
    /// outcome is the error variant — absent while pending, on clean
    /// success, and on abort.
    pub fn error_detail(&self) -> (r: Option<&String>)
        ensures
            match r {
                Some(s) => self@.resolved == Some(crate::outcome::OutcomeModel::Error(s@)),
                None => !(self@.resolved matches Some(o) && o is Error),
            },
    {
        match &self.resolved {
            Some(IdbTransactionResult::Error(s)) => Some(s),
            _ => None,
        }
    }

    /// De-register the three callbacks. Called on disposal of the owning
    /// transaction, resolved or not; safe even when no event ever fired.
    pub fn dispose(&mut self)
        ensures
            final (self)@ == bridge_dispose(old(self)@),
    {
        self.registered = false;
        self.waker = None;
    }
}

/// Idempotence of resolution: polling a resolved bridge reports the recorded
/// outcome, leaves the bridge unchanged, and therefore reports the very same
/// outcome on every later poll, whatever wake handles are supplied.
pub proof fn lemma_poll_idempotent(m: BridgeState, o: OutcomeModel, w1: u64, w2: u64)
    requires
        m.resolved == Some(o),
    ensures
        bridge_poll(m, w1).0 == m,
        bridge_poll(m, w1).1 == Some(o),
        bridge_poll(bridge_poll(m, w1).0, w2).1 == Some(o),
{
}

/// First event wins: the first terminal event on a live bridge records its
/// outcome; a second signal — which a well-behaved engine never sends, but
/// the bridge does not assume that — changes nothing and wakes no one.
pub proof fn lemma_first_event_wins(m: BridgeState, e1: OutcomeModel, e2: OutcomeModel)
    requires
        m.registered,
        m.resolved is None,
    ensures
        bridge_on_event(m, e1).0.resolved == Some(e1),
        bridge_on_event(bridge_on_event(m, e1).0, e2).0 == bridge_on_event(m, e1).0,
        bridge_on_event(bridge_on_event(m, e1).0, e2).1 is None,
{
}

/// A recorded outcome is stable: no later event moves a resolved bridge, so
/// at most one outcome is ever observed per transaction.
pub proof fn lemma_resolution_stable(m: BridgeState, ev: OutcomeModel)
    requires
        m.resolved is Some,
    ensures
        bridge_on_event(m, ev).0 == m,
        bridge_on_event(m, ev).1 is None,
{
}

/// Disposal safety: an event reaching a disposed bridge has no effect and
/// wakes no one — cancelling the wait leaves nothing for a late callback to
/// fire into.
pub proof fn lemma_disposed_event_inert(m: BridgeState, ev: OutcomeModel)
    requires
        !m.registered,
    ensures
        bridge_on_event(m, ev).0 == m,
        bridge_on_event(m, ev).1 is None,
{
}

/// Only the most recent wake handle is released: after two pending polls the
/// terminal event wakes the second poller, and the first, stale handle is
/// never invoked.
pub proof fn lemma_latest_waker_wins(m: BridgeState, w1: u64, w2: u64, ev: OutcomeModel)
    requires
        m.registered,
        m.resolved is None,
    ensures
        bridge_on_event(bridge_poll(bridge_poll(m, w1).0, w2).0, ev).1 == Some(w2),
{
}

} // verus!
