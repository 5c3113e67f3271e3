//! Single-resolution wrappers around one in-flight engine request.
//!
//! Every keyed operation issued against a store hands back a native request
//! that will fire exactly one of a success/error callback pair. The wrappers
//! here record the first of the two to fire, de-register both callbacks at
//! that moment (the engine can only legitimately fire one, but the bridge
//! enforces this rather than assumes it), and answer every later poll from
//! the recorded outcome. A value-carrying wrapper additionally decodes the
//! success payload into the caller's expected shape; a payload of the wrong
//! shape is a decode failure, reported distinctly from an engine error.

use vstd::prelude::*;

use crate::value::{StoreValue, ValueModel};

verus! {

/// Mathematical model of a success payload.
pub enum PayloadModel {
    /// No payload: the request was a mutation.
    Empty,
    /// The payload of a single-record lookup: the value found, if any.
    Single(Option<ValueModel>),
    /// The payload of a whole-store lookup: every value, in store order.
    Many(Seq<ValueModel>),
}

/// The payload delivered with a request's success callback.
pub enum RequestPayload {
    Empty,
    Single(Option<StoreValue>),
    Many(Vec<StoreValue>),
}

impl View for RequestPayload {
    type V = PayloadModel;

    open spec fn view(&self) -> PayloadModel {
        match self {
            RequestPayload::Empty => PayloadModel::Empty,
            RequestPayload::Single(v) => PayloadModel::Single(
                match v {
                    Some(x) => Some(x@),
                    None => None,
                },
            ),
            RequestPayload::Many(vs) => PayloadModel::Many(
                vs@.map_values(|x: StoreValue| x@),
            ),
        }
    }
}

/// One event of a request's callback pair.
pub enum RequestEvent {
    Success(RequestPayload),
    Error(String),
}

/// Mathematical model of a request's recorded resolution.
pub enum RequestOutcomeModel {
    Success(PayloadModel),
    Failure(Seq<char>),
}

/// The resolution a request event carries.
pub open spec fn outcome_of_request_event(ev: RequestEvent) -> RequestOutcomeModel {
    match ev {
        RequestEvent::Success(p) => RequestOutcomeModel::Success(p@),
        RequestEvent::Error(s) => RequestOutcomeModel::Failure(s@),
    }
}

/// Mathematical state of a request bridge; same shape as the transaction
/// bridge, but resolution itself de-registers the callback pair.
pub struct RequestBridgeState {
    pub registered: bool,
    pub resolved: Option<RequestOutcomeModel>,
    pub waker: Option<u64>,
}

/// The state of a freshly issued request: callbacks bound, unresolved.
pub open spec fn request_fresh() -> RequestBridgeState {
    RequestBridgeState { registered: true, resolved: None, waker: None }
}

/// Transition for an arriving callback: the first event on a live request
/// records the outcome, de-registers both callbacks at once, and releases
/// the stored wake handle (second component); anything later is inert.
pub open spec fn request_on_event(m: RequestBridgeState, ev: RequestOutcomeModel) -> (
    RequestBridgeState,
    Option<u64>,
) {
    if m.registered && m.resolved is None {
        (RequestBridgeState { registered: false, resolved: Some(ev), waker: None }, m.waker)
    } else {
        (m, None)
    }
}

/// Transition for one poll: a resolved request reports its outcome (second
/// component) and does not change; an unresolved one stores `wake`,
/// displacing any earlier handle.
pub open spec fn request_poll(m: RequestBridgeState, wake: u64) -> (
    RequestBridgeState,
    Option<RequestOutcomeModel>,
) {
    match m.resolved {
        Some(o) => (m, Some(o)),
        None => (
            RequestBridgeState { registered: m.registered, resolved: None, waker: Some(wake) },
            None,
        ),
    }
}

/// Transition for disposal: de-register whatever is still registered and
/// drop the stored wake handle; a recorded outcome is kept.
pub open spec fn request_dispose(m: RequestBridgeState) -> RequestBridgeState {
    RequestBridgeState { registered: false, resolved: m.resolved, waker: None }
}

/// The callback pair of one native request, bridged to a single-resolution,
/// poll-compatible completion.
pub struct RequestListeners {
    registered: bool,
    resolved: Option<Result<RequestPayload, String>>,
    waker: Option<u64>,
}

impl View for RequestListeners {
    type V = RequestBridgeState;

    closed spec fn view(&self) -> RequestBridgeState {
        RequestBridgeState {
            registered: self.registered,
            resolved: match self.resolved {
                Some(Ok(p)) => Some(RequestOutcomeModel::Success(p@)),
                Some(Err(s)) => Some(RequestOutcomeModel::Failure(s@)),
                None => None,
            },
            waker: self.waker,
        }
    }
}

impl RequestListeners {
    /// Bind the success and error callbacks of a freshly issued request.
    pub fn new() -> (r: RequestListeners)
        ensures
            r@ == request_fresh(),
    {
        RequestListeners { registered: true, resolved: None, waker: None }
    }

    /// Entry point for the request's callbacks; returns the wake handle to
    /// release, if any.
    pub fn on_event(&mut self, ev: RequestEvent) -> (wake: Option<u64>)
        ensures
            final (self)@ == request_on_event(old(self)@, outcome_of_request_event(ev)).0,
            wake == request_on_event(old(self)@, outcome_of_request_event(ev)).1,
    {
        if self.registered && self.resolved.is_none() {
            self.resolved = Some(
                match ev {
                    RequestEvent::Success(p) => Ok(p),
                    RequestEvent::Error(s) => Err(s),
                },
            );
            self.registered = false;
            let wake = self.waker;
            self.waker = None;
            wake
        } else {
            None
        }
    }

    /// One poll: report the recorded outcome if there is one — by reference,
    /// the record itself never changes again — else store the wake handle.
    pub fn do_poll(&mut self, wake: u64) -> (r: Option<&Result<RequestPayload, String>>)
        ensures
            final (self)@ == request_poll(old(self)@, wake).0,
            match request_poll(old(self)@, wake).1 {
                Some(o) => r matches Some(res) && o == match res {
                    Ok(p) => RequestOutcomeModel::Success(p@),
                    Err(s) => RequestOutcomeModel::Failure(s@),
                },
                None => r is None,
            },
    {
        match &self.resolved {
            Some(_) => {
                match &self.resolved {
                    Some(r) => Some(r),
                    None => None,
                }
            },
            None => {
                self.waker = Some(wake);
                None
            },
        }
    }

    /// De-register whatever is still registered; safe whether or not the
    /// request ever resolved.
    pub fn dispose(&mut self)
        ensures
            final (self)@ == request_dispose(old(self)@),
    {
        self.registered = false;
        self.waker = None;
    }
}

/// Idempotence of resolution: polling a resolved request reports the
/// recorded outcome, leaves the bridge unchanged, and reports the very same
/// outcome on every later poll.
pub proof fn lemma_request_poll_idempotent(
    m: RequestBridgeState,
    o: RequestOutcomeModel,
    w1: u64,
    w2: u64,
)
    requires
        m.resolved == Some(o),
    ensures
        request_poll(m, w1).0 == m,
        request_poll(m, w1).1 == Some(o),
        request_poll(request_poll(m, w1).0, w2).1 == Some(o),
{
}

/// Single resolution: the first event both records the outcome and
/// de-registers the pair, so a spurious second event — of either kind —
/// changes nothing and wakes no one.
pub proof fn lemma_request_single_resolution(
    m: RequestBridgeState,
    e1: RequestOutcomeModel,
    e2: RequestOutcomeModel,
)
    requires
        m.registered,
        m.resolved is None,
    ensures
        request_on_event(m, e1).0.resolved == Some(e1),
        !request_on_event(m, e1).0.registered,
        request_on_event(request_on_event(m, e1).0, e2).0 == request_on_event(m, e1).0,
        request_on_event(request_on_event(m, e1).0, e2).1 is None,
{
}


/// Mathematical model of a request handle: which transaction it belongs to,
/// its position in that transaction's queue (its request identity), and its
/// bridge state.
pub struct RequestHandleModel {
    pub tx: int,
    pub request: int,
    pub bridge: RequestBridgeState,
}

/// An error surfaced when awaiting a value-carrying request: the engine's
/// own failure, verbatim — or a decode failure, when the engine succeeded
/// but the payload was not of the expected shape.
pub enum RequestError {
    Engine(String),
    Decode,
}

/// Mathematical model of a [`RequestError`].
pub enum RequestErrorModel {
    Engine(Seq<char>),
    Decode,
}

impl View for RequestError {
    type V = RequestErrorModel;

    open spec fn view(&self) -> RequestErrorModel {
        match self {
            RequestError::Engine(s) => RequestErrorModel::Engine(s@),
            RequestError::Decode => RequestErrorModel::Decode,
        }
    }
}

fn duplicate_opt_value(v: &Option<StoreValue>) -> (r: Option<StoreValue>)
    ensures
        match (r, v) {
            (Some(a), Some(b)) => a@ == b@,
            (None, None) => true,
            _ => false,
        },
{
    match v {
        Some(x) => Some(x.duplicate()),
        None => None,
    }
}

fn duplicate_values(vs: &Vec<StoreValue>) -> (r: Vec<StoreValue>)
    ensures
        r@.map_values(|x: StoreValue| x@) == vs@.map_values(|x: StoreValue| x@),
{
    let mut out: Vec<StoreValue> = Vec::new();
    let mut i: usize = 0;
    while i < vs.len()
        invariant
            i <= vs@.len(),
            out@.len() == i,
            forall|j: int| 0 <= j < i ==> out@[j]@ == vs@[j]@,
        decreases vs@.len() - i,
    {
        out.push(vs[i].duplicate());
        i += 1;
    }
    proof {
        assert(out@.map_values(|x: StoreValue| x@) =~= vs@.map_values(|x: StoreValue| x@));
    }
    out
}

/// A request that resolves with no payload: a mutation (add, put, delete,
/// clear) awaited for success or failure alone.
pub struct VoidRequest {
    tx_id: usize,
    request_id: usize,
    listeners: RequestListeners,
}

/// What one poll of a void request reports.
pub enum VoidPoll {
    Ready(Result<(), String>),
    Pending,
}

impl View for VoidRequest {
    type V = RequestHandleModel;

    closed spec fn view(&self) -> RequestHandleModel {
        RequestHandleModel {
            tx: self.tx_id as int,
            request: self.request_id as int,
            bridge: self.listeners@,
        }
    }
}

impl VoidRequest {
    /// Wrap a freshly issued request, binding its callback pair.
    pub(crate) fn new(tx_id: usize, request_id: usize) -> (r: VoidRequest)
        ensures
            r@.tx == tx_id as int,
            r@.request == request_id as int,
            r@.bridge == request_fresh(),
    {
        VoidRequest { tx_id, request_id, listeners: RequestListeners::new() }
    }

    /// The transaction this request was issued on.
    pub fn transaction_id(&self) -> (r: usize)
        ensures
            r as int == self@.tx,
    {
        self.tx_id
    }

    /// The request's position in its transaction's queue.
    pub fn request_id(&self) -> (r: usize)
        ensures
            r as int == self@.request,
    {
        self.request_id
    }

    /// Entry point for the request's callbacks; returns the wake handle to
    /// release, if any.
    pub fn on_event(&mut self, ev: RequestEvent) -> (wake: Option<u64>)
        ensures
            final (self)@.tx == old(self)@.tx,
            final (self)@.request == old(self)@.request,
            final (self)@.bridge == request_on_event(
                old(self)@.bridge,
                outcome_of_request_event(ev),
            ).0,
            wake == request_on_event(old(self)@.bridge, outcome_of_request_event(ev)).1,
    {
        self.listeners.on_event(ev)
    }

    /// One poll: success or the engine's failure detail once resolved, else
    /// pending with the wake handle stored.
    pub fn poll(&mut self, wake: u64) -> (r: VoidPoll)
        ensures
            final (self)@.tx == old(self)@.tx,
            final (self)@.request == old(self)@.request,
            final (self)@.bridge == request_poll(old(self)@.bridge, wake).0,
            match request_poll(old(self)@.bridge, wake).1 {
                Some(RequestOutcomeModel::Success(p)) => r matches VoidPoll::Ready(res) && res
                    is Ok,
                Some(RequestOutcomeModel::Failure(m)) => r matches VoidPoll::Ready(res) && (
                res matches Err(s) && s@ == m),
                None => r is Pending,
            },
    {
        match self.listeners.do_poll(wake) {
            Some(res) => match res {
                Ok(_) => VoidPoll::Ready(Ok(())),
                Err(s) => VoidPoll::Ready(Err(s.clone())),
            },
            None => VoidPoll::Pending,
        }
    }

    /// De-register the callback pair; safe whether or not the request ever
    /// resolved.
    pub fn dispose(&mut self)
        ensures
            final (self)@.tx == old(self)@.tx,
            final (self)@.request == old(self)@.request,
            final (self)@.bridge == request_dispose(old(self)@.bridge),
    {
        self.listeners.dispose()
    }
}

/// A request that resolves with at most one record's value: a single-key
/// lookup. Its poll decodes the success payload into the caller's expected
/// shape; a payload of any other shape is a decode failure, distinct from an
/// engine failure.
pub struct ValueRequest {
    tx_id: usize,
    request_id: usize,
    listeners: RequestListeners,
}

/// What one poll of a value request reports.
pub enum ValuePoll {
    Ready(Result<Option<StoreValue>, RequestError>),
    Pending,
}

impl View for ValueRequest {
    type V = RequestHandleModel;

    closed spec fn view(&self) -> RequestHandleModel {
        RequestHandleModel {
            tx: self.tx_id as int,
            request: self.request_id as int,
            bridge: self.listeners@,
        }
    }
}

impl ValueRequest {
    /// Wrap a freshly issued single-value request.
    pub(crate) fn new(tx_id: usize, request_id: usize) -> (r: ValueRequest)
        ensures
            r@.tx == tx_id as int,
            r@.request == request_id as int,
            r@.bridge == request_fresh(),
    {
        ValueRequest { tx_id, request_id, listeners: RequestListeners::new() }
    }

    /// The transaction this request was issued on.
    pub fn transaction_id(&self) -> (r: usize)
        ensures
            r as int == self@.tx,
    {
        self.tx_id
    }

    /// The request's position in its transaction's queue.
    pub fn request_id(&self) -> (r: usize)
        ensures
            r as int == self@.request,
    {
        self.request_id
    }

    /// Entry point for the request's callbacks; returns the wake handle to
    /// release, if any.
    pub fn on_event(&mut self, ev: RequestEvent) -> (wake: Option<u64>)
        ensures
            final (self)@.tx == old(self)@.tx,
            final (self)@.request == old(self)@.request,
            final (self)@.bridge == request_on_event(
                old(self)@.bridge,
                outcome_of_request_event(ev),
            ).0,
            wake == request_on_event(old(self)@.bridge, outcome_of_request_event(ev)).1,
    {
        self.listeners.on_event(ev)
    }

    /// One poll: once resolved, the looked-up value (or its absence), the
    /// engine's failure verbatim, or the distinct decode failure when the
    /// payload was not a single-value payload.
    pub fn poll(&mut self, wake: u64) -> (r: ValuePoll)
        ensures
            final (self)@.tx == old(self)@.tx,
            final (self)@.request == old(self)@.request,
            final (self)@.bridge == request_poll(old(self)@.bridge, wake).0,
            match request_poll(old(self)@.bridge, wake).1 {
                Some(RequestOutcomeModel::Success(p)) => match p {
                    PayloadModel::Single(v) => r matches ValuePoll::Ready(res) && (
                    res matches Ok(o) && (match (o, v) {
                        (Some(a), Some(b)) => a@ == b,
                        (None, None) => true,
                        _ => false,
                    })),
                    _ => r matches ValuePoll::Ready(res) && res == Err::<
                        Option<StoreValue>,
                        RequestError,
                    >(RequestError::Decode),
                },
                Some(RequestOutcomeModel::Failure(m)) => r matches ValuePoll::Ready(res) && (
                res matches Err(e) && e@ == RequestErrorModel::Engine(m)),
                None => r is Pending,
            },
    {
        match self.listeners.do_poll(wake) {
            Some(res) => match res {
                Ok(RequestPayload::Single(v)) => ValuePoll::Ready(Ok(duplicate_opt_value(v))),
                Ok(_) => ValuePoll::Ready(Err(RequestError::Decode)),
                Err(s) => ValuePoll::Ready(Err(RequestError::Engine(s.clone()))),
            },
            None => ValuePoll::Pending,
        }
    }

    /// De-register the callback pair.
    pub fn dispose(&mut self)
        ensures
            final (self)@.tx == old(self)@.tx,
            final (self)@.request == old(self)@.request,
            final (self)@.bridge == request_dispose(old(self)@.bridge),
    {
        self.listeners.dispose()
    }
}

/// A request that resolves with every value of a store. Its poll decodes
/// the success payload into the expected whole-store shape; any other shape
/// is a decode failure.
pub struct AllValuesRequest {
    tx_id: usize,
    request_id: usize,
    listeners: RequestListeners,
}

/// What one poll of a whole-store request reports.
pub enum AllValuesPoll {
    Ready(Result<Vec<StoreValue>, RequestError>),
    Pending,
}

impl View for AllValuesRequest {
    type V = RequestHandleModel;

    closed spec fn view(&self) -> RequestHandleModel {
        RequestHandleModel {
            tx: self.tx_id as int,
            request: self.request_id as int,
            bridge: self.listeners@,
        }
    }
}

impl AllValuesRequest {
    /// Wrap a freshly issued whole-store request.
    pub(crate) fn new(tx_id: usize, request_id: usize) -> (r: AllValuesRequest)
        ensures
            r@.tx == tx_id as int,
            r@.request == request_id as int,
            r@.bridge == request_fresh(),
    {
        AllValuesRequest { tx_id, request_id, listeners: RequestListeners::new() }
    }

    /// The transaction this request was issued on.
    pub fn transaction_id(&self) -> (r: usize)
        ensures
            r as int == self@.tx,
    {
        self.tx_id
    }

    /// The request's position in its transaction's queue.
    pub fn request_id(&self) -> (r: usize)
        ensures
            r as int == self@.request,
    {
        self.request_id
    }

    /// Entry point for the request's callbacks; returns the wake handle to
    /// release, if any.
    pub fn on_event(&mut self, ev: RequestEvent) -> (wake: Option<u64>)
        ensures
            final (self)@.tx == old(self)@.tx,
            final (self)@.request == old(self)@.request,
            final (self)@.bridge == request_on_event(
                old(self)@.bridge,
                outcome_of_request_event(ev),
            ).0,
            wake == request_on_event(old(self)@.bridge, outcome_of_request_event(ev)).1,
    {
        self.listeners.on_event(ev)
    }

    /// One poll: once resolved, every value in store order, the engine's
    /// failure verbatim, or the distinct decode failure.
    pub fn poll(&mut self, wake: u64) -> (r: AllValuesPoll)
        ensures
            final (self)@.tx == old(self)@.tx,
            final (self)@.request == old(self)@.request,
            final (self)@.bridge == request_poll(old(self)@.bridge, wake).0,
            match request_poll(old(self)@.bridge, wake).1 {
                Some(RequestOutcomeModel::Success(p)) => match p {
                    PayloadModel::Many(vs) => r matches AllValuesPoll::Ready(res) && (
                    res matches Ok(o) && o@.map_values(|x: StoreValue| x@) == vs),
                    _ => r matches AllValuesPoll::Ready(res) && res == Err::<
                        Vec<StoreValue>,
                        RequestError,
                    >(RequestError::Decode),
                },
                Some(RequestOutcomeModel::Failure(m)) => r matches AllValuesPoll::Ready(res) && (
                res matches Err(e) && e@ == RequestErrorModel::Engine(m)),
                None => r is Pending,
            },
    {
        match self.listeners.do_poll(wake) {
            Some(res) => match res {
                Ok(RequestPayload::Many(vs)) => AllValuesPoll::Ready(Ok(duplicate_values(vs))),
                Ok(_) => AllValuesPoll::Ready(Err(RequestError::Decode)),
                Err(s) => AllValuesPoll::Ready(Err(RequestError::Engine(s.clone()))),
            },
            None => AllValuesPoll::Pending,
        }
    }

    /// De-register the callback pair.
    pub fn dispose(&mut self)
        ensures
            final (self)@.tx == old(self)@.tx,
            final (self)@.request == old(self)@.request,
            final (self)@.bridge == request_dispose(old(self)@.bridge),
    {
        self.listeners.dispose()
    }
}

} // verus!
