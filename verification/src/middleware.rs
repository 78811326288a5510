//! The logging layer and the service it wraps: which calls are logged, the
//! numbering of calls, and what is logged while a request body is forwarded.
use std::sync::Arc;
use vstd::prelude::*;
use crate::call::CallLogger;
use crate::headers::HeaderMap;
use crate::predicate::{NoReflection, Predicate};
use crate::proto::GrpcLogEntry;
use crate::sink::{share, Sink};

verus! {

/// Wraps services so that the calls the predicate selects are logged to the sink.
#[derive(Debug, Default, Clone)]
pub struct BinaryLoggerLayer<K, P = NoReflection> {
    sink: Arc<K>,
    predicate: P,
}

impl<K: Sink> BinaryLoggerLayer<K, NoReflection> {
    /// A layer that logs every call but those of server reflection.
    pub fn new(sink: K) -> (l: Self)
        ensures
            l.sink() == sink,
            l.predicate() == NoReflection,
    {
        BinaryLoggerLayer { sink: Arc::new(sink), predicate: NoReflection }
    }
}

impl<K: Sink, P: Predicate> BinaryLoggerLayer<K, P> {
    pub closed spec fn sink(&self) -> K {
        *self.sink
    }

    pub closed spec fn predicate(&self) -> P {
        self.predicate
    }

    /// Wraps `service`: the new service logs to this layer's sink, with a copy of
    /// this layer's predicate, and has numbered no call yet.
    pub fn layer<S>(&self, service: S) -> (m: BinaryLoggerMiddleware<S, K, P>)
        ensures
            m.sink() == self.sink(),
            m.inner() == service,
            cloned(self.predicate(), m.predicate()),
            m.last_call_id() == 0,
    {
        BinaryLoggerMiddleware::new(service, share(&self.sink), self.predicate.clone())
    }
}

/// A service wrapped by a `BinaryLoggerLayer`. It numbers its calls itself,
/// so it is not cloned: to use it from several places, share one instance
/// (behind a lock), so that call ids are never handed out twice.
#[derive(Debug)]
pub struct BinaryLoggerMiddleware<S, K, P> {
    sink: Arc<K>,
    inner: S,
    predicate: P,
    next_call_id: u64,
}

impl<S, K: Sink, P: Predicate> BinaryLoggerMiddleware<S, K, P> {
    pub closed spec fn sink(&self) -> K {
        *self.sink
    }

    pub closed spec fn inner(&self) -> S {
        self.inner
    }

    pub closed spec fn predicate(&self) -> P {
        self.predicate
    }

    /// The id of the last call that was logged, 0 before the first.
    pub closed spec fn last_call_id(&self) -> u64 {
        self.next_call_id
    }

    /// Wraps `inner`, logging to `sink` the calls that `predicate` selects.
    pub fn new(inner: S, sink: Arc<K>, predicate: P) -> (m: Self)
        ensures
            m.sink() == *sink,
            m.inner() == inner,
            m.predicate() == predicate,
            m.last_call_id() == 0,
    {
        BinaryLoggerMiddleware { sink, inner, predicate, next_call_id: 0 }
    }

    /// The id of the last call that was logged, 0 before the first.
    pub fn calls_started(&self) -> (n: u64)
        ensures
            n == self.last_call_id(),
    {
        self.next_call_id
    }

    /// The predicate that selects the calls to log.
    pub fn predicate_ref(&self) -> (p: &P)
        ensures
            *p == self.predicate(),
    {
        &self.predicate
    }

    /// The wrapped service.
    pub fn inner_service(&self) -> (s: &S)
        ensures
            *s == self.inner(),
    {
        &self.inner
    }

    /// A fresh call id: one more than the last.
    pub fn next_call_id(&mut self) -> (id: u64)
        requires
            old(self).last_call_id() < u64::MAX,
        ensures
            id == old(self).last_call_id() + 1,
            final(self).last_call_id() == id,
            final(self).sink() == old(self).sink(),
            final(self).inner() == old(self).inner(),
            final(self).predicate() == old(self).predicate(),
    {
        self.next_call_id = self.next_call_id + 1;
        self.next_call_id
    }

    /// Starts logging a call when `log` holds: a logger for it under a fresh
    /// call id; otherwise nothing, and no id is used.
    pub fn start_call(&mut self, log: bool) -> (c: Option<CallLogger<K>>)
        requires
            log ==> old(self).last_call_id() < u64::MAX,
        ensures
            final(self).sink() == old(self).sink(),
            final(self).inner() == old(self).inner(),
            final(self).predicate() == old(self).predicate(),
            log ==> final(self).last_call_id() == old(self).last_call_id() + 1,
            !log ==> final(self).last_call_id() == old(self).last_call_id(),
            match c {
                Some(c) => {
                    &&& log
                    &&& c.id() == final(self).last_call_id()
                    &&& c.sink() == old(self).sink()
                    &&& c.sequence() == 0
                    &&& c.written() == Seq::<GrpcLogEntry>::empty()
                    &&& c.wf()
                },
                None => !log,
            },
    {
        if log {
            let id = self.next_call_id();
            Some(CallLogger::new(id, share(&self.sink)))
        } else {
            None
        }
    }

    /// Starts logging a request's call if the predicate selects it (see `start_call`).
    pub fn begin_call(&mut self, method: &str, headers: &HeaderMap) -> (c: Option<CallLogger<K>>)
        requires
            predicate_chose(old(self).predicate(), method, headers, true) ==> old(
                self,
            ).last_call_id() < u64::MAX,
        ensures
            final(self).sink() == old(self).sink(),
            final(self).inner() == old(self).inner(),
            final(self).predicate() == old(self).predicate(),
            match c {
                Some(c) => {
                    &&& final(self).last_call_id() == old(self).last_call_id() + 1
                    &&& c.id() == final(self).last_call_id()
                    &&& c.sink() == old(self).sink()
                    &&& c.sequence() == 0
                    &&& c.written() == Seq::<GrpcLogEntry>::empty()
                    &&& c.wf()
                },
                None => final(self).last_call_id() == old(self).last_call_id(),
            },
            predicate_chose(old(self).predicate(), method, headers, c is Some),
    {
        let log = self.predicate.should_log(method, headers);
        self.start_call(log)
    }
}

/// `chosen` is a result that the predicate's `should_log` can return for
/// this method path and these headers.
pub open spec fn predicate_chose<P: Predicate>(
    predicate: P,
    method: &str,
    headers: &HeaderMap,
    chosen: bool,
) -> bool {
    call_ensures(P::should_log, (&predicate, method, headers), chosen)
}

/// Where the forwarding of a request body stands.
#[derive(Clone, Copy, Debug, PartialEq, Eq, Structural)]
pub enum ForwardState {
    /// Reading data frames of the body.
    ReadingData,
    /// The data is over; reading the trailers.
    ReadingTrailers,
    /// Sending the trailers on.
    SendingTrailers,
    /// Nothing more to do.
    Done,
}

/// What happened while forwarding a request body.
#[derive(Clone, Copy, Debug, PartialEq, Eq, Structural)]
pub enum ForwardEvent {
    /// A data frame of `len` bytes was read.
    Data { len: usize },
    /// Reading the body failed.
    ReadFailed,
    /// The body has no more data.
    EndOfData,
    /// What was sent on arrived.
    Sent,
    /// Sending on failed.
    SendFailed,
    /// The body has trailers.
    Trailers,
    /// The body has no trailers.
    NoTrailers,
}

/// What to do next while forwarding a request body.
#[derive(Clone, Copy, Debug, PartialEq, Eq, Structural)]
pub enum ForwardAction {
    /// Log the frame as a client message, then send it on.
    LogAndSend,
    /// Send the frame on without logging it.
    Send,
    /// Read the next data frame.
    ReadData,
    /// Read the trailers.
    ReadTrailers,
    /// Send the trailers on.
    SendTrailers,
    /// Abort the forwarded body.
    Abort,
    /// Stop: the body has been forwarded.
    Finish,
}

/// The step from `state` on `event`: frames of data are sent on, and logged
/// when not empty; a failure to read or to send aborts the forwarded body; at
/// the end of the data the trailers, if any, are sent on as well. An event
/// that cannot happen in a state aborts.
pub open spec fn forward_next(state: ForwardState, event: ForwardEvent) -> (ForwardState, ForwardAction) {
    match (state, event) {
        (ForwardState::ReadingData, ForwardEvent::Data { len }) => (
            ForwardState::ReadingData,
            if len != 0 {
                ForwardAction::LogAndSend
            } else {
                ForwardAction::Send
            },
        ),
        (ForwardState::ReadingData, ForwardEvent::Sent) => (
            ForwardState::ReadingData,
            ForwardAction::ReadData,
        ),
        (ForwardState::ReadingData, ForwardEvent::EndOfData) => (
            ForwardState::ReadingTrailers,
            ForwardAction::ReadTrailers,
        ),
        (ForwardState::ReadingTrailers, ForwardEvent::Trailers) => (
            ForwardState::SendingTrailers,
            ForwardAction::SendTrailers,
        ),
        (ForwardState::ReadingTrailers, ForwardEvent::NoTrailers) => (
            ForwardState::Done,
            ForwardAction::Finish,
        ),
        (ForwardState::SendingTrailers, ForwardEvent::Sent) => (
            ForwardState::Done,
            ForwardAction::Finish,
        ),
        (ForwardState::Done, _) => (ForwardState::Done, ForwardAction::Finish),
        _ => (ForwardState::Done, ForwardAction::Abort),
    }
}

/// The step of forwarding a request body (see `forward_next`).
pub fn forward_step(state: ForwardState, event: ForwardEvent) -> (r: (ForwardState, ForwardAction))
    ensures
        r == forward_next(state, event),
{
    match (state, event) {
        (ForwardState::ReadingData, ForwardEvent::Data { len }) => (
            ForwardState::ReadingData,
            if len != 0 {
                ForwardAction::LogAndSend
            } else {
                ForwardAction::Send
            },
        ),
        (ForwardState::ReadingData, ForwardEvent::Sent) => (
            ForwardState::ReadingData,
            ForwardAction::ReadData,
        ),
        (ForwardState::ReadingData, ForwardEvent::EndOfData) => (
            ForwardState::ReadingTrailers,
            ForwardAction::ReadTrailers,
        ),
        (ForwardState::ReadingTrailers, ForwardEvent::Trailers) => (
            ForwardState::SendingTrailers,
            ForwardAction::SendTrailers,
        ),
        (ForwardState::ReadingTrailers, ForwardEvent::NoTrailers) => (
            ForwardState::Done,
            ForwardAction::Finish,
        ),
        (ForwardState::SendingTrailers, ForwardEvent::Sent) => (
            ForwardState::Done,
            ForwardAction::Finish,
        ),
        (ForwardState::Done, _) => (ForwardState::Done, ForwardAction::Finish),
        _ => (ForwardState::Done, ForwardAction::Abort),
    }
}

} // verus!
