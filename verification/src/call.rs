//! The log entries of one call: what each event of the call is logged as, and
//! the numbering of the entries within the call.
use std::sync::Arc;
use vstd::prelude::*;
use crate::headers::{
    details_of, kept_metadata, message_of, metadata, metadata_view, status_of,
    timeout_of, HeaderMap,
};
use crate::proto::{
    event_type_number, logger_number, ClientHeader, EventType, GrpcLogEntry, Logger, Message,
    Metadata, Payload, ServerHeader, Trailer,
};
use crate::sink::Sink;
use crate::timeout::{proto_duration, to_proto_duration};

verus! {

/// An event of a call that is logged.
pub enum LogEntry<'a> {
    /// The client's initial headers, with the method path and the authority.
    ClientHeaders { method: &'a str, authority: Option<&'a str>, headers: &'a HeaderMap },
    /// A gRPC frame sent by the client.
    ClientMessage(&'a [u8]),
    /// The server's initial headers.
    ServerHeaders(&'a HeaderMap),
    /// A gRPC frame sent by the server.
    ServerMessage(&'a [u8]),
    /// The server's trailers.
    ServerTrailers(&'a HeaderMap),
}

/// The length of the compressed-flag field of a gRPC frame.
pub const COMPRESSED_FLAG_FIELD_LEN: usize = 1;

/// The length of the message-length field of a gRPC frame.
pub const MESSAGE_LENGTH_FIELD_LEN: usize = 4;

/// The message bytes of a gRPC frame: what follows its five-byte prefix.
pub open spec fn frame_data(frame: Seq<u8>) -> Seq<u8> {
    if frame.len() <= 5 {
        Seq::empty()
    } else {
        frame.subrange(5, frame.len() as int)
    }
}

/// The frames that can be logged: not empty, and not compressed (the first
/// byte, the compressed flag, is not 1).
pub open spec fn loggable_frame(frame: Seq<u8>) -> bool {
    frame.len() > 0 && frame[0] != 1
}

/// The events that can be logged.
pub open spec fn loggable(event: LogEntry) -> bool {
    match event {
        LogEntry::ClientHeaders { headers, .. } => headers.wf(),
        LogEntry::ClientMessage(b) => loggable_frame(b@),
        LogEntry::ServerHeaders(_) => true,
        LogEntry::ServerMessage(b) => loggable_frame(b@),
        LogEntry::ServerTrailers(h) => h.wf(),
    }
}

/// Whether an event can be logged (see `loggable`).
pub fn loggable_event(event: &LogEntry) -> (r: bool)
    ensures
        r == loggable(*event),
{
    match event {
        LogEntry::ClientHeaders { headers, .. } => headers.is_wf(),
        LogEntry::ClientMessage(b) => b.len() > 0 && b[0] != 1,
        LogEntry::ServerHeaders(_) => true,
        LogEntry::ServerMessage(b) => b.len() > 0 && b[0] != 1,
        LogEntry::ServerTrailers(h) => h.is_wf(),
    }
}

/// `metadata` holds the logged metadata of `h`.
pub open spec fn metadata_of(metadata: Option<Metadata>, h: HeaderMap) -> bool {
    metadata matches Some(m) && metadata_view(m) == kept_metadata(h.fields@)
}

/// `m` is the logged form of a gRPC frame.
pub open spec fn message_of_frame(m: Message, frame: Seq<u8>) -> bool {
    m.data@ == frame_data(frame) && m.length == frame_data(frame).len() as u32
}

/// The fields that every entry of a call shares: written by the server, with
/// the call's id and its sequence number, nothing truncated, no timestamp or peer.
pub open spec fn common_fields(e: GrpcLogEntry, call_id: u64, sequence: u64) -> bool {
    &&& e.timestamp is None
    &&& e.call_id == call_id
    &&& e.sequence_id_within_call == sequence
    &&& e.logger == logger_number(Logger::Server)
    &&& !e.payload_truncated
    &&& e.peer is None
}

/// `e` has the type and the payload that stand for `event`.
pub open spec fn describes(e: GrpcLogEntry, event: LogEntry) -> bool {
    match event {
        LogEntry::ClientHeaders { method, authority, headers } => {
            &&& e.event_type == event_type_number(EventType::ClientHeader)
            &&& e.payload matches Some(Payload::ClientHeader(h))
            &&& h.method_name@ == method@
            &&& h.authority@ == match authority {
                Some(a) => a@,
                None => Seq::empty(),
            }
            &&& metadata_of(h.metadata, *headers)
            &&& h.timeout == proto_duration(timeout_of(*headers))
        },
        LogEntry::ClientMessage(b) => {
            &&& e.event_type == event_type_number(EventType::ClientMessage)
            &&& e.payload matches Some(Payload::Message(m))
            &&& message_of_frame(m, b@)
        },
        LogEntry::ServerHeaders(headers) => {
            &&& e.event_type == event_type_number(EventType::ServerHeader)
            &&& e.payload matches Some(Payload::ServerHeader(h))
            &&& metadata_of(h.metadata, *headers)
        },
        LogEntry::ServerMessage(b) => {
            &&& e.event_type == event_type_number(EventType::ServerMessage)
            &&& e.payload matches Some(Payload::Message(m))
            &&& message_of_frame(m, b@)
        },
        LogEntry::ServerTrailers(headers) => {
            &&& e.event_type == event_type_number(EventType::ServerTrailer)
            &&& e.payload matches Some(Payload::Trailer(t))
            &&& metadata_of(t.metadata, *headers)
            &&& t.status_code == status_of(*headers)
            &&& t.status_message@ == message_of(*headers)
            &&& t.status_details@ == details_of(*headers)
        },
    }
}

/// The logged form of a gRPC frame: the bytes after its five-byte prefix and
/// their number (its low 32 bits).
pub fn message(bytes: &[u8]) -> (m: Message)
    requires
        loggable_frame(bytes@),
    ensures
        message_of_frame(m, bytes@),
{
    let mut data: Vec<u8> = Vec::new();
    let mut i: usize = COMPRESSED_FLAG_FIELD_LEN + MESSAGE_LENGTH_FIELD_LEN;
    while i < bytes.len()
        invariant
            5 <= i,
            i < bytes@.len() ==> data@ == bytes@.subrange(5, i as int),
            i >= bytes@.len() ==> data@ == frame_data(bytes@),
            bytes@.len() <= 5 ==> data@.len() == 0,
        decreases bytes@.len() - i,
    {
        let ghost before = data@;
        data.push(bytes[i]);
        assert(bytes@.subrange(5, i + 1) =~= bytes@.subrange(5, i as int).push(bytes@[i as int]));
        i = i + 1;
        if i >= bytes.len() {
            assert(bytes@.subrange(5, i as int) =~= frame_data(bytes@));
        }
    }
    if bytes.len() <= 5 {
        assert(data@ =~= frame_data(bytes@));
    }
    Message { length: data.len() as u32, data }
}

/// The entry that logs `event` as entry number `sequence` of call `call_id`.
pub fn entry_for(call_id: u64, sequence: u64, event: &LogEntry) -> (e: GrpcLogEntry)
    requires
        loggable(*event),
    ensures
        common_fields(e, call_id, sequence),
        describes(e, *event),
{
    let (event_type, payload) = match event {
        LogEntry::ClientHeaders { method, authority, headers } => {
            let timeout = headers.grpc_timeout();
            let authority_name = match authority {
                Some(a) => String::from_str(a),
                None => String::new(),
            };
            (
                EventType::ClientHeader,
                Payload::ClientHeader(
                    ClientHeader {
                        method_name: String::from_str(method),
                        metadata: Some(metadata(headers)),
                        authority: authority_name,
                        timeout: to_proto_duration(timeout),
                    },
                ),
            )
        },
        LogEntry::ClientMessage(body) => (EventType::ClientMessage, Payload::Message(message(body))),
        LogEntry::ServerHeaders(headers) => (
            EventType::ServerHeader,
            Payload::ServerHeader(ServerHeader { metadata: Some(metadata(headers)) }),
        ),
        LogEntry::ServerMessage(body) => (EventType::ServerMessage, Payload::Message(message(body))),
        LogEntry::ServerTrailers(headers) => (
            EventType::ServerTrailer,
            Payload::Trailer(
                Trailer {
                    status_code: headers.grpc_status(),
                    status_message: headers.grpc_message(),
                    metadata: Some(metadata(headers)),
                    status_details: headers.grpc_status_details(),
                },
            ),
        ),
    };
    GrpcLogEntry {
        timestamp: None,
        call_id,
        sequence_id_within_call: sequence,
        event_type: event_type.number(),
        logger: Logger::Server.number(),
        payload: Some(payload),
        payload_truncated: false,
        peer: None,
    }
}

/// `entry` was handed to `sink` by a call of its `write`.
pub open spec fn handed_to_sink<K: Sink>(sink: K, entry: GrpcLogEntry) -> bool {
    call_ensures(K::write, (&sink, entry), ())
}

/// Logs the events of one call to a sink, numbering them 1, 2, 3, ...
pub struct CallLogger<K> {
    call_id: u64,
    sequence: u64,
    sink: Arc<K>,
    written: Ghost<Seq<GrpcLogEntry>>,
}

impl<K: Sink> CallLogger<K> {
    /// The id of the call.
    pub closed spec fn id(&self) -> u64 {
        self.call_id
    }

    /// The number of entries logged so far (the sequence number of the last).
    pub closed spec fn sequence(&self) -> u64 {
        self.sequence
    }

    /// The sink that entries go to.
    pub closed spec fn sink(&self) -> K {
        *self.sink
    }

    /// The entries handed to the sink so far, in order.
    pub closed spec fn written(&self) -> Seq<GrpcLogEntry> {
        self.written@
    }

    /// Every entry handed to the sink carries the call's id, and the entries
    /// are numbered 1, 2, 3, ... in the order they were written.
    pub open spec fn wf(&self) -> bool {
        &&& self.written().len() == self.sequence()
        &&& forall|i: int|
            0 <= i < self.written().len() ==> common_fields(
                #[trigger] self.written()[i],
                self.id(),
                (i + 1) as u64,
            )
    }

    /// A logger for call `call_id` that has logged nothing yet.
    pub fn new(call_id: u64, sink: Arc<K>) -> (c: Self)
        ensures
            c.id() == call_id,
            c.sequence() == 0,
            c.sink() == *sink,
            c.written() == Seq::<GrpcLogEntry>::empty(),
            c.wf(),
    {
        CallLogger { call_id, sequence: 0, sink, written: Ghost(Seq::empty()) }
    }

    /// The number of entries logged so far.
    pub fn entries_logged(&self) -> (n: u64)
        ensures
            n == self.sequence(),
    {
        self.sequence
    }

    /// The id of the call.
    pub fn call_id(&self) -> (id: u64)
        ensures
            id == self.id(),
    {
        self.call_id
    }

    /// Logs `event` as the next entry of the call.
    pub fn log(&mut self, event: LogEntry)
        requires
            old(self).wf(),
            old(self).sequence() < u64::MAX,
            loggable(event),
        ensures
            final(self).wf(),
            final(self).id() == old(self).id(),
            final(self).sink() == old(self).sink(),
            final(self).sequence() == old(self).sequence() + 1,
            final(self).written().len() == old(self).written().len() + 1,
            final(self).written().drop_last() == old(self).written(),
            common_fields(final(self).written().last(), old(self).id(), final(self).sequence()),
            describes(final(self).written().last(), event),
            handed_to_sink(old(self).sink(), final(self).written().last()),
    {
        self.sequence = self.sequence + 1;
        let entry = entry_for(self.call_id, self.sequence, &event);
        proof {
            self.written@ = self.written@.push(entry);
            assert(self.written@.drop_last() =~= old(self).written@);
        }
        self.sink.write(entry);
    }

    /// Logs the start of a response: the server's headers, then, when the body
    /// is already at its end (an empty result, or an error at once), empty
    /// trailers, because such a body will log nothing itself.
    pub fn log_response_start(&mut self, headers: &HeaderMap, end_of_stream: bool)
        requires
            old(self).wf(),
            old(self).sequence() + if end_of_stream {
                2int
            } else {
                1int
            } <= u64::MAX,
        ensures
            final(self).wf(),
            final(self).id() == old(self).id(),
            final(self).sink() == old(self).sink(),
            final(self).sequence() == old(self).sequence() + if end_of_stream {
                2int
            } else {
                1int
            },
            final(self).written().subrange(0, old(self).written().len() as int) == old(
                self,
            ).written(),
            describes(
                final(self).written()[old(self).written().len() as int],
                LogEntry::ServerHeaders(headers),
            ),
            handed_to_sink(old(self).sink(), final(self).written()[old(self).written().len() as int]),
            end_of_stream ==> empty_trailers(
                final(self).written()[old(self).written().len() + 1int],
            ),
            end_of_stream ==> handed_to_sink(
                old(self).sink(),
                final(self).written()[old(self).written().len() + 1int],
            ),
    {
        let ghost start = self.written();
        self.log(LogEntry::ServerHeaders(headers));
        let ghost after_headers = self.written();
        assert(after_headers.drop_last() == start);
        if end_of_stream {
            let empty = HeaderMap::new();
            self.log(LogEntry::ServerTrailers(&empty));
            proof {
                assert(kept_metadata(empty.fields@) =~= Seq::empty());
                assert(self.written().drop_last() == after_headers);
                assert(self.written()[start.len() as int] == after_headers[start.len() as int]);
                assert(self.written().subrange(0, start.len() as int) =~= start);
            }
        } else {
            assert(self.written().subrange(0, start.len() as int) =~= start);
        }
    }
}

/// `e` logs empty trailers: status 2 (Unknown), no message, no details, no metadata.
pub open spec fn empty_trailers(e: GrpcLogEntry) -> bool {
    &&& e.event_type == event_type_number(EventType::ServerTrailer)
    &&& e.payload matches Some(Payload::Trailer(t))
    &&& t.metadata matches Some(m)
    &&& metadata_view(m).len() == 0
    &&& t.status_code == 2
    &&& t.status_message@.len() == 0
    &&& t.status_details@.len() == 0
}

} // verus!
