//! The messages of `grpc.binarylog.v1` (binarylog.proto) that a log entry is
//! made of, with the field names of the generated code.
use vstd::prelude::*;

verus! {

/// `google.protobuf.Timestamp`.
#[derive(Clone, Debug, PartialEq, Eq)]
pub struct Timestamp {
    pub seconds: i64,
    pub nanos: i32,
}

/// `google.protobuf.Duration`.
#[derive(Clone, Debug, PartialEq, Eq)]
pub struct Duration {
    pub seconds: i64,
    pub nanos: i32,
}

/// One metadata (header or trailer) entry: its key and its value bytes.
#[derive(Clone, Debug, PartialEq, Eq)]
pub struct MetadataEntry {
    pub key: String,
    pub value: Vec<u8>,
}

/// The metadata of a call, in the order in which it was sent.
#[derive(Clone, Debug, PartialEq, Eq)]
pub struct Metadata {
    pub entry: Vec<MetadataEntry>,
}

/// What the client sent in its initial headers.
#[derive(Clone, Debug, PartialEq, Eq)]
pub struct ClientHeader {
    pub metadata: Option<Metadata>,
    pub method_name: String,
    pub authority: String,
    pub timeout: Option<Duration>,
}

/// What the server sent in its initial headers.
#[derive(Clone, Debug, PartialEq, Eq)]
pub struct ServerHeader {
    pub metadata: Option<Metadata>,
}

/// The status and trailing metadata that end a call.
#[derive(Clone, Debug, PartialEq, Eq)]
pub struct Trailer {
    pub metadata: Option<Metadata>,
    pub status_code: u32,
    pub status_message: String,
    pub status_details: Vec<u8>,
}

/// A message of the call: its length and its bytes.
#[derive(Clone, Debug, PartialEq, Eq)]
pub struct Message {
    pub length: u32,
    pub data: Vec<u8>,
}

/// The peer of a call (`Address`); `address_type` is the proto field `type`.
#[derive(Clone, Debug, PartialEq, Eq)]
pub struct Address {
    pub address_type: i32,
    pub address: String,
    pub ip_port: u32,
}

/// The `payload` oneof of a log entry.
#[derive(Clone, Debug, PartialEq, Eq)]
pub enum Payload {
    ClientHeader(ClientHeader),
    ServerHeader(ServerHeader),
    Message(Message),
    Trailer(Trailer),
}

/// One binary log entry; `event_type` is the proto field `type`.
#[derive(Clone, Debug, PartialEq, Eq)]
pub struct GrpcLogEntry {
    pub timestamp: Option<Timestamp>,
    pub call_id: u64,
    pub sequence_id_within_call: u64,
    pub event_type: i32,
    pub logger: i32,
    pub payload: Option<Payload>,
    pub payload_truncated: bool,
    pub peer: Option<Address>,
}

/// `GrpcLogEntry.EventType`.
#[derive(Clone, Copy, Debug, PartialEq, Eq)]
pub enum EventType {
    Unknown,
    ClientHeader,
    ServerHeader,
    ClientMessage,
    ServerMessage,
    ClientHalfClose,
    ServerTrailer,
    Cancel,
}

/// The number that stands for an event type on the wire.
pub open spec fn event_type_number(t: EventType) -> i32 {
    match t {
        EventType::Unknown => 0,
        EventType::ClientHeader => 1,
        EventType::ServerHeader => 2,
        EventType::ClientMessage => 3,
        EventType::ServerMessage => 4,
        EventType::ClientHalfClose => 5,
        EventType::ServerTrailer => 6,
        EventType::Cancel => 7,
    }
}

impl EventType {
    /// The number that stands for this event type on the wire.
    pub fn number(self) -> (n: i32)
        ensures
            n == event_type_number(self),
    {
        match self {
            EventType::Unknown => 0,
            EventType::ClientHeader => 1,
            EventType::ServerHeader => 2,
            EventType::ClientMessage => 3,
            EventType::ServerMessage => 4,
            EventType::ClientHalfClose => 5,
            EventType::ServerTrailer => 6,
            EventType::Cancel => 7,
        }
    }
}

/// `GrpcLogEntry.Logger`: which side of the call wrote the entry.
#[derive(Clone, Copy, Debug, PartialEq, Eq)]
pub enum Logger {
    Unknown,
    Client,
    Server,
}

/// The number that stands for a logger on the wire.
pub open spec fn logger_number(l: Logger) -> i32 {
    match l {
        Logger::Unknown => 0,
        Logger::Client => 1,
        Logger::Server => 2,
    }
}

impl Logger {
    /// The number that stands for this logger on the wire.
    pub fn number(self) -> (n: i32)
        ensures
            n == logger_number(self),
    {
        match self {
            Logger::Unknown => 0,
            Logger::Client => 1,
            Logger::Server => 2,
        }
    }
}

} // verus!
