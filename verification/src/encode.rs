//! Protocol-buffer encoding of binary log entries, field by field in field
//! order, with proto3 defaults left out.
use vstd::prelude::*;
use vstd::utf8::encode_utf8;
use crate::proto::{
    Address, ClientHeader, Duration, GrpcLogEntry, Message, Metadata, MetadataEntry, Payload,
    ServerHeader, Timestamp, Trailer,
};
use crate::wire::{
    bool_field, bytes_field, int32_field, int64_field, len_delimited, put_bool_field,
    put_bytes_field, put_int32_field, put_int64_field, put_len_delimited, put_uint_field,
    uint_field, MAX_FIELD,
};

verus! {

/// The UTF-8 bytes of a string.
pub open spec fn utf8(s: String) -> Seq<u8> {
    encode_utf8(s@)
}

pub open spec fn timestamp_bytes(t: Timestamp) -> Seq<u8> {
    int64_field(1, t.seconds) + int32_field(2, t.nanos)
}

pub open spec fn duration_bytes(d: Duration) -> Seq<u8> {
    int64_field(1, d.seconds) + int32_field(2, d.nanos)
}

pub open spec fn metadata_entry_bytes(e: MetadataEntry) -> Seq<u8> {
    bytes_field(1, utf8(e.key)) + bytes_field(2, e.value@)
}

/// The repeated `entry` field of `Metadata`, one embedded message per entry.
pub open spec fn entries_bytes(entries: Seq<MetadataEntry>) -> Seq<u8>
    decreases entries.len(),
{
    if entries.len() == 0 {
        Seq::empty()
    } else {
        entries_bytes(entries.drop_last()) + len_delimited(1, metadata_entry_bytes(entries.last()))
    }
}

pub open spec fn metadata_bytes(m: Metadata) -> Seq<u8> {
    entries_bytes(m.entry@)
}

pub open spec fn opt_metadata_field(field: u32, m: Option<Metadata>) -> Seq<u8> {
    match m {
        Some(m) => len_delimited(field, metadata_bytes(m)),
        None => Seq::empty(),
    }
}

pub open spec fn client_header_bytes(h: ClientHeader) -> Seq<u8> {
    let timeout = match h.timeout {
        Some(d) => len_delimited(4, duration_bytes(d)),
        None => Seq::empty(),
    };
    opt_metadata_field(1, h.metadata) + bytes_field(2, utf8(h.method_name)) + bytes_field(
        3,
        utf8(h.authority),
    ) + timeout
}

pub open spec fn server_header_bytes(h: ServerHeader) -> Seq<u8> {
    opt_metadata_field(1, h.metadata)
}

pub open spec fn trailer_bytes(t: Trailer) -> Seq<u8> {
    opt_metadata_field(1, t.metadata) + uint_field(2, t.status_code as u64) + bytes_field(
        3,
        utf8(t.status_message),
    ) + bytes_field(4, t.status_details@)
}

pub open spec fn message_bytes(m: Message) -> Seq<u8> {
    uint_field(1, m.length as u64) + bytes_field(2, m.data@)
}

pub open spec fn address_bytes(a: Address) -> Seq<u8> {
    int32_field(1, a.address_type) + bytes_field(2, utf8(a.address)) + uint_field(3, a.ip_port as u64)
}

/// The `payload` oneof: fields 6 to 9, whichever is set.
pub open spec fn payload_bytes(p: Option<Payload>) -> Seq<u8> {
    match p {
        Some(Payload::ClientHeader(h)) => len_delimited(6, client_header_bytes(h)),
        Some(Payload::ServerHeader(h)) => len_delimited(7, server_header_bytes(h)),
        Some(Payload::Message(m)) => len_delimited(8, message_bytes(m)),
        Some(Payload::Trailer(t)) => len_delimited(9, trailer_bytes(t)),
        None => Seq::empty(),
    }
}

/// The protocol-buffer encoding of a log entry.
/// Fields 1 to 5 of a log entry: timestamp, call id, sequence id, type, logger.
pub open spec fn entry_head_bytes(e: GrpcLogEntry) -> Seq<u8> {
    let timestamp = match e.timestamp {
        Some(t) => len_delimited(1, timestamp_bytes(t)),
        None => Seq::empty(),
    };
    timestamp + uint_field(2, e.call_id) + uint_field(3, e.sequence_id_within_call) + int32_field(
        4,
        e.event_type,
    ) + int32_field(5, e.logger)
}

/// Fields 10 and 11 of a log entry: the truncation flag and the peer.
pub open spec fn entry_tail_bytes(e: GrpcLogEntry) -> Seq<u8> {
    let peer = match e.peer {
        Some(a) => len_delimited(11, address_bytes(a)),
        None => Seq::empty(),
    };
    bool_field(10, e.payload_truncated) + peer
}

/// The protocol-buffer encoding of a log entry.
pub open spec fn entry_bytes(e: GrpcLogEntry) -> Seq<u8> {
    entry_head_bytes(e) + payload_bytes(e.payload) + entry_tail_bytes(e)
}

/// Appends a string field.
fn put_string_field(field: u32, s: &String, out: &mut Vec<u8>)
    requires
        field <= MAX_FIELD,
    ensures
        final(out)@ == old(out)@ + bytes_field(field, utf8(*s)),
{
    let b = s.as_str().as_bytes();
    put_bytes_field(field, b, out);
}

/// Appends an embedded message field whose encoding is `inner`.
fn put_message(field: u32, inner: &Vec<u8>, out: &mut Vec<u8>)
    requires
        field <= MAX_FIELD,
    ensures
        final(out)@ == old(out)@ + len_delimited(field, inner@),
{
    put_len_delimited(field, inner.as_slice(), out);
}

impl Timestamp {
    pub fn encode(&self, out: &mut Vec<u8>)
        ensures
            final(out)@ == old(out)@ + timestamp_bytes(*self),
    {
        let ghost start = out@;
        put_int64_field(1, self.seconds, out);
        put_int32_field(2, self.nanos, out);
        assert(out@ =~= start + timestamp_bytes(*self));
    }
}

impl Duration {
    pub fn encode(&self, out: &mut Vec<u8>)
        ensures
            final(out)@ == old(out)@ + duration_bytes(*self),
    {
        let ghost start = out@;
        put_int64_field(1, self.seconds, out);
        put_int32_field(2, self.nanos, out);
        assert(out@ =~= start + duration_bytes(*self));
    }
}

impl MetadataEntry {
    pub fn encode(&self, out: &mut Vec<u8>)
        ensures
            final(out)@ == old(out)@ + metadata_entry_bytes(*self),
    {
        let ghost start = out@;
        put_string_field(1, &self.key, out);
        put_bytes_field(2, self.value.as_slice(), out);
        assert(out@ =~= start + metadata_entry_bytes(*self));
    }
}

impl Metadata {
    pub fn encode(&self, out: &mut Vec<u8>)
        ensures
            final(out)@ == old(out)@ + metadata_bytes(*self),
    {
        let ghost start = out@;
        let mut i: usize = 0;
        while i < self.entry.len()
            invariant
                i <= self.entry@.len(),
                out@ == start + entries_bytes(self.entry@.subrange(0, i as int)),
            decreases self.entry@.len() - i,
        {
            let mut inner: Vec<u8> = Vec::new();
            self.entry[i].encode(&mut inner);
            put_message(1, &inner, out);
            let ghost prefix = self.entry@.subrange(0, i + 1);
            assert(prefix.drop_last() =~= self.entry@.subrange(0, i as int));
            i = i + 1;
            assert(out@ =~= start + entries_bytes(prefix));
        }
        assert(self.entry@.subrange(0, i as int) =~= self.entry@);
    }
}

/// Appends an optional metadata field.
fn put_opt_metadata(field: u32, m: &Option<Metadata>, out: &mut Vec<u8>)
    requires
        field <= MAX_FIELD,
    ensures
        final(out)@ == old(out)@ + opt_metadata_field(field, *m),
{
    match m {
        Some(m) => {
            let mut inner: Vec<u8> = Vec::new();
            m.encode(&mut inner);
            put_message(field, &inner, out);
        },
        None => {
            assert(out@ =~= old(out)@ + opt_metadata_field(field, None));
        },
    }
}

impl ClientHeader {
    pub fn encode(&self, out: &mut Vec<u8>)
        ensures
            final(out)@ == old(out)@ + client_header_bytes(*self),
    {
        let ghost start = out@;
        put_opt_metadata(1, &self.metadata, out);
        put_string_field(2, &self.method_name, out);
        put_string_field(3, &self.authority, out);
        match &self.timeout {
            Some(d) => {
                let mut inner: Vec<u8> = Vec::new();
                d.encode(&mut inner);
                put_message(4, &inner, out);
            },
            None => {},
        }
        assert(out@ =~= start + client_header_bytes(*self));
    }
}

impl ServerHeader {
    pub fn encode(&self, out: &mut Vec<u8>)
        ensures
            final(out)@ == old(out)@ + server_header_bytes(*self),
    {
        put_opt_metadata(1, &self.metadata, out);
    }
}

impl Trailer {
    pub fn encode(&self, out: &mut Vec<u8>)
        ensures
            final(out)@ == old(out)@ + trailer_bytes(*self),
    {
        let ghost start = out@;
        put_opt_metadata(1, &self.metadata, out);
        put_uint_field(2, self.status_code as u64, out);
        put_string_field(3, &self.status_message, out);
        put_bytes_field(4, self.status_details.as_slice(), out);
        assert(out@ =~= start + trailer_bytes(*self));
    }
}

impl Message {
    pub fn encode(&self, out: &mut Vec<u8>)
        ensures
            final(out)@ == old(out)@ + message_bytes(*self),
    {
        let ghost start = out@;
        put_uint_field(1, self.length as u64, out);
        put_bytes_field(2, self.data.as_slice(), out);
        assert(out@ =~= start + message_bytes(*self));
    }
}

impl Address {
    pub fn encode(&self, out: &mut Vec<u8>)
        ensures
            final(out)@ == old(out)@ + address_bytes(*self),
    {
        let ghost start = out@;
        put_int32_field(1, self.address_type, out);
        put_string_field(2, &self.address, out);
        put_uint_field(3, self.ip_port as u64, out);
        assert(out@ =~= start + address_bytes(*self));
    }
}

/// Appends the payload oneof.
fn put_payload(p: &Option<Payload>, out: &mut Vec<u8>)
    ensures
        final(out)@ == old(out)@ + payload_bytes(*p),
{
    let mut inner: Vec<u8> = Vec::new();
    match p {
        Some(Payload::ClientHeader(h)) => {
            h.encode(&mut inner);
            put_message(6, &inner, out);
        },
        Some(Payload::ServerHeader(h)) => {
            h.encode(&mut inner);
            put_message(7, &inner, out);
        },
        Some(Payload::Message(m)) => {
            m.encode(&mut inner);
            put_message(8, &inner, out);
        },
        Some(Payload::Trailer(t)) => {
            t.encode(&mut inner);
            put_message(9, &inner, out);
        },
        None => {
            assert(out@ =~= old(out)@ + payload_bytes(None));
        },
    }
}

impl GrpcLogEntry {
    fn encode_head(&self, out: &mut Vec<u8>)
        ensures
            final(out)@ == old(out)@ + entry_head_bytes(*self),
    {
        let ghost start = out@;
        match &self.timestamp {
            Some(t) => {
                let mut inner: Vec<u8> = Vec::new();
                t.encode(&mut inner);
                put_message(1, &inner, out);
            },
            None => {},
        }
        put_uint_field(2, self.call_id, out);
        put_uint_field(3, self.sequence_id_within_call, out);
        put_int32_field(4, self.event_type, out);
        put_int32_field(5, self.logger, out);
        assert(out@ =~= start + entry_head_bytes(*self));
    }

    fn encode_tail(&self, out: &mut Vec<u8>)
        ensures
            final(out)@ == old(out)@ + entry_tail_bytes(*self),
    {
        let ghost start = out@;
        put_bool_field(10, self.payload_truncated, out);
        match &self.peer {
            Some(a) => {
                let mut inner: Vec<u8> = Vec::new();
                a.encode(&mut inner);
                put_message(11, &inner, out);
            },
            None => {},
        }
        assert(out@ =~= start + entry_tail_bytes(*self));
    }

    /// Appends the protocol-buffer encoding of this entry to `out`.
    pub fn encode(&self, out: &mut Vec<u8>)
        ensures
            final(out)@ == old(out)@ + entry_bytes(*self),
    {
        let ghost start = out@;
        self.encode_head(out);
        put_payload(&self.payload, out);
        self.encode_tail(out);
        assert(out@ =~= start + entry_bytes(*self));
    }

    /// The protocol-buffer encoding of this entry.
    pub fn encode_to_vec(&self) -> (bytes: Vec<u8>)
        ensures
            bytes@ == entry_bytes(*self),
    {
        let mut bytes: Vec<u8> = Vec::new();
        self.encode(&mut bytes);
        assert(bytes@ =~= entry_bytes(*self));
        bytes
    }
}

} // verus!
