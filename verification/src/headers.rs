//! Header maps, the gRPC headers that a log entry reads from them, and the
//! metadata that is logged.
use vstd::prelude::*;
use crate::proto::{Metadata, MetadataEntry};
use crate::timeout::{parse_grpc_timeout, timeout_value, Timeout};
use crate::text::{str_eq, str_starts_with};
use crate::wire::put_bytes;

verus! {

/// One header: its (lower-case) name and its value bytes.
#[derive(Clone, Debug, PartialEq, Eq)]
pub struct HeaderField {
    pub name: String,
    pub value: Vec<u8>,
}

/// The headers (or trailers) of a request or response, in order; a name may
/// occur more than once.
#[derive(Clone, Debug, PartialEq, Eq)]
pub struct HeaderMap {
    pub fields: Vec<HeaderField>,
}

/// A byte that a header value may hold when it is read as text.
pub open spec fn is_visible_ascii(b: u8) -> bool {
    (32 <= b && b < 127) || b == 9
}

pub open spec fn all_visible(v: Seq<u8>) -> bool {
    forall|i: int| 0 <= i < v.len() ==> is_visible_ascii(#[trigger] v[i])
}

/// The characters that the bytes of a text header value stand for.
pub open spec fn ascii_text(v: Seq<u8>) -> Seq<char> {
    v.map_values(|b: u8| b as char)
}

/// The value of the first field named `name`.
pub open spec fn first_value(fields: Seq<HeaderField>, name: Seq<char>) -> Option<Seq<u8>>
    decreases fields.len(),
{
    if fields.len() == 0 {
        None
    } else if fields[0].name@ == name {
        Some(fields[0].value@)
    } else {
        first_value(fields.drop_first(), name)
    }
}

/// The value of header `name` when it is present and readable as text.
pub open spec fn text_value(h: HeaderMap, name: Seq<char>) -> Option<Seq<u8>> {
    match first_value(h.fields@, name) {
        Some(v) => if all_visible(v) {
            Some(v)
        } else {
            None
        },
        None => None,
    }
}

/// The headers that binarylog.proto leaves out of logged metadata: the
/// transport headers and every `grpc-` header but `grpc-trace-bin`.
pub open spec fn reserved_header(name: Seq<char>) -> bool {
    if name == "grpc-trace-bin"@ {
        false
    } else if name == "te"@ || name == "content-type"@ || name == "content-length"@ || name
        == "content-encoding"@ || name == "user-agent"@ {
        true
    } else {
        "grpc-"@.is_prefix_of(name)
    }
}

/// The (name, value) pairs of the fields that are logged, in order.
pub open spec fn kept_metadata(fields: Seq<HeaderField>) -> Seq<(Seq<char>, Seq<u8>)>
    decreases fields.len(),
{
    if fields.len() == 0 {
        Seq::empty()
    } else if reserved_header(fields.last().name@) {
        kept_metadata(fields.drop_last())
    } else {
        kept_metadata(fields.drop_last()).push((fields.last().name@, fields.last().value@))
    }
}

/// The (key, value) pairs of a logged metadata message.
pub open spec fn metadata_view(m: Metadata) -> Seq<(Seq<char>, Seq<u8>)> {
    m.entry@.map_values(|e: MetadataEntry| (e.key@, e.value@))
}

/// The gRPC status code that `tonic::Code::from_bytes` reads: `0` to `16`
/// written in decimal, anything else `2` (Unknown).
pub open spec fn grpc_code(b: Seq<u8>) -> u32 {
    if b.len() == 1 && 48 <= b[0] <= 57 {
        (b[0] - 48) as u32
    } else if b.len() == 2 && b[0] == 49 && 48 <= b[1] <= 54 {
        (b[1] - 38) as u32
    } else {
        2
    }
}

/// The `grpc-status` of a header map, `2` (Unknown) without one.
pub open spec fn status_of(h: HeaderMap) -> u32 {
    match text_value(h, "grpc-status"@) {
        Some(v) => grpc_code(v),
        None => 2,
    }
}

/// The `grpc-message` of a header map, empty without one.
pub open spec fn message_of(h: HeaderMap) -> Seq<char> {
    match text_value(h, "grpc-message"@) {
        Some(v) => ascii_text(v),
        None => Seq::empty(),
    }
}

/// The result of decoding `input` as standard base64 with `base64::decode`.
pub uninterp spec fn base64_decoded(input: Seq<u8>) -> Option<Seq<u8>>;

/// The decoded `grpc-status-details-bin` of a header map, empty without one or
/// when it is not valid base64.
pub open spec fn details_of(h: HeaderMap) -> Seq<u8> {
    match text_value(h, "grpc-status-details-bin"@) {
        Some(v) => match base64_decoded(v) {
            Some(d) => d,
            None => Seq::empty(),
        },
        None => Seq::empty(),
    }
}

/// The `grpc-timeout` of a header map.
pub open spec fn timeout_of(h: HeaderMap) -> Option<Timeout> {
    match text_value(h, "grpc-timeout"@) {
        Some(v) => timeout_value(ascii_text(v)),
        None => None,
    }
}

impl HeaderMap {
    /// Values are no longer than any Rust allocation can be.
    pub open spec fn wf(self) -> bool {
        forall|i: int|
            0 <= i < self.fields@.len() ==> (#[trigger] self.fields@[i]).value@.len()
                <= isize::MAX
    }

    /// An empty header map.
    pub fn new() -> (h: HeaderMap)
        ensures
            h.fields@.len() == 0,
            h.wf(),
    {
        HeaderMap { fields: Vec::new() }
    }
}

/// The text of a header value, through `http::HeaderValue::to_str`, which
/// accepts a value only when every byte is visible ASCII (32 to 126) or a tab;
/// `HeaderValue::from_bytes` refuses only bytes that `to_str` refuses too.
#[verifier::external_body]
fn header_value_text(value: &[u8]) -> (r: Option<String>)
    ensures
        r is Some <==> all_visible(value@),
        r matches Some(s) ==> s@ == ascii_text(value@),
{
    match http::HeaderValue::from_bytes(value) {
        Ok(v) => match v.to_str() {
            Ok(s) => Some(s.to_string()),
            Err(_) => None,
        },
        Err(_) => None,
    }
}

/// The status code that `tonic::Code::from_bytes` reads from `bytes`, as a number.
#[verifier::external_body]
fn code_from_bytes(bytes: &[u8]) -> (c: u32)
    ensures
        c == grpc_code(bytes@),
{
    tonic::Code::from_bytes(bytes) as u32
}

/// `base64::decode` with the standard alphabet; `None` where it reports an error.
/// It panics when the input length plus 7 overflows (the chunk count).
#[verifier::external_body]
fn base64_decode(input: &[u8]) -> (r: Option<Vec<u8>>)
    requires
        input@.len() + 7 <= usize::MAX,
    ensures
        match r {
            Some(v) => base64_decoded(input@) == Some(v@),
            None => base64_decoded(input@) is None,
        },
{
    base64::decode(input).ok()
}

/// The decoded status details, or no bytes when decoding failed.
pub fn details_or_empty(decoded: Option<Vec<u8>>) -> (r: Vec<u8>)
    ensures
        r@ == match decoded {
            Some(v) => v@,
            None => Seq::empty(),
        },
{
    match decoded {
        Some(v) => v,
        None => Vec::new(),
    }
}

/// Whether a header is left out of logged metadata (see `reserved_header`).
pub fn is_reserved_header(key: &str) -> (r: bool)
    ensures
        r == reserved_header(key@),
{
    if str_eq(key, "grpc-trace-bin") {
        false
    } else if str_eq(key, "te") || str_eq(key, "content-type") || str_eq(key, "content-length")
        || str_eq(key, "content-encoding") || str_eq(key, "user-agent") {
        true
    } else {
        str_starts_with(key, "grpc-")
    }
}

impl HeaderMap {
    /// The value of the first field named `key`.
    pub fn get(&self, key: &str) -> (r: Option<&Vec<u8>>)
        ensures
            match r {
                Some(v) => first_value(self.fields@, key@) == Some(v@),
                None => first_value(self.fields@, key@) is None,
            },
    {
        let mut i: usize = 0;
        assert(self.fields@.skip(0) =~= self.fields@);
        while i < self.fields.len()
            invariant
                i <= self.fields@.len(),
                first_value(self.fields@, key@) == first_value(self.fields@.skip(i as int), key@),
            decreases self.fields@.len() - i,
        {
            let field = &self.fields[i];
            assert(self.fields@.skip(i as int)[0] == self.fields@[i as int]);
            if str_eq(field.name.as_str(), key) {
                return Some(&field.value);
            }
            assert(self.fields@.skip(i as int).drop_first() =~= self.fields@.skip(i + 1));
            i = i + 1;
        }
        None
    }

    /// The value of header `key` as text, when present and readable as text.
    pub fn get_grpc_header(&self, key: &str) -> (r: Option<String>)
        ensures
            match text_value(*self, key@) {
                Some(v) => r matches Some(s) && s@ == ascii_text(v),
                None => r is None,
            },
    {
        match self.get(key) {
            Some(v) => header_value_text(v.as_slice()),
            None => None,
        }
    }

    /// The raw value of header `key`, when present and readable as text.
    fn get_text_bytes(&self, key: &str) -> (r: Option<&Vec<u8>>)
        ensures
            match r {
                Some(v) => text_value(*self, key@) == Some(v@),
                None => text_value(*self, key@) is None,
            },
    {
        match self.get(key) {
            Some(v) => {
                if header_value_text(v.as_slice()).is_some() {
                    Some(v)
                } else {
                    None
                }
            },
            None => None,
        }
    }

    /// The `grpc-message` header, empty without one.
    pub fn grpc_message(&self) -> (r: String)
        ensures
            r@ == message_of(*self),
    {
        match self.get_grpc_header("grpc-message") {
            Some(s) => s,
            None => String::new(),
        }
    }

    /// The `grpc-status` header as a status code number, `2` (Unknown) without one.
    pub fn grpc_status(&self) -> (r: u32)
        ensures
            r == status_of(*self),
    {
        match self.get_text_bytes("grpc-status") {
            Some(v) => code_from_bytes(v.as_slice()),
            None => 2,
        }
    }

    /// The `grpc-status-details-bin` header, base64-decoded; empty without one
    /// or when it is not valid base64.
    pub fn grpc_status_details(&self) -> (r: Vec<u8>)
        requires
            self.wf(),
        ensures
            r@ == details_of(*self),
    {
        match self.get_text_bytes("grpc-status-details-bin") {
            Some(v) => {
                proof {
                    lemma_first_value_in(self.fields@, "grpc-status-details-bin"@);
                }
                details_or_empty(base64_decode(v.as_slice()))
            },
            None => Vec::new(),
        }
    }

    /// Whether `wf` holds.
    pub fn is_wf(&self) -> (r: bool)
        ensures
            r == self.wf(),
    {
        let mut i: usize = 0;
        while i < self.fields.len()
            invariant
                i <= self.fields@.len(),
                forall|j: int|
                    0 <= j < i ==> (#[trigger] self.fields@[j]).value@.len() <= isize::MAX,
            decreases self.fields@.len() - i,
        {
            if self.fields[i].value.len() > isize::MAX as usize {
                return false;
            }
            i = i + 1;
        }
        true
    }

    /// The `grpc-timeout` header; `None` without one or when it does not parse.
    pub fn grpc_timeout(&self) -> (r: Option<Timeout>)
        ensures
            r == timeout_of(*self),
    {
        match self.get_grpc_header("grpc-timeout") {
            Some(s) => parse_grpc_timeout(s.as_str()),
            None => None,
        }
    }
}

/// A value found by name is the value of one of the fields.
pub proof fn lemma_first_value_in(fields: Seq<HeaderField>, name: Seq<char>)
    ensures
        first_value(fields, name) matches Some(v) ==> exists|i: int|
            0 <= i < fields.len() && #[trigger] fields[i].value@ == v,
    decreases fields.len(),
{
    if fields.len() > 0 && fields[0].name@ != name {
        lemma_first_value_in(fields.drop_first(), name);
        if let Some(v) = first_value(fields, name) {
            let j = choose|j: int| 0 <= j < fields.drop_first().len() && #[trigger] fields.drop_first()[j].value@ == v;
            assert(fields[j + 1].value@ == v);
        }
    }
}

/// A copy of `bytes`.
fn copy_bytes(bytes: &Vec<u8>) -> (r: Vec<u8>)
    ensures
        r@ == bytes@,
{
    let mut r: Vec<u8> = Vec::new();
    put_bytes(bytes.as_slice(), &mut r);
    assert(r@ =~= bytes@);
    r
}

/// The metadata to log for a header map: every field that is not reserved,
/// in order, as (key, value).
pub fn metadata(headers: &HeaderMap) -> (m: Metadata)
    ensures
        metadata_view(m) == kept_metadata(headers.fields@),
{
    let mut entry: Vec<MetadataEntry> = Vec::new();
    let mut i: usize = 0;
    while i < headers.fields.len()
        invariant
            i <= headers.fields@.len(),
            entry@.map_values(|e: MetadataEntry| (e.key@, e.value@)) == kept_metadata(
                headers.fields@.subrange(0, i as int),
            ),
        decreases headers.fields@.len() - i,
    {
        let field = &headers.fields[i];
        let ghost prefix = headers.fields@.subrange(0, i + 1);
        assert(prefix.drop_last() =~= headers.fields@.subrange(0, i as int));
        assert(prefix.last() == *field);
        if !is_reserved_header(field.name.as_str()) {
            let ghost before = entry@;
            entry.push(MetadataEntry { key: field.name.clone(), value: copy_bytes(&field.value) });
            assert(entry@.map_values(|e: MetadataEntry| (e.key@, e.value@)) =~= before.map_values(
                |e: MetadataEntry| (e.key@, e.value@),
            ).push((field.name@, field.value@)));
        }
        i = i + 1;
    }
    assert(headers.fields@.subrange(0, i as int) =~= headers.fields@);
    Metadata { entry }
}

} // verus!
