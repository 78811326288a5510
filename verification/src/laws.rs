//! Properties of the library as a whole.
use vstd::prelude::*;
use crate::call::{describes, message_of_frame, LogEntry};
use crate::headers::{kept_metadata, reserved_header, timeout_of, HeaderField, HeaderMap};
use crate::predicate::{NoReflection, Predicate};
use crate::proto::{Message, Payload};
use crate::middleware::{forward_next, ForwardAction, ForwardEvent, ForwardState};
use crate::sink::framed_entry;
use crate::encode::entry_bytes;
use crate::proto::GrpcLogEntry;
use crate::timeout::{parse_u64, timeout_value};
use vstd::arithmetic::div_mod::lemma_fundamental_div_mod_converse;
use crate::wire::{be_u32, be_u32_value};

verus! {

/// The four-byte prefix of a framed entry reads back, most significant byte
/// first, as the length of the entry's encoding whenever that length is below
/// 2^32, and the encoding follows it.
pub proof fn law_frame_prefix_is_length(data: GrpcLogEntry)
    requires
        entry_bytes(data).len() < 0x1_0000_0000,
    ensures
        be_u32_value(framed_entry(data).take(4)) == entry_bytes(data).len(),
        framed_entry(data).skip(4) == entry_bytes(data),
{
    let n = entry_bytes(data).len() as u32;
    lemma_be_u32_reads_back(n);
    assert(framed_entry(data).take(4) =~= be_u32(n));
    assert(framed_entry(data).skip(4) =~= entry_bytes(data));
}

/// Four big-endian bytes read back as the number they were made from.
pub proof fn lemma_be_u32_reads_back(v: u32)
    ensures
        be_u32_value(be_u32(v)) == v,
{
    assert(v / 16777216 < 256 && (v / 65536) % 256 < 256 && (v / 256) % 256 < 256 && v % 256 < 256)
        by (bit_vector);
    assert(v == (v / 16777216) * 16777216 + ((v / 65536) % 256) * 65536 + ((v / 256) % 256) * 256 + v % 256)
        by (bit_vector);
}

/// No logged metadata entry has a reserved name, and every entry is one of
/// the header fields.
pub proof fn law_reserved_headers_never_logged(fields: Seq<HeaderField>)
    ensures
        forall|i: int|
            0 <= i < kept_metadata(fields).len() ==> !reserved_header(
                (#[trigger] kept_metadata(fields)[i]).0,
            ) && exists|j: int|
                0 <= j < fields.len() && fields[j].name@ == kept_metadata(fields)[i].0
                    && fields[j].value@ == kept_metadata(fields)[i].1,
    decreases fields.len(),
{
    if fields.len() > 0 {
        law_reserved_headers_never_logged(fields.drop_last());
        let rest = kept_metadata(fields.drop_last());
        assert forall|i: int| 0 <= i < kept_metadata(fields).len() implies !reserved_header(
            (#[trigger] kept_metadata(fields)[i]).0,
        ) && exists|j: int|
            0 <= j < fields.len() && fields[j].name@ == kept_metadata(fields)[i].0
                && fields[j].value@ == kept_metadata(fields)[i].1 by {
            if i < rest.len() {
                assert(kept_metadata(fields)[i] == rest[i]);
                let j = choose|j: int|
                    0 <= j < fields.drop_last().len() && fields.drop_last()[j].name@ == rest[i].0
                        && fields.drop_last()[j].value@ == rest[i].1;
                assert(fields[j] == fields.drop_last()[j]);
            } else {
                assert(fields[fields.len() - 1] == fields.last());
            }
        }
    }
}

/// The total time a timeout value stands for is its amount times its unit,
/// and the nanoseconds stay below one second.
pub proof fn law_timeout_is_amount_times_unit(s: Seq<char>)
    requires
        s.len() > 0,
        timeout_value(s) is Some,
    ensures
        ({
            let t = timeout_value(s).unwrap();
            let v = parse_u64(s.drop_last()).unwrap();
            &&& t.nanos < 1000000000
            &&& t.secs * 1000000000 + t.nanos == v * if s.last() == 'H' {
                3600000000000int
            } else if s.last() == 'M' {
                60000000000int
            } else if s.last() == 'S' {
                1000000000int
            } else if s.last() == 'm' {
                1000000int
            } else if s.last() == 'u' {
                1000int
            } else {
                1int
            }
        }),
{
    let t = timeout_value(s).unwrap();
    let v = parse_u64(s.drop_last()).unwrap();
    let u = s.last();
    if u == 'H' {
        assert(t.secs == v * 3600);
        assert(t.secs * 1000000000 == v * 3600000000000) by (nonlinear_arith)
            requires t.secs == v * 3600;
    } else if u == 'M' {
        assert(t.secs * 1000000000 == v * 60000000000) by (nonlinear_arith)
            requires t.secs == v * 60;
    } else if u == 'S' {
    } else if u == 'm' {
        assert(t.secs * 1000000000 + t.nanos == v * 1000000) by (nonlinear_arith)
            requires t.secs == v / 1000, t.nanos == (v % 1000) * 1000000, v >= 0;
    } else if u == 'u' {
        assert(t.secs * 1000000000 + t.nanos == v * 1000) by (nonlinear_arith)
            requires t.secs == v / 1000000, t.nanos == (v % 1000000) * 1000, v >= 0;
    } else {
        assert(t.secs * 1000000000 + t.nanos == v) by (nonlinear_arith)
            requires t.secs == v / 1000000000, t.nanos == v % 1000000000, v >= 0;
    }
}

/// Neighbouring units agree: `t` hours read as `60t` minutes, `t` minutes as
/// `60t` seconds, `t` seconds as `1000t` milliseconds, `t` milliseconds as
/// `1000t` microseconds, and `t` microseconds as `1000t` nanoseconds
/// (including an amount of hours or minutes too large to read: neither reads).
pub proof fn law_timeout_units_agree(a: Seq<char>, b: Seq<char>, t: u64, coarse: char, fine: char)
    requires
        parse_u64(a) == Some(t),
        (coarse == 'H' && fine == 'M' && parse_u64(b) == Some((t * 60) as u64) && t * 60
            <= u64::MAX) || (coarse == 'M' && fine == 'S' && parse_u64(b) == Some((t * 60) as u64)
            && t * 60 <= u64::MAX) || (coarse == 'S' && fine == 'm' && parse_u64(b) == Some(
            (t * 1000) as u64,
        ) && t * 1000 <= u64::MAX) || (coarse == 'm' && fine == 'u' && parse_u64(b) == Some(
            (t * 1000) as u64,
        ) && t * 1000 <= u64::MAX) || (coarse == 'u' && fine == 'n' && parse_u64(b) == Some(
            (t * 1000) as u64,
        ) && t * 1000 <= u64::MAX),
    ensures
        timeout_value(a.push(coarse)) == timeout_value(b.push(fine)),
{
    assert(a.push(coarse).drop_last() =~= a);
    assert(b.push(fine).drop_last() =~= b);
    let q = t / 1000;
    let r = t % 1000;
    if coarse == 'm' {
        assert(t == q * 1000 + r);
        lemma_fundamental_div_mod_converse(t * 1000, 1000000, q as int, r * 1000);
    } else if coarse == 'u' {
        let q2 = t / 1000000;
        let r2 = t % 1000000;
        assert(t == q2 * 1000000 + r2);
        lemma_fundamental_div_mod_converse(t * 1000, 1000000000, q2 as int, r2 * 1000);
    } else if coarse == 'S' {
        lemma_fundamental_div_mod_converse(t * 1000, 1000, t as int, 0);
    }
}

/// Forwarding a request body: once done it stays done, a data frame is
/// logged exactly when it is not empty, and every failure aborts.
pub proof fn law_forwarding(state: ForwardState, event: ForwardEvent)
    ensures
        state == ForwardState::Done ==> forward_next(state, event) == (
            ForwardState::Done,
            ForwardAction::Finish,
        ),
        (forward_next(state, event).1 == ForwardAction::LogAndSend) <==> (state
            == ForwardState::ReadingData && (event matches ForwardEvent::Data { len } && len != 0)),
        state != ForwardState::Done && (event == ForwardEvent::ReadFailed || event
            == ForwardEvent::SendFailed) ==> forward_next(state, event) == (
            ForwardState::Done,
            ForwardAction::Abort,
        ),
{
}


/// A header name that is logged: not a transport header, and not a `grpc-`
/// header unless it is `grpc-trace-bin`.
pub open spec fn loggable_name(k: Seq<char>) -> bool {
    &&& (k == "grpc-trace-bin"@ || !"grpc-"@.is_prefix_of(k))
    &&& k != "te"@
    &&& k != "content-type"@
    &&& k != "content-length"@
    &&& k != "content-encoding"@
    &&& k != "user-agent"@
}

/// `grpc-trace-bin` is none of the transport headers.
proof fn lemma_transport_names_differ()
    ensures
        "grpc-trace-bin"@ != "te"@,
        "grpc-trace-bin"@ != "content-type"@,
        "grpc-trace-bin"@ != "content-length"@,
        "grpc-trace-bin"@ != "content-encoding"@,
        "grpc-trace-bin"@ != "user-agent"@,
{
    reveal_strlit("grpc-trace-bin");
    reveal_strlit("te");
    reveal_strlit("content-type");
    reveal_strlit("content-length");
    reveal_strlit("content-encoding");
    reveal_strlit("user-agent");
    assert("grpc-trace-bin"@.len() == 14);
    assert("te"@.len() == 2);
    assert("content-type"@.len() == 12);
    assert("content-length"@.len() == 14);
    assert("content-encoding"@.len() == 16);
    assert("user-agent"@.len() == 10);
    assert("grpc-trace-bin"@[0] != "content-length"@[0]);
}

/// The logged metadata holds exactly the fields with loggable names: no
/// entry has another name, and every field with a loggable name is logged.
pub proof fn law_logged_metadata_names(fields: Seq<HeaderField>)
    ensures
        forall|i: int|
            0 <= i < kept_metadata(fields).len() ==> loggable_name(
                (#[trigger] kept_metadata(fields)[i]).0,
            ),
        forall|j: int|
            0 <= j < fields.len() && loggable_name(#[trigger] fields[j].name@) ==> exists|i: int|
                0 <= i < kept_metadata(fields).len() && kept_metadata(fields)[i] == (
                    fields[j].name@,
                    fields[j].value@,
                ),
    decreases fields.len(),
{
    law_reserved_headers_never_logged(fields);
    assert forall|i: int| 0 <= i < kept_metadata(fields).len() implies loggable_name(
        (#[trigger] kept_metadata(fields)[i]).0,
    ) by {
        let k = kept_metadata(fields)[i].0;
        assert(!reserved_header(k));
        lemma_transport_names_differ();
    }
    if fields.len() > 0 {
        law_logged_metadata_names(fields.drop_last());
        let rest = kept_metadata(fields.drop_last());
        assert forall|j: int|
            0 <= j < fields.len() && loggable_name(#[trigger] fields[j].name@) implies exists|i: int|
                0 <= i < kept_metadata(fields).len() && kept_metadata(fields)[i] == (
                    fields[j].name@,
                    fields[j].value@,
                ) by {
            if j == fields.len() - 1 {
                assert(!reserved_header(fields[j].name@));
                assert(fields.last() == fields[j]);
                let i = kept_metadata(fields).len() - 1;
                assert(kept_metadata(fields)[i] == (fields[j].name@, fields[j].value@));
            } else {
                assert(fields.drop_last()[j] == fields[j]);
                assert(loggable_name(fields.drop_last()[j].name@));
                let i = choose|i: int|
                    0 <= i < rest.len() && rest[i] == (
                        fields.drop_last()[j].name@,
                        fields.drop_last()[j].value@,
                    );
                assert(kept_metadata(fields)[i] == rest[i]);
            }
        }
    }
}

/// A message entry holds the frame's bytes after its five-byte prefix, all
/// of them and whatever the prefix says, and their number.
pub proof fn law_message_is_rest_of_frame(m: Message, frame: Seq<u8>)
    requires
        message_of_frame(m, frame),
    ensures
        frame.len() > 5 ==> m.data@.len() == frame.len() - 5,
        frame.len() <= 5 ==> m.data@.len() == 0,
        forall|i: int| 0 <= i < m.data@.len() ==> m.data@[i] == frame[i + 5],
        m.data@.len() < 0x1_0000_0000 ==> m.length == m.data@.len(),
{
}

/// A client header logs the request's timeout whenever its `grpc-timeout`
/// header reads as one: the same nanoseconds, and the same seconds (up to
/// `i64::MAX`, where they saturate); without one it logs none.
pub proof fn law_timeout_is_logged(
    e: GrpcLogEntry,
    method: &str,
    authority: Option<&str>,
    headers: &HeaderMap,
)
    requires
        describes(e, LogEntry::ClientHeaders { method, authority, headers }),
    ensures
        e.payload matches Some(Payload::ClientHeader(h)) && match timeout_of(*headers) {
            Some(t) => h.timeout matches Some(d) && d.nanos == t.nanos && (t.secs <= i64::MAX
                ==> d.seconds == t.secs) && (t.secs > i64::MAX ==> d.seconds == i64::MAX),
            None => h.timeout is None,
        },
{
}

/// `NoReflection` logs a call exactly when its method path does not begin
/// with `/grpc.reflection.v1alpha.ServerReflection` (so health checks and
/// every other service are logged).
pub proof fn law_no_reflection_selects(method: &str, headers: &HeaderMap, logged: bool)
    requires
        call_ensures(NoReflection::should_log, (&NoReflection, method, headers), logged),
    ensures
        logged <==> !"/grpc.reflection.v1alpha.ServerReflection"@.is_prefix_of(method@),
{
}

} // verus!
