//! Where log entries go: the `Sink` trait, a sink that prints entries, and a
//! sink that writes them framed to a writer.
use std::io::Write;
use std::sync::{Arc, Mutex};
use vstd::prelude::*;
use crate::encode::entry_bytes;
use crate::proto::GrpcLogEntry;
use crate::wire::{be_u32, frame};

verus! {

#[verifier::external_type_specification]
#[verifier::external_body]
pub struct ExIoError(std::io::Error);

#[verifier::external_type_specification]
#[verifier::external_body]
#[verifier::reject_recursive_types(T)]
pub struct ExMutex<T: ?Sized>(std::sync::Mutex<T>);

/// `Arc::clone`: another handle to the same value.
#[verifier::external_body]
pub(crate) fn share<T>(a: &Arc<T>) -> (r: Arc<T>)
    ensures
        r == *a,
{
    Arc::clone(a)
}

/// `Mutex::new`; nothing is stated of the lock, whose contents are not visible.
#[verifier::external_body]
fn new_mutex<T>(value: T) -> Mutex<T> {
    Mutex::new(value)
}

/// Prints `grpc binlog sink error: {e:?}` on standard error.
#[verifier::external_body]
fn report_io_error(e: std::io::Error) {
    let _ = writeln!(std::io::stderr(), "grpc binlog sink error: {:?}", e);
}

/// Prints the debug form of an entry on standard error.
#[verifier::external_body]
fn print_entry(data: &GrpcLogEntry) {
    let _ = writeln!(std::io::stderr(), "{:?}", data);
}

/// Receives a `GrpcLogEntry` for every gRPC frame that a logger captures.
/// The sink owns the entry; it is encouraged to process it without blocking
/// the logger, and handles (e.g. logs) its own errors.
pub trait Sink: Clone + Send + Sync {
    fn write(&self, data: GrpcLogEntry);
}

/// A sink that prints every entry on standard error.
#[derive(Default, Clone, Copy, Debug)]
pub struct DebugSink;

impl Sink for DebugSink {
    fn write(&self, data: GrpcLogEntry) {
        print_entry(&data);
    }
}

/// Handles the I/O errors of a sink.
pub trait IOErrorLogger: Send + Sync + Clone {
    fn log_error(&self, e: std::io::Error);
}

/// Prints I/O errors on standard error.
#[derive(Debug, Clone, Copy)]
pub struct StderrIOErrorLogger;

impl IOErrorLogger for StderrIOErrorLogger {
    fn log_error(&self, e: std::io::Error) {
        report_io_error(e);
    }
}

/// Writes log entries to a writer in the binary log framing of the gRPC
/// implementations: each entry's protocol-buffer encoding, preceded by its
/// length as four big-endian bytes. Clones share the writer.
#[verifier::reject_recursive_types(W)]
pub struct FileSink<W, E = StderrIOErrorLogger> {
    writer: Arc<Mutex<W>>,
    error_logger: E,
    target: Ghost<W>,
}

/// The bytes written for an entry: its encoding's length (low 32 bits) as four
/// big-endian bytes, then the encoding.
pub open spec fn framed_entry(data: GrpcLogEntry) -> Seq<u8> {
    be_u32(entry_bytes(data).len() as u32) + entry_bytes(data)
}

/// The bytes written for an entry (see `framed_entry`).
pub fn frame_log_entry(data: &GrpcLogEntry) -> (bytes: Vec<u8>)
    ensures
        bytes@ == framed_entry(*data),
{
    let encoded = data.encode_to_vec();
    frame(encoded.as_slice())
}

impl<W> FileSink<W, StderrIOErrorLogger> {
    /// A sink that writes to `writer` and reports errors on standard error.
    pub fn new(writer: W) -> (s: Self)
        ensures
            s.target() == writer,
            s.error_logger() == StderrIOErrorLogger,
    {
        let ghost target = writer;
        FileSink {
            writer: Arc::new(new_mutex(writer)),
            error_logger: StderrIOErrorLogger,
            target: Ghost(target),
        }
    }
}

impl<W, E> FileSink<W, E> {
    pub closed spec fn writer(&self) -> Arc<Mutex<W>> {
        self.writer
    }

    pub closed spec fn error_logger(&self) -> E {
        self.error_logger
    }

    /// The writer that the sink was made with and that its shared, locked
    /// writer holds (the lock's contents are not visible, so this is
    /// recorded when the sink is made and carried along).
    pub closed spec fn target(&self) -> W {
        self.target@
    }

    /// The shared writer.
    pub fn shared_writer(&self) -> (w: &Arc<Mutex<W>>)
        ensures
            *w == self.writer(),
    {
        &self.writer
    }

    /// The same sink, with another error logger.
    pub fn with_error_logger<E2>(self, error_logger: E2) -> (s: FileSink<W, E2>)
        ensures
            s.writer() == self.writer(),
            s.target() == self.target(),
            s.error_logger() == error_logger,
    {
        FileSink { writer: self.writer, error_logger, target: self.target }
    }
}

impl<W: Default, E: Default> Default for FileSink<W, E> {
    /// A sink that writes to a default writer, with a default error logger.
    fn default() -> (s: Self)
        ensures
            call_ensures(W::default, (), s.target()),
            call_ensures(E::default, (), s.error_logger()),
    {
        let writer = W::default();
        let ghost target = writer;
        FileSink {
            writer: Arc::new(new_mutex(writer)),
            error_logger: E::default(),
            target: Ghost(target),
        }
    }
}

impl<W, E: Clone> Clone for FileSink<W, E> {
    fn clone(&self) -> (s: Self)
        ensures
            s.writer() == self.writer(),
            s.target() == self.target(),
            cloned(self.error_logger(), s.error_logger()),
    {
        FileSink {
            writer: share(&self.writer),
            error_logger: self.error_logger.clone(),
            target: Ghost(self.target@),
        }
    }
}

} // verus!
