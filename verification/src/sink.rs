//! Where rendered bytes go: the standard output stream, buffered or not, or a
//! named file. Bytes for a buffered stream are kept here; a write that only
//! the operating system can perform is handed back as a `Pending` value.

use crate::text::push_all;
use vstd::prelude::*;

verus! {

/// How the standard output stream takes bytes.
#[derive(Clone, Copy, Debug, PartialEq, Eq, Structural)]
pub enum WriteMode {
    /// Bytes are written at once.
    Immediate,
    /// Bytes are kept in a buffer.
    Buffered,
}

/// The handle of the standard output stream.
#[derive(Clone, Debug, PartialEq, Eq)]
pub struct Stdout {
    pub mode: WriteMode,
    pub buffer: Vec<u8>,
}

/// The mathematical value of a `Stdout`.
pub struct StdoutView {
    pub mode: WriteMode,
    pub buffer: Seq<u8>,
}

/// An output destination.
#[derive(Clone, Debug, PartialEq, Eq)]
pub enum Output {
    /// The standard output stream.
    Stdout,
    /// The file of this name.
    File(String),
}

/// The mathematical value of an `Output`.
pub enum OutputView {
    Stdout,
    File(Seq<char>),
}

/// A write that is still to be performed by the caller.
#[derive(Clone, Debug, PartialEq, Eq)]
pub enum Pending {
    /// Nothing is left to do.
    Nothing,
    /// These bytes go to the process's standard output.
    Stdout(Vec<u8>),
    /// These bytes become the content of the file of this name.
    File(String, Vec<u8>),
}

/// The mathematical value of a `Pending`.
pub enum PendingView {
    Nothing,
    Stdout(Seq<u8>),
    File(Seq<char>, Seq<u8>),
}

impl View for Stdout {
    type V = StdoutView;

    open spec fn view(&self) -> StdoutView {
        StdoutView { mode: self.mode, buffer: self.buffer@ }
    }
}

impl View for Output {
    type V = OutputView;

    open spec fn view(&self) -> OutputView {
        match self {
            Output::Stdout => OutputView::Stdout,
            Output::File(name) => OutputView::File(name@),
        }
    }
}

impl View for Pending {
    type V = PendingView;

    open spec fn view(&self) -> PendingView {
        match self {
            Pending::Nothing => PendingView::Nothing,
            Pending::Stdout(bytes) => PendingView::Stdout(bytes@),
            Pending::File(name, bytes) => PendingView::File(name@, bytes@),
        }
    }
}

impl StdoutView {
    /// The stream and the pending write after `bytes` are written to it: a
    /// buffered stream keeps them at the end of its buffer; an immediate one
    /// stays as it is and the bytes are pending.
    pub open spec fn written(self, bytes: Seq<u8>) -> (StdoutView, PendingView) {
        match self.mode {
            WriteMode::Buffered => (
                StdoutView { mode: self.mode, buffer: self.buffer + bytes },
                PendingView::Nothing,
            ),
            WriteMode::Immediate => (self, PendingView::Stdout(bytes)),
        }
    }
}

impl OutputView {
    /// The stream and the pending write after `bytes` are written to this
    /// destination. A file leaves the stream as it is.
    pub open spec fn written(self, stdout: StdoutView, bytes: Seq<u8>) -> (StdoutView, PendingView) {
        match self {
            OutputView::Stdout => stdout.written(bytes),
            OutputView::File(name) => (stdout, PendingView::File(name, bytes)),
        }
    }
}

impl Stdout {
    /// A stream in the given mode with an empty buffer.
    pub fn new(mode: WriteMode) -> (s: Stdout)
        ensures
            s@ == (StdoutView { mode, buffer: Seq::empty() }),
    {
        Stdout { mode, buffer: Vec::new() }
    }

    /// Writes `bytes` to the stream.
    pub fn write_all(&mut self, bytes: &[u8]) -> (pending: Pending)
        ensures
            (final(self)@, pending@) == old(self)@.written(bytes@),
    {
        match self.mode {
            WriteMode::Buffered => {
                push_all(&mut self.buffer, bytes);
                Pending::Nothing
            },
            WriteMode::Immediate => {
                let mut copy: Vec<u8> = Vec::new();
                push_all(&mut copy, bytes);
                assert(copy@ =~= bytes@);
                Pending::Stdout(copy)
            },
        }
    }

    /// The bytes kept so far.
    pub fn buffer(&self) -> (b: &[u8])
        ensures
            b@ == self@.buffer,
    {
        self.buffer.as_slice()
    }
}

impl Output {
    /// Writes `bytes` to this destination, in one write.
    pub fn write(&self, bytes: &[u8], stdout: &mut Stdout) -> (pending: Pending)
        ensures
            (final(stdout)@, pending@) == self@.written(old(stdout)@, bytes@),
    {
        match self {
            Output::Stdout => stdout.write_all(bytes),
            Output::File(name) => {
                let mut copy: Vec<u8> = Vec::new();
                push_all(&mut copy, bytes);
                assert(copy@ =~= bytes@);
                Pending::File(name.clone(), copy)
            },
        }
    }
}

} // verus!
