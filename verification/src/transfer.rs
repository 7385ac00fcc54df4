//! The File Downloader's decision logic for one file: the chunk loop as a
//! state machine. The shell reads the body stream, writes each chunk to
//! the open destination handle, and reports what happened; this machine
//! decides whether to keep reading and how the transfer ended.
//!
//! One asymmetry is deliberate: a local write failure stops the transfer
//! but the file still counts as completed, while a stream failure is
//! fatal to the whole install.

use vstd::prelude::*;

use crate::outcome::FileOutcome;

verus! {

/// What the shell observed while moving one chunk of the body.
#[derive(Clone, Debug, PartialEq, Eq)]
pub enum TransferEvent {
    /// A chunk of this many bytes arrived and was written in full.
    ChunkWritten(u64),
    /// A chunk arrived but writing it to the destination failed.
    WriteError(String),
    /// Reading the body stream failed after it had begun.
    StreamError(String),
    /// The body stream ended normally.
    StreamEnd,
}

/// What the shell should do next with this file's stream.
#[derive(Clone, Debug, PartialEq, Eq)]
pub enum TransferStep {
    /// Read the next item of the stream.
    KeepReading,
    /// The transfer is over, with this outcome.
    Done(FileOutcome),
}

/// The state of one file's transfer: how many bytes reached the
/// destination handle, whether a write error cut it short, and whether it
/// is still running.
pub struct FileTransfer {
    bytes_written: u64,
    write_failed: bool,
    active: bool,
}

impl FileTransfer {
    /// Bytes passed to the destination handle so far (saturating at the
    /// counter's maximum).
    pub closed spec fn bytes(self) -> u64 {
        self.bytes_written
    }

    /// A write error stopped this transfer early, so the file on disk may
    /// be truncated.
    pub closed spec fn cut_short(self) -> bool {
        self.write_failed
    }

    /// The transfer is still consuming the stream.
    pub closed spec fn running(self) -> bool {
        self.active
    }

    /// How many bytes were passed to the destination handle.
    pub fn bytes_so_far(&self) -> (r: u64)
        ensures
            r == self.bytes(),
    {
        self.bytes_written
    }

    /// Whether a write error stopped this transfer before the stream was
    /// exhausted, so the file on disk may be truncated.
    pub fn was_cut_short(&self) -> (r: bool)
        ensures
            r == self.cut_short(),
    {
        self.write_failed
    }

    /// A fresh transfer for a newly created destination file.
    pub fn new() -> (r: FileTransfer)
        ensures
            r.running(),
            r.bytes() == 0,
            !r.cut_short(),
    {
        FileTransfer { bytes_written: 0, write_failed: false, active: true }
    }

    /// Advance the transfer by one observation. While chunks are written
    /// the byte count accumulates and reading goes on; a write error ends
    /// the transfer as completed-but-cut-short; a stream error ends it
    /// with the fatal outcome carrying the message; the end of the stream
    /// ends it as completed.
    pub fn on_event(&mut self, ev: TransferEvent) -> (r: TransferStep)
        requires
            old(self).running(),
        ensures
            match ev {
                TransferEvent::ChunkWritten(n) => {
                    &&& final(self).running()
                    &&& final(self).bytes() == if old(self).bytes() + n <= u64::MAX {
                        old(self).bytes() + n
                    } else {
                        u64::MAX as int
                    }
                    &&& final(self).cut_short() == old(self).cut_short()
                    &&& r == TransferStep::KeepReading
                },
                TransferEvent::WriteError(m) => {
                    &&& !final(self).running()
                    &&& final(self).bytes() == old(self).bytes()
                    &&& final(self).cut_short()
                    &&& r == TransferStep::Done(FileOutcome::Completed)
                },
                TransferEvent::StreamError(m) => {
                    &&& !final(self).running()
                    &&& final(self).bytes() == old(self).bytes()
                    &&& final(self).cut_short() == old(self).cut_short()
                    &&& (r matches TransferStep::Done(o) && o matches FileOutcome::StreamFailed(
                        e,
                    ) && e == m)
                },
                TransferEvent::StreamEnd => {
                    &&& !final(self).running()
                    &&& final(self).bytes() == old(self).bytes()
                    &&& final(self).cut_short() == old(self).cut_short()
                    &&& r == TransferStep::Done(FileOutcome::Completed)
                },
            },
    {
        match ev {
            TransferEvent::ChunkWritten(n) => {
                if self.bytes_written <= u64::MAX - n {
                    self.bytes_written = self.bytes_written + n;
                } else {
                    self.bytes_written = u64::MAX;
                }
                TransferStep::KeepReading
            },
            TransferEvent::WriteError(_m) => {
                self.active = false;
                self.write_failed = true;
                TransferStep::Done(FileOutcome::Completed)
            },
            TransferEvent::StreamError(m) => {
                self.active = false;
                TransferStep::Done(FileOutcome::StreamFailed(m))
            },
            TransferEvent::StreamEnd => {
                self.active = false;
                TransferStep::Done(FileOutcome::Completed)
            },
        }
    }
}

} // verus!
