//! The log file: the errors of setting it up, and the cap on its size.

use vstd::prelude::*;

verus! {

/// An error of setting up logging, with the message of the error it wraps.
#[derive(Debug, Clone)]
pub enum Error {
    /// Opening, creating or moving a log file failed.
    Io(String),
    /// A logger was already installed.
    SetLog(String),
    /// The requested log level is not a level.
    ParseLevel(String),
}

impl Error {
    /// The message of the wrapped error, which the error shows as its own.
    pub fn message(&self) -> (r: String)
        ensures
            r@ == match *self {
                Error::Io(m) => m@,
                Error::SetLog(m) => m@,
                Error::ParseLevel(m) => m@,
            },
    {
        match self {
            Error::Io(m) => m.clone(),
            Error::SetLog(m) => m.clone(),
            Error::ParseLevel(m) => m.clone(),
        }
    }
}

/// The largest size the log file may reach, in bytes (50 MiB).
pub const MAX_LOG_FILE_SIZE: u64 = 52_428_800;

/// The size of the open log file, in bytes.
pub struct LogSize {
    current: u64,
}

impl LogSize {
    /// The bytes the log file holds.
    pub closed spec fn bytes(self) -> nat {
        self.current as nat
    }

    /// The size of a log file opened with `size` bytes in it.
    pub fn opened(size: u64) -> (r: LogSize)
        ensures
            r.bytes() == size,
    {
        LogSize { current: size }
    }

    /// Whether a write of `len` more bytes keeps the file within the cap; a write
    /// that does not is fatal.
    pub fn fits(&self, len: u64) -> (r: bool)
        ensures
            r == (self.bytes() + len <= MAX_LOG_FILE_SIZE),
    {
        len <= MAX_LOG_FILE_SIZE && self.current <= MAX_LOG_FILE_SIZE - len
    }

    /// Counts `written` bytes of a write of `len` bytes that fit; the file stays
    /// within the cap.
    pub fn record_written(&mut self, len: u64, written: u64)
        requires
            old(self).bytes() + len <= MAX_LOG_FILE_SIZE,
            written <= len,
        ensures
            final(self).bytes() == old(self).bytes() + written,
            final(self).bytes() <= MAX_LOG_FILE_SIZE,
    {
        self.current = self.current + written;
    }
}

} // verus!
