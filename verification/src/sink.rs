//! Metric sink: the process's last-known moisture reading. It is initialized
//! to a fixed default at startup, overwritten on every successful exchange,
//! and only read by the metrics endpoint. A failed exchange leaves the stored
//! reading unchanged, so a stale value keeps being served.

use vstd::prelude::*;
use crate::codec::{validate_spec, validate_and_extract, FrameError};

verus! {

/// The reading served before any successful exchange has occurred.
pub const DEFAULT_READING: u8 = 255;

/// Stores the latest moisture reading.
pub struct MetricSink {
    /// The last-known reading, in the one-byte range the sensor reports.
    pub reading: u8,
}

impl MetricSink {
    /// Create a sink holding the startup default reading.
    pub fn new() -> (sink: MetricSink)
        ensures
            sink.reading == DEFAULT_READING,
    {
        MetricSink { reading: DEFAULT_READING }
    }

    /// Overwrite the stored reading.
    pub fn set(&mut self, value: u8)
        ensures
            final(self).reading == value,
    {
        self.reading = value;
    }

    /// Return the current reading.
    pub fn snapshot(&self) -> (r: u8)
        ensures
            r == self.reading,
    {
        self.reading
    }

    /// Validate a response frame and, only on success, store the extracted
    /// reading. A checksum mismatch or a truncated frame leaves the previously
    /// stored reading unchanged, and the error is returned to the caller.
    pub fn record_response(&mut self, response: &[u8]) -> (r: Result<u8, FrameError>)
        ensures
            r == validate_spec(response@),
            r is Ok ==> final(self).reading == r->Ok_0,
            r is Err ==> *final(self) == *old(self),
    {
        match validate_and_extract(response) {
            Ok(reading) => {
                self.set(reading);
                Ok(reading)
            },
            Err(e) => Err(e),
        }
    }
}

} // verus!
