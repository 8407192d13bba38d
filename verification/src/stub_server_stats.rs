//! Per-connection statistics of the demo echo server used by the tests.
//!
//! The server's socket loop lives outside the library; it feeds the byte
//! tallies in here and takes the periodic snapshot-and-reset and the
//! throughput arithmetic from here.

use vstd::prelude::*;
use crate::endpoint::Endpoint;

verus! {

/// Byte tallies of one stub-server connection.
#[derive(Clone, Copy, PartialEq, Eq, Debug)]
pub struct StubServerTcpConnectionStats {
    pub remote_address: Endpoint,
    pub is_alive: bool,
    pub bytes_read: usize,
    pub bytes_write: usize,
}

impl StubServerTcpConnectionStats {
    pub fn new(remote_address: &Endpoint) -> (r: StubServerTcpConnectionStats)
        ensures
            r == (StubServerTcpConnectionStats {
                remote_address: *remote_address,
                is_alive: true,
                bytes_read: 0,
                bytes_write: 0,
            }),
    {
        StubServerTcpConnectionStats {
            remote_address: *remote_address,
            is_alive: true,
            bytes_read: 0,
            bytes_write: 0,
        }
    }

    /// Adds the bytes one read moved, saturating at the tally's limit.
    pub fn record_read(&mut self, n: usize)
        ensures
            *final(self) == (StubServerTcpConnectionStats {
                bytes_read: if old(self).bytes_read + n <= usize::MAX {
                    (old(self).bytes_read + n) as usize
                } else {
                    usize::MAX
                },
                ..*old(self)
            }),
    {
        self.bytes_read = self.bytes_read.saturating_add(n);
    }

    /// Adds the bytes one write moved, saturating at the tally's limit.
    pub fn record_write(&mut self, n: usize)
        ensures
            *final(self) == (StubServerTcpConnectionStats {
                bytes_write: if old(self).bytes_write + n <= usize::MAX {
                    (old(self).bytes_write + n) as usize
                } else {
                    usize::MAX
                },
                ..*old(self)
            }),
    {
        self.bytes_write = self.bytes_write.saturating_add(n);
    }

    /// Takes a snapshot for the periodic report and resets the byte tallies,
    /// keeping the liveness flag and the remote endpoint.
    pub fn clone_and_clear_stats(&mut self) -> (r: StubServerTcpConnectionStats)
        ensures
            r == *old(self),
            *final(self) == (StubServerTcpConnectionStats {
                bytes_read: 0,
                bytes_write: 0,
                ..*old(self)
            }),
    {
        let stats = self.clone();
        self.clear_stats();
        stats
    }

    /// Resets the byte tallies.
    pub fn clear_stats(&mut self)
        ensures
            *final(self) == (StubServerTcpConnectionStats {
                bytes_read: 0,
                bytes_write: 0,
                ..*old(self)
            }),
    {
        self.bytes_write = 0;
        self.bytes_read = 0;
    }
}

/// The throughput one report interval saw, in bits per second:
/// `bytes * 8 * 1000 / interval_ms`, computed without overflow.
pub fn throughput_bits_per_second(bytes: usize, report_interval_ms: u64) -> (r: u128)
    requires
        report_interval_ms > 0,
    ensures
        r == bytes * 8000 / (report_interval_ms as int),
{
    (bytes as u128) * 8000 / (report_interval_ms as u128)
}

} // verus!
