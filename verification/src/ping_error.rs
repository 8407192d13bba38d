//! The failure taxonomy of a probe, as a tagged union over plain values.
//!
//! A probe either fails while setting up the local socket (preparation) or
//! while interacting with the remote side (ping); a timeout is an expected
//! outcome and is not an error. The OS error kind is kept beside the message
//! so that callers can tell the cases apart without string matching.

use vstd::prelude::*;

verus! {

/// The OS error kinds the probing engine distinguishes.
#[derive(Clone, Copy, PartialEq, Eq, Structural, Debug)]
pub enum IoErrorKind {
    TimedOut,
    ConnectionRefused,
    ConnectionAborted,
    ConnectionReset,
    AddrInUse,
    AddrNotAvailable,
    WouldBlock,
    Other,
}

/// An OS-level failure: its kind and its display message.
#[derive(Debug)]
pub struct IoErrorDetail {
    pub kind: IoErrorKind,
    pub message: String,
}

impl IoErrorDetail {
    pub fn new(kind: IoErrorKind, message: String) -> (r: IoErrorDetail)
        ensures
            r.kind == kind,
            r.message@ == message@,
    {
        IoErrorDetail { kind, message }
    }
}

/// Why a probe failed: local socket setup, or the remote interaction.
#[derive(Debug)]
pub enum PingClientError {
    PreparationFailed(IoErrorDetail),
    PingFailed(IoErrorDetail),
}

/// A non-fatal post-connect anomaly; kept beside a successful probe.
#[derive(Debug)]
pub enum PingClientWarning {
    DisconnectFailed(IoErrorDetail),
}

impl PingClientError {
    /// The OS error kind underneath either variant.
    pub open spec fn spec_kind(&self) -> IoErrorKind {
        match self {
            PingClientError::PreparationFailed(d) => d.kind,
            PingClientError::PingFailed(d) => d.kind,
        }
    }

    /// The underlying message, without the variant prefix.
    pub open spec fn spec_message(&self) -> Seq<char> {
        match self {
            PingClientError::PreparationFailed(d) => d.message@,
            PingClientError::PingFailed(d) => d.message@,
        }
    }

    /// The full display of the error: the variant as a prefix, then the
    /// underlying message.
    pub open spec fn spec_display(&self) -> Seq<char> {
        match self {
            PingClientError::PreparationFailed(d) => "preparation failed: "@ + d.message@,
            PingClientError::PingFailed(d) => "ping failed: "@ + d.message@,
        }
    }

    /// The OS error kind underneath either variant.
    pub fn kind(&self) -> (k: IoErrorKind)
        ensures
            k == self.spec_kind(),
    {
        match self {
            PingClientError::PreparationFailed(d) => d.kind,
            PingClientError::PingFailed(d) => d.kind,
        }
    }

    /// The underlying message, without the variant prefix.
    pub fn message(&self) -> (s: &String)
        ensures
            s@ == self.spec_message(),
    {
        match self {
            PingClientError::PreparationFailed(d) => &d.message,
            PingClientError::PingFailed(d) => &d.message,
        }
    }

    /// Renders the error with its variant prefix, as sinks record it.
    pub fn to_display_string(&self) -> (s: String)
        ensures
            s@ == self.spec_display(),
    {
        proof {
            reveal_strlit("preparation failed: ");
            reveal_strlit("ping failed: ");
        }
        match self {
            PingClientError::PreparationFailed(d) => {
                let mut s = String::from_str("preparation failed: ");
                s.append(d.message.as_str());
                s
            },
            PingClientError::PingFailed(d) => {
                let mut s = String::from_str("ping failed: ");
                s.append(d.message.as_str());
                s
            },
        }
    }
}

} // verus!
