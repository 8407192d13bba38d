//! The TCP probe client: its configuration, and the verified meaning of one
//! probe.
//!
//! The socket calls themselves (create, bind, connect with a deadline, the
//! optional half-close drain) happen outside the library; they hand back a
//! plain observation of what the transport did, and the functions here decide
//! what the probe's outcome is: a timeout is success with `is_timed_out` set,
//! any other connect error is a ping failure, and a failure while the local
//! socket was being set up is a preparation failure.

use vstd::prelude::*;
use crate::endpoint::Endpoint;
use crate::ping_error::{IoErrorDetail, PingClientError, PingClientWarning};

verus! {

/// Immutable probe parameters. Durations are in microseconds. The TLS fields
/// are carried for protocol variants that need them; the TCP client reads
/// only the timeout, the TTL and the disconnect flag.
#[derive(Debug)]
pub struct PingClientConfig {
    pub wait_timeout_us: u64,
    pub time_to_live: Option<u32>,
    pub check_disconnect: bool,
    pub server_name: Option<String>,
    pub log_tls_key: bool,
    pub alpn_protocol: Option<String>,
    pub use_timer_rtt: bool,
}

/// What one probe reported: the local endpoint actually used (when the
/// transport could report one), the measured round-trip time in microseconds,
/// whether the transport timed out, and an optional soft warning.
#[derive(Debug)]
pub struct PingClientPingResultDetails {
    pub actual_local_addr: Option<Endpoint>,
    pub round_trip_time_us: u64,
    pub is_timed_out: bool,
    pub warning: Option<PingClientWarning>,
}

impl PingClientPingResultDetails {
    pub fn new(
        actual_local_addr: Option<Endpoint>,
        round_trip_time_us: u64,
        is_timed_out: bool,
        warning: Option<PingClientWarning>,
    ) -> (r: PingClientPingResultDetails)
        ensures
            r.actual_local_addr == actual_local_addr,
            r.round_trip_time_us == round_trip_time_us,
            r.is_timed_out == is_timed_out,
            r.warning == warning,
    {
        PingClientPingResultDetails { actual_local_addr, round_trip_time_us, is_timed_out, warning }
    }
}

/// A failed probe: why it failed, together with the measured round-trip
/// time. A ping failure keeps the time the connect attempt took (a refused
/// connect still measures the remote's answer); a preparation failure never
/// reached the connect, so its time is zero.
#[derive(Debug)]
pub struct PingClientFailure {
    pub error: PingClientError,
    pub round_trip_time_us: u64,
}

/// What the transport did for one probe, as the socket layer observed it.
#[derive(Debug)]
pub enum ProbeObservation {
    /// Local socket setup (create, bind, an option) failed before connecting.
    PreparationFailed(IoErrorDetail),
    /// The connect did not finish within the wait timeout.
    ConnectTimedOut,
    /// The connect failed with an OS error other than a timeout.
    ConnectFailed(IoErrorDetail),
    /// The connect succeeded.
    Connected,
}

/// The socket options to apply while preparing the probe socket, decided
/// from the configuration alone.
#[derive(Debug)]
pub struct SocketSetupPlan {
    pub receive_timeout_us: u64,
    pub linger_zero: bool,
    pub time_to_live: Option<u32>,
}

/// The TCP probe client: the configuration a worker probes with.
pub struct PingClientTcp {
    pub config: PingClientConfig,
}

impl PingClientTcp {
    pub fn new(config: &PingClientConfig) -> (r: PingClientTcp)
        ensures
            r.config == *config,
    {
        let cloned = PingClientConfig {
            wait_timeout_us: config.wait_timeout_us,
            time_to_live: config.time_to_live,
            check_disconnect: config.check_disconnect,
            server_name: match &config.server_name {
                Some(s) => Some(s.clone()),
                None => None,
            },
            log_tls_key: config.log_tls_key,
            alpn_protocol: match &config.alpn_protocol {
                Some(s) => Some(s.clone()),
                None => None,
            },
            use_timer_rtt: config.use_timer_rtt,
        };
        proof {
            assert(cloned == *config);
        }
        PingClientTcp { config: cloned }
    }

    /// The constant protocol tag of this client.
    pub fn protocol(&self) -> (r: &'static str)
        ensures
            r@ == "TCP"@,
    {
        "TCP"
    }

    /// The socket options the probe socket is prepared with: the receive
    /// timeout mirrors the wait timeout, lingering is cut to zero exactly
    /// when the disconnect check is off (so closing resets rather than
    /// lingering in TIME_WAIT), and the TTL is applied when configured.
    pub fn socket_setup_plan(&self) -> (r: SocketSetupPlan)
        ensures
            r.receive_timeout_us == self.config.wait_timeout_us,
            r.linger_zero == !self.config.check_disconnect,
            r.time_to_live == self.config.time_to_live,
    {
        SocketSetupPlan {
            receive_timeout_us: self.config.wait_timeout_us,
            linger_zero: !self.config.check_disconnect,
            time_to_live: self.config.time_to_live,
        }
    }

    /// Decides the outcome of one probe from what the transport observed.
    ///
    /// A preparation failure surfaces as `PreparationFailed` with a zero
    /// round-trip time (the connect never ran); a timeout is a successful
    /// result with `is_timed_out` set and no local endpoint; any other
    /// connect error is `PingFailed`, still carrying the measured round-trip
    /// time; a completed connect keeps the reported local endpoint (when the
    /// transport could resolve one), the measured round-trip time and the
    /// disconnect warning, if any.
    pub fn interpret_probe(
        &self,
        observation: ProbeObservation,
        rtt_us: u64,
        local_addr: Option<Endpoint>,
        warning: Option<PingClientWarning>,
    ) -> (r: Result<PingClientPingResultDetails, PingClientFailure>)
        ensures
            match observation {
                ProbeObservation::PreparationFailed(d) => r == Err::<
                    PingClientPingResultDetails,
                    PingClientFailure,
                >(
                    PingClientFailure {
                        error: PingClientError::PreparationFailed(d),
                        round_trip_time_us: 0,
                    },
                ),
                ProbeObservation::ConnectTimedOut => r == Ok::<
                    PingClientPingResultDetails,
                    PingClientFailure,
                >(
                    PingClientPingResultDetails {
                        actual_local_addr: None,
                        round_trip_time_us: rtt_us,
                        is_timed_out: true,
                        warning: None,
                    },
                ),
                ProbeObservation::ConnectFailed(d) => r == Err::<
                    PingClientPingResultDetails,
                    PingClientFailure,
                >(
                    PingClientFailure {
                        error: PingClientError::PingFailed(d),
                        round_trip_time_us: rtt_us,
                    },
                ),
                ProbeObservation::Connected => r == Ok::<
                    PingClientPingResultDetails,
                    PingClientFailure,
                >(
                    PingClientPingResultDetails {
                        actual_local_addr: local_addr,
                        round_trip_time_us: rtt_us,
                        is_timed_out: false,
                        warning,
                    },
                ),
            },
    {
        match observation {
            ProbeObservation::PreparationFailed(d) => Err(
                PingClientFailure { error: PingClientError::PreparationFailed(d), round_trip_time_us: 0 },
            ),
            ProbeObservation::ConnectTimedOut => Ok(
                PingClientPingResultDetails::new(None, rtt_us, true, None),
            ),
            ProbeObservation::ConnectFailed(d) => Err(
                PingClientFailure { error: PingClientError::PingFailed(d), round_trip_time_us: rtt_us },
            ),
            ProbeObservation::Connected => Ok(
                PingClientPingResultDetails::new(local_addr, rtt_us, false, warning),
            ),
        }
    }
}

} // verus!
