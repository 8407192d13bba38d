//! Verified core of a TCP latency probing tool.
//!
//! The library holds the data model and the logic of the prober: the probe
//! result record and its console / JSON / CSV formatters, the source-port
//! picker, the latency-bucket aggregator, the probe-outcome interpretation of
//! the TCP ping client, and the worker's result-emission decision. Socket and
//! timer work lives outside the library and hands plain values in.

pub mod endpoint;
pub mod latency_bucket_logger;
pub mod ping_client_tcp;
pub mod ping_error;
pub mod ping_result;
pub mod ping_worker;
pub mod port_picker;
pub mod strfmt;
pub mod stub_server_stats;
pub mod test_samples;
pub mod timestamp;
