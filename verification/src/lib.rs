//! Control- and data-routing layer of a real-time software-radio pipeline.
//!
//! The crate models and verifies the parts of the pipeline that decide where
//! data goes: the stream-port accounting contract every processing stage must
//! honour, the dynamic stream selector that reroutes sample flow at runtime
//! under a configurable loss policy, the companion message router that steers
//! transmit payloads to one of several protocol encoders, the chunk accounting
//! of the FFT-based dual-channel phase comparator, the endpoint state machine
//! of the UDP bridge, and the time-series plot handle that buffers the
//! comparator's output for display.
//!
//! Floating-point signal processing (the FFT itself, phase arithmetic) and all
//! I/O (sockets, channels, the GUI) live outside this crate; the functions
//! here take and return plain values and carry contracts that pin down every
//! routing and accounting decision.

pub mod bridge;
pub mod phase;
pub mod pmt;
pub mod port;
pub mod router;
pub mod selector;
pub mod timeseries;
