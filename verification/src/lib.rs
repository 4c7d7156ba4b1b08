//! On-board control server core for a hyperloop-style pod.
//!
//! The library holds the verified heart of the server: the pod-state
//! machine, the CAN frame codec, the inter-task message protocol, the
//! per-task step functions (operator session, CAN bus, telemetry
//! aggregator, TCP handshake) and the command-line configuration
//! parser.  Socket I/O and thread plumbing live outside the library
//! and drive these functions.
//!
//! Telemetry values are IEEE-754 single-precision floats on the wire;
//! the library carries each one as its raw 32-bit little-endian bit
//! pattern (`u32`), and callers convert with `f32::from_bits` at the
//! edge.

pub mod pod_state;
pub mod ack_nack;
pub mod fault_report;
pub mod can_command;
pub mod can_frame;
pub mod messages;
pub mod pod_data;
pub mod session;
pub mod can_bus;
pub mod tcp;
pub mod config;
pub mod error;
