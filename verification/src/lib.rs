//! Core of a closed-loop fan speed controller for a USB-attached fan hub.
//!
//! The crate holds every decision the controller takes: how a processor
//! temperature becomes a duty cycle, how command frames are laid out and
//! responses decoded, which device and endpoints are used, and in which
//! order the bus operations are issued. It performs no I/O itself: each
//! component names the next operation to perform and takes its outcome
//! back as a plain value.

pub mod control;
pub mod discovery;
pub mod endpoint;
pub mod error;
pub mod protocol;
pub mod report;
pub mod session;
