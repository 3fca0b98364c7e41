//! Protocol driver for a serial fingerprint reader.
//!
//! The reader is driven over a serial line by a small binary protocol:
//! a command is a 2-byte frame `[opcode, argument]`, and the device answers
//! with a 2-byte response `[status, data]`. This crate holds the verified
//! core of that driver: frame construction, response decoding, the error
//! taxonomy, the per-read decisions of the timeout-retry poll loop, and the
//! startup state machine. The unverifiable edges (the physical serial line,
//! the blocking retry loop, the boot delay) live in the surrounding
//! application, which drives the decision functions defined here.

pub mod models;
pub mod port;
