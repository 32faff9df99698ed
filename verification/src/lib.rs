//! A minimal greeting library: a pure greeter that maps an optional name to
//! a greeting line, the subcommand dispatch rule of the command-line front
//! end, and the per-request decision logic of the greeting web server.
//!
//! Everything here is pure computation with a full functional contract; the
//! process edges (argument intake, the TCP listener, logging and metrics
//! plumbing) live in the surrounding binary.

pub mod cli;
pub mod greeting;
pub mod server;
