//! Verified core of a game-server lifecycle daemon.
//!
//! The library covers the logic of the daemon that is worth proving: the
//! resolution of a server's filesystem paths, the construction of the
//! command lines for the installer and the server binary, the model of the
//! append-only log a running process is drained into, and the state machine
//! that drives one lifecycle operation (install/update or launch) from its
//! request to completion or to a fatal failure.  The surrounding process,
//! file and HTTP plumbing lives outside the library and only follows the
//! decisions made here.

pub mod config;
pub mod errors;
pub mod lifecycle;
pub mod logsink;
pub mod modpack;
pub mod numfmt;
pub mod requests;
pub mod server;
pub mod text;
