//! The decisions of a small readiness-driven TCP server, as pure state machines.
//!
//! A leader accepts connections and hands each one to a task of its own. A task
//! waits until its socket is ready, attempts one non-blocking operation, prints
//! what it read, and waits again. Nothing here touches a socket: the caller
//! performs each [`connection::Request`], reports what came of it as an
//! [`connection::Event`], and prints the lines it is handed.

pub mod connection;
pub mod leader;
pub mod server;
pub mod text;
pub mod trace;
