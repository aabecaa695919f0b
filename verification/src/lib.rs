//! Verified core of a family of small TCP, TLS and gRPC clients and servers.
//!
//! The programs themselves (sockets, TLS streams and their configuration,
//! the gRPC transport, files and console output) live in `app/`. This library
//! holds the decisions of the sessions, the accept loops and the loading of
//! TLS credentials, as state machines and pure functions with contracts.
//! What it leaves to the programs: setting up rustls and tonic from the
//! credentials (which stop the program when rustls rejects them), and
//! stopping with the error of a failed file read or connection setup.

pub mod client;
pub mod digits;
pub mod echo;
pub mod event;
pub mod grpc;
pub mod listener;
pub mod pem;
