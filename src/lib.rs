//! Startup and shutdown decisions of a socket-activated daemon: where its
//! listening socket comes from, how termination signals are answered, and
//! when the socket path that the daemon owns is removed.

pub mod activation;
pub mod config;
pub mod lifecycle;
pub mod traces;
