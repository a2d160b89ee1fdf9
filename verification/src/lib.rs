//! A tunnel broker's source multiplexer: many identified streams of tunnels,
//! attached and detached while running, merged into one stream of
//! `(id, tunnel)` events behind a lock that is never waited for while polling.

pub mod common;
