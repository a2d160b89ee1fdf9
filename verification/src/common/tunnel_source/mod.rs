//! Sources of tunnels, listening and connecting alike, and the set that
//! merges them.

pub mod listen;
pub mod named_stream;
pub mod registry;
pub mod stream_set;
pub mod tunnel;

pub use listen::{Inbound, ListenAdapter, ListenStep};
pub use named_stream::{NamedBoxedStream, TunnelStream};
pub use registry::{MergePoll, StreamRegistry};
pub use stream_set::{
    attach_locked, attach_under, attached_under, detach_locked, detach_under, poll_after,
    poll_locked,
    DynamicStreamSet, DynamicStreamSetHandle, LockAttempt, LockPoisoned,
};
pub use tunnel::{TunnelPair, TunnelSide};
