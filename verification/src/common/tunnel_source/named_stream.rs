//! A boxed stream of tunnels with the id it is known by.

use vstd::prelude::*;
use crate::common::tunnel_source::tunnel::TunnelPair;

verus! {

/// A boxed stream of tunnel pairs, of whatever kind: a bound listener, a
/// single dialled connection. Nothing is known of what it will yield, so the
/// verifier sees only that it is a value that can be stored and handed back.
/// The field is public: that is how a stream gets in and out of the box.
#[verifier::external_body]
pub struct TunnelStream {
    pub inner: futures::stream::BoxStream<'static, TunnelPair>,
}

/// A boxed stream and the id under which a set files it.
pub struct NamedBoxedStream {
    pub id: u32,
    pub stream: TunnelStream,
}

impl NamedBoxedStream {
    /// Boxes `stream` with `futures::stream::StreamExt::boxed`, which pins it
    /// on the heap and forgets its type, and names it `id`. Of the boxed
    /// stream nothing is claimed; the id is the one given.
    #[verifier::external_body]
    pub fn new<TStream>(id: u32, stream: TStream) -> (named: NamedBoxedStream) where
        TStream: futures::stream::Stream<Item = TunnelPair> + Send + Sync + 'static,
        ensures
            named.id == id,
    {
        let inner = futures::stream::StreamExt::boxed(stream);
        NamedBoxedStream { id, stream: TunnelStream { inner } }
    }

    /// Names a stream that is boxed already.
    pub fn new_pre_boxed(id: u32, stream: TunnelStream) -> (named: NamedBoxedStream)
        ensures
            named == (NamedBoxedStream { id, stream }),
    {
        NamedBoxedStream { id, stream }
    }
}

} // verus!
