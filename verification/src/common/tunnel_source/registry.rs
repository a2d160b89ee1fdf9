//! The registry: at most one stream per id, merged by polling.
//!
//! The streams are kept in a `tokio_stream::StreamMap`, which also does the
//! merging. What the map holds is named by [`map_entries`]; the few calls
//! into it are the private functions at the end of this file, and their
//! contracts are taken on trust. Everything public is proved from them.
//!
//! The map reports the end of the merged stream whenever it is empty. The
//! registry does so only once a stream has been attached to it: until then
//! there is nothing that could have ended, and a poll reports that nothing is
//! ready.

use vstd::prelude::*;
use crate::common::tunnel_source::named_stream::{NamedBoxedStream, TunnelStream};
use crate::common::tunnel_source::tunnel::TunnelPair;

verus! {

#[verifier::external_type_specification]
#[verifier::external_body]
pub struct ExContext<'a>(std::task::Context<'a>);

/// What one poll of the merged streams came to.
#[derive(Clone, Copy, Debug, PartialEq, Eq, Hash, Structural)]
pub enum MergePoll {
    /// The stream filed under this id yielded this tunnel.
    Item(u32, TunnelPair),
    /// No tunnel is at hand: none of the registered streams has one, or no
    /// stream has been attached yet.
    NotReady,
    /// Streams were attached, and none is registered any more.
    Finished,
}

/// The map of the streams that are merged, each under its id.
#[verifier::external_body]
pub struct MergedStreams {
    inner: tokio_stream::StreamMap<u32, futures::stream::BoxStream<'static, TunnelPair>>,
}

/// The streams that a map holds, by id.
pub uninterp spec fn map_entries(streams: MergedStreams) -> Map<u32, TunnelStream>;

/// The streams that are merged, and whether any was ever attached.
pub struct StreamRegistry {
    streams: MergedStreams,
    attached: bool,
}

/// The entries of a registry that holds no stream.
pub open spec fn no_entries() -> Map<u32, TunnelStream> {
    Map::empty()
}

/// The entry that `entries` has under `id`, with its name on it.
pub open spec fn entry_of(entries: Map<u32, TunnelStream>, id: u32) -> Option<NamedBoxedStream> {
    if entries.contains_key(id) {
        Some(NamedBoxedStream { id, stream: entries[id] })
    } else {
        None
    }
}

/// What one poll may do to the entries and report of it.
///
/// A poll adds no entry; it may drop some, as the map does with a stream that
/// has ended. It reports a tunnel only under the id of a stream that stays
/// registered, reports `Finished` only when no entry is left, and `NotReady`
/// only when one is. Which of the registered streams it reports from is left
/// open, and so is the state in which it leaves the streams that it kept:
/// both depend on the streams themselves.
pub open spec fn merge_pass(
    before: Map<u32, TunnelStream>,
    outcome: MergePoll,
    after: Map<u32, TunnelStream>,
) -> bool {
    &&& forall|id: u32| #[trigger] after.contains_key(id) ==> before.contains_key(id)
    &&& match outcome {
        MergePoll::Item(id, _) => after.contains_key(id),
        MergePoll::NotReady => exists|id: u32| #[trigger] after.contains_key(id),
        MergePoll::Finished => after == no_entries(),
    }
}

impl View for StreamRegistry {
    type V = Map<u32, TunnelStream>;

    closed spec fn view(&self) -> Map<u32, TunnelStream> {
        map_entries(self.streams)
    }
}

/// What attaching `source` makes of a registry: the stream stands under its
/// id, in place of what stood there, and from now on a stream has been
/// attached.
pub open spec fn attached_to(
    before: StreamRegistry,
    source: NamedBoxedStream,
    after: StreamRegistry,
) -> bool {
    &&& after@ == before@.insert(source.id, source.stream)
    &&& after@.dom().finite()
    &&& after.ever_attached()
}

/// What detaching under `id` makes of a registry: the entry under `id` is
/// gone, and nothing else has changed.
pub open spec fn detached_from(before: StreamRegistry, id: u32, after: StreamRegistry) -> bool {
    &&& after@ == before@.remove(id)
    &&& after@.dom().finite()
    &&& after.ever_attached() == before.ever_attached()
}

/// What one poll makes of a registry and reports of it.
///
/// While no stream has ever been attached, the poll reports `NotReady` and
/// leaves the registry as it is. After that it is a [`merge_pass`] over the
/// entries, of which there are finitely many.
pub open spec fn polled_once(
    before: StreamRegistry,
    outcome: MergePoll,
    after: StreamRegistry,
) -> bool {
    if before.ever_attached() {
        &&& after.ever_attached()
        &&& after@.dom().finite()
        &&& merge_pass(before@, outcome, after@)
    } else {
        &&& after == before
        &&& outcome == MergePoll::NotReady
    }
}

impl StreamRegistry {
    /// Whether a stream was ever attached to this registry.
    pub closed spec fn spec_ever_attached(&self) -> bool {
        self.attached
    }

    /// Whether a stream was ever attached to this registry. While none was, a
    /// poll reports `NotReady` and no stream holds the waker: whoever polls
    /// has to see to it that the poll is tried again.
    #[verifier::when_used_as_spec(spec_ever_attached)]
    pub fn ever_attached(&self) -> (attached: bool)
        ensures
            attached == self.ever_attached(),
    {
        self.attached
    }

    /// A registry with no stream in it, to which none was ever attached.
    pub fn new() -> (registry: StreamRegistry)
        ensures
            registry@ == no_entries(),
            registry@.dom().finite(),
            !registry.ever_attached(),
    {
        StreamRegistry { streams: map_new(), attached: false }
    }

    /// Files `source` under the id it carries. An entry that was there under
    /// that id is displaced and handed back, never dropped.
    pub fn attach(&mut self, source: NamedBoxedStream) -> (displaced: Option<NamedBoxedStream>)
        ensures
            attached_to(*old(self), source, *final(self)),
            displaced == entry_of(old(self)@, source.id),
    {
        let id: u32 = source.id;
        self.attached = true;
        match map_insert(&mut self.streams, id, source.stream) {
            Some(stream) => Some(NamedBoxedStream::new_pre_boxed(id, stream)),
            None => None,
        }
    }

    /// Names `stream` and files it, as [`StreamRegistry::attach`] does.
    pub fn attach_stream(&mut self, id: u32, stream: TunnelStream) -> (displaced: Option<
        NamedBoxedStream,
    >)
        ensures
            attached_to(*old(self), NamedBoxedStream { id, stream }, *final(self)),
            displaced == entry_of(old(self)@, id),
    {
        let endpoint = NamedBoxedStream::new_pre_boxed(id, stream);
        self.attach(endpoint)
    }

    /// Takes the entry under `id` out and hands it back, in the state in which
    /// the last poll left it; `None` where there is none.
    pub fn detach(&mut self, id: &u32) -> (detached: Option<NamedBoxedStream>)
        ensures
            detached_from(*old(self), *id, *final(self)),
            detached == entry_of(old(self)@, *id),
    {
        match map_remove(&mut self.streams, id) {
            Some(stream) => Some(NamedBoxedStream::new_pre_boxed(*id, stream)),
            None => None,
        }
    }

    /// Polls the registered streams once for the next tunnel of any of them.
    /// While no stream has been attached yet, nothing is polled and the
    /// answer is `NotReady`; see [`StreamRegistry::ever_attached`].
    pub fn poll(&mut self, cx: &mut std::task::Context<'_>) -> (outcome: MergePoll)
        ensures
            polled_once(*old(self), outcome, *final(self)),
    {
        if !self.attached {
            return MergePoll::NotReady;
        }
        map_poll(&mut self.streams, cx)
    }
}

/// Attaching under a free id displaces nothing. Attaching again under that id
/// hands the first stream back as it was, and what is detached under the id
/// after that is the second stream; then the id is free again.
pub proof fn attach_twice_hands_back_the_first(
    entries: Map<u32, TunnelStream>,
    first: NamedBoxedStream,
    second: NamedBoxedStream,
)
    requires
        !entries.contains_key(first.id),
        second.id == first.id,
    ensures
        entry_of(entries, first.id) is None,
        entry_of(entries.insert(first.id, first.stream), second.id) == Some(first),
        entry_of(
            entries.insert(first.id, first.stream).insert(second.id, second.stream),
            first.id,
        ) == Some(second),
        entry_of(
            entries.insert(first.id, first.stream).insert(second.id, second.stream).remove(
                first.id,
            ),
            first.id,
        ) is None,
{
}

/// Attaching under a free id makes a registry one entry larger, and under a
/// taken id leaves its size; detaching an entry makes it one smaller.
pub proof fn attach_and_detach_count(entries: Map<u32, TunnelStream>, source: NamedBoxedStream)
    requires
        entries.dom().finite(),
    ensures
        entries.insert(source.id, source.stream).len() == entries.len() + (if entries.contains_key(
            source.id,
        ) {
            0nat
        } else {
            1nat
        }),
        entries.remove(source.id).len() == entries.len() - (if entries.contains_key(source.id) {
            1nat
        } else {
            0nat
        }),
        no_entries().len() == 0,
{
}

/// Attaching or detaching under one id changes no entry under another.
pub proof fn other_ids_are_untouched(
    entries: Map<u32, TunnelStream>,
    source: NamedBoxedStream,
    other: u32,
)
    requires
        other != source.id,
    ensures
        entry_of(entries.insert(source.id, source.stream), other) == entry_of(entries, other),
        entry_of(entries.remove(source.id), other) == entry_of(entries, other),
{
}

/// A poll reports a tunnel only under an id that was registered before it and
/// still is after it.
pub proof fn items_come_from_registered_ids(
    before: StreamRegistry,
    outcome: MergePoll,
    after: StreamRegistry,
)
    requires
        polled_once(before, outcome, after),
    ensures
        outcome matches MergePoll::Item(id, _) ==> before@.contains_key(id) && after@.contains_key(
            id,
        ),
{
}

/// Once a poll has reported `Finished`, every stream has been dropped from the
/// registry: whatever id is detached next, there is no entry under it.
pub proof fn finished_leaves_nothing_to_detach(
    before: StreamRegistry,
    after: StreamRegistry,
    id: u32,
)
    requires
        polled_once(before, MergePoll::Finished, after),
    ensures
        after@ == no_entries(),
        entry_of(after@, id) is None,
{
}

/// After a stream was detached, no poll reports a tunnel under its id, and no
/// poll brings the entry back, until a stream is attached under that id again.
pub proof fn detached_id_yields_nothing(
    before: StreamRegistry,
    id: u32,
    detached: StreamRegistry,
    outcome: MergePoll,
    after: StreamRegistry,
)
    requires
        detached_from(before, id, detached),
        polled_once(detached, outcome, after),
    ensures
        !(outcome matches MergePoll::Item(from, _) && from == id),
        !after@.contains_key(id),
{
}

/// A registry to which no stream was ever attached reports `NotReady`, not
/// `Finished`, and stays as it is, however often it is polled. From the first
/// attach on, a poll is a merge pass over the entries, of which the attached
/// stream is one.
pub proof fn new_registry_is_not_ready_until_attached(
    before: StreamRegistry,
    outcome: MergePoll,
    after: StreamRegistry,
    again: MergePoll,
    still: StreamRegistry,
    source: NamedBoxedStream,
    attached: StreamRegistry,
    next: MergePoll,
    then: StreamRegistry,
)
    requires
        !before.ever_attached(),
        polled_once(before, outcome, after),
        polled_once(after, again, still),
        attached_to(still, source, attached),
        polled_once(attached, next, then),
    ensures
        outcome == MergePoll::NotReady,
        again == MergePoll::NotReady,
        still == before,
        attached@.contains_key(source.id),
        merge_pass(attached@, next, then@),
{
}

/// A registry that has had streams and holds none any more reports
/// `Finished`, and stays empty.
pub proof fn drained_registry_is_finished(
    before: StreamRegistry,
    outcome: MergePoll,
    after: StreamRegistry,
)
    requires
        before.ever_attached(),
        before@ == no_entries(),
        polled_once(before, outcome, after),
    ensures
        outcome == MergePoll::Finished,
        after@ == no_entries(),
{
    assert(after@.dom() =~= Set::<u32>::empty());
    assert(after@ =~= no_entries());
}

/// While a stream is registered after a poll, that poll did not report
/// `Finished`.
pub proof fn registered_streams_keep_the_merge_open(
    before: StreamRegistry,
    outcome: MergePoll,
    after: StreamRegistry,
    id: u32,
)
    requires
        polled_once(before, outcome, after),
        after@.contains_key(id),
    ensures
        outcome != MergePoll::Finished,
{
}

/// `StreamMap::new`: a map without entries. (Here and below: the map keeps
/// its entries in a vector, so there are finitely many of them.)
#[verifier::external_body]
fn map_new() -> (fresh: MergedStreams)
    ensures
        map_entries(fresh) == no_entries(),
{
    MergedStreams { inner: tokio_stream::StreamMap::new() }
}

/// `StreamMap::insert`: the stream is stored under the key, in place of the
/// one that was stored there, which is returned; the other entries stay.
#[verifier::external_body]
fn map_insert(streams: &mut MergedStreams, id: u32, stream: TunnelStream) -> (previous: Option<
    TunnelStream,
>)
    ensures
        map_entries(*final(streams)) == map_entries(*old(streams)).insert(id, stream),
        map_entries(*final(streams)).dom().finite(),
        previous == if map_entries(*old(streams)).contains_key(id) {
            Some(map_entries(*old(streams))[id])
        } else {
            None
        },
{
    streams.inner.insert(id, stream.inner).map(|inner| TunnelStream { inner })
}

/// `StreamMap::remove`: the stream under the key leaves the map and is
/// returned; the other entries stay.
#[verifier::external_body]
fn map_remove(streams: &mut MergedStreams, id: &u32) -> (removed: Option<TunnelStream>)
    ensures
        map_entries(*final(streams)) == map_entries(*old(streams)).remove(*id),
        map_entries(*final(streams)).dom().finite(),
        removed == if map_entries(*old(streams)).contains_key(*id) {
            Some(map_entries(*old(streams))[*id])
        } else {
            None
        },
{
    streams.inner.remove(id).map(|inner| TunnelStream { inner })
}

/// `StreamMap`'s `Stream::poll_next`. It polls its streams in turn from a
/// place chosen at random, removes each that has ended, and returns at the
/// first item, with the key of the stream that yielded it; with no item it
/// says whether an entry is left. The contract is [`merge_pass`], which holds
/// whatever the streams and the random start do.
#[verifier::external_body]
fn map_poll(streams: &mut MergedStreams, cx: &mut std::task::Context<'_>) -> (outcome: MergePoll)
    ensures
        merge_pass(
            map_entries(*old(streams)),
            outcome,
            map_entries(*final(streams)),
        ),
        map_entries(*final(streams)).dom().finite(),
{
    match futures::stream::Stream::poll_next(std::pin::Pin::new(&mut streams.inner), cx) {
        std::task::Poll::Ready(Some((id, pair))) => MergePoll::Item(id, pair),
        std::task::Poll::Ready(None) => MergePoll::Finished,
        std::task::Poll::Pending => MergePoll::NotReady,
    }
}

} // verus!
