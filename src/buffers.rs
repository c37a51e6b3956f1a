//! Per-stream accumulation of PCM samples with an atomic drain.

use std::collections::HashMap;
use vstd::prelude::*;

verus! {

broadcast use vstd::std_specs::hash::group_hash_axioms;

/// What is buffered for `stream` in `m`: its samples, or nothing.
pub open spec fn buffered(m: Map<u32, Seq<i16>>, stream: u32) -> Seq<i16> {
    if m.contains_key(stream) {
        m[stream]
    } else {
        Seq::empty()
    }
}

/// The store after `chunk` is appended to `stream`, its buffer created if absent.
pub open spec fn appended(m: Map<u32, Seq<i16>>, stream: u32, chunk: Seq<i16>) -> Map<u32, Seq<i16>> {
    m.insert(stream, buffered(m, stream) + chunk)
}

/// What a drain of `stream` hands back: the buffer if there is one.
pub open spec fn drained(m: Map<u32, Seq<i16>>, stream: u32) -> Option<Seq<i16>> {
    if m.contains_key(stream) {
        Some(m[stream])
    } else {
        None
    }
}

/// The store after `stream` is drained: its entry is gone.
pub open spec fn after_drain(m: Map<u32, Seq<i16>>, stream: u32) -> Map<u32, Seq<i16>> {
    m.remove(stream)
}

/// The store after each chunk of `chunks`, in order, is appended to `stream`.
pub open spec fn appended_all(m: Map<u32, Seq<i16>>, stream: u32, chunks: Seq<Seq<i16>>) -> Map<u32, Seq<i16>>
    decreases chunks.len(),
{
    if chunks.len() == 0 {
        m
    } else {
        appended(appended_all(m, stream, chunks.drop_last()), stream, chunks.last())
    }
}

/// The chunks of `chunks` joined end to end, in order.
pub open spec fn concat(chunks: Seq<Seq<i16>>) -> Seq<i16>
    decreases chunks.len(),
{
    if chunks.len() == 0 {
        Seq::empty()
    } else {
        concat(chunks.drop_last()) + chunks.last()
    }
}

/// Appends to a stream leave every other stream's buffer as it was, and make
/// the stream's buffer its earlier content followed by the chunks in call order.
pub proof fn lemma_appends_concatenate(m: Map<u32, Seq<i16>>, stream: u32, chunks: Seq<Seq<i16>>)
    ensures
        buffered(appended_all(m, stream, chunks), stream) == buffered(m, stream) + concat(chunks),
        chunks.len() > 0 ==> appended_all(m, stream, chunks).contains_key(stream),
        forall|k: u32|
            k != stream ==> #[trigger] appended_all(m, stream, chunks).contains_key(k) == m.contains_key(k)
                && (m.contains_key(k) ==> appended_all(m, stream, chunks)[k] == m[k]),
    decreases chunks.len(),
{
    if chunks.len() > 0 {
        lemma_appends_concatenate(m, stream, chunks.drop_last());
        let prev = buffered(appended_all(m, stream, chunks.drop_last()), stream);
        assert(prev + chunks.last() =~= buffered(m, stream) + concat(chunks));
    } else {
        assert(buffered(m, stream) + concat(chunks) =~= buffered(m, stream));
    }
}

/// Starting from no buffer for `stream`, the buffer after any sequence of
/// appends is exactly the chunks joined in call order.
pub proof fn lemma_fresh_appends(m: Map<u32, Seq<i16>>, stream: u32, chunks: Seq<Seq<i16>>)
    requires
        !m.contains_key(stream),
    ensures
        buffered(appended_all(m, stream, chunks), stream) == concat(chunks),
{
    lemma_appends_concatenate(m, stream, chunks);
    assert(Seq::<i16>::empty() + concat(chunks) =~= concat(chunks));
}

/// After at least one append to a fresh stream, a drain hands back exactly the
/// appended chunks joined in order, and a second drain right after hands back nothing.
pub proof fn lemma_drain_after_appends(m: Map<u32, Seq<i16>>, stream: u32, chunks: Seq<Seq<i16>>)
    requires
        !m.contains_key(stream),
        chunks.len() > 0,
    ensures
        drained(appended_all(m, stream, chunks), stream) == Some(concat(chunks)),
        drained(after_drain(appended_all(m, stream, chunks), stream), stream) is None,
{
    lemma_fresh_appends(m, stream, chunks);
    lemma_appends_concatenate(m, stream, chunks);
}

/// An append and a drain of one stream, in whichever order they take effect,
/// lose and duplicate nothing. Append first: the drain returns the earlier
/// samples followed by the chunk and no buffer remains. Drain first: the drain
/// returns only the earlier buffer and the chunk starts a fresh one.
pub proof fn lemma_append_drain_race(m: Map<u32, Seq<i16>>, stream: u32, chunk: Seq<i16>)
    ensures
        drained(appended(m, stream, chunk), stream) == Some(buffered(m, stream) + chunk),
        !after_drain(appended(m, stream, chunk), stream).contains_key(stream),
        drained(m, stream) == (if m.contains_key(stream) {
            Some(buffered(m, stream))
        } else {
            None
        }),
        buffered(appended(after_drain(m, stream), stream, chunk), stream) == chunk,
{
    assert(Seq::<i16>::empty() + chunk =~= chunk);
}

/// Sample buffers keyed by stream. Appends and drains are single operations
/// on the whole store, so neither can observe the other half-done.
pub struct BufferStore {
    buffers: HashMap<u32, Vec<i16>>,
}

impl View for BufferStore {
    type V = Map<u32, Seq<i16>>;

    closed spec fn view(&self) -> Map<u32, Seq<i16>> {
        self.buffers@.map_values(|v: Vec<i16>| v@)
    }
}

impl BufferStore {
    /// A store with no buffers.
    pub fn new() -> (r: Self)
        ensures
            r@ == Map::<u32, Seq<i16>>::empty(),
    {
        let r = BufferStore { buffers: HashMap::new() };
        assert(r@ =~= Map::<u32, Seq<i16>>::empty());
        r
    }

    /// Appends `samples` to the buffer of `stream`, creating an empty one first
    /// when there is none. Order within the stream is kept exactly.
    pub fn append(&mut self, stream: u32, samples: Vec<i16>)
        ensures
            final(self)@ == appended(old(self)@, stream, samples@),
    {
        let ghost chunk = samples@;
        let mut samples = samples;
        let mut buf = match self.buffers.remove(&stream) {
            Some(b) => b,
            None => Vec::new(),
        };
        buf.append(&mut samples);
        self.buffers.insert(stream, buf);
        assert(self@ =~= appended(old(self)@, stream, chunk));
    }

    /// Removes and returns the buffer of `stream`, or `None` when it has none.
    /// Afterwards the store holds no entry for `stream`.
    pub fn drain(&mut self, stream: u32) -> (r: Option<Vec<i16>>)
        ensures
            final(self)@ == after_drain(old(self)@, stream),
            match r {
                Some(v) => drained(old(self)@, stream) == Some(v@),
                None => drained(old(self)@, stream) is None,
            },
    {
        let r = self.buffers.remove(&stream);
        assert(self@ =~= after_drain(old(self)@, stream));
        r
    }

    /// What is currently buffered for `stream` (empty when it has no buffer).
    pub fn buffered_samples(&self, stream: u32) -> (r: Vec<i16>)
        ensures
            r@ == buffered(self@, stream),
    {
        match self.buffers.get(&stream) {
            Some(b) => b.clone(),
            None => Vec::new(),
        }
    }

    /// Whether `stream` currently has a buffer.
    pub fn contains(&self, stream: u32) -> (r: bool)
        ensures
            r == self@.contains_key(stream),
    {
        self.buffers.contains_key(&stream)
    }
}

} // verus!
