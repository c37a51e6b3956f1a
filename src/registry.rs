//! Mapping from transport stream identifiers to stable speaker identities.

use std::collections::HashMap;
use vstd::prelude::*;

verus! {

broadcast use vstd::std_specs::hash::group_hash_axioms;

/// Registry of which speaker owns which stream. Entries are never removed:
/// a speaker may resume talking on the same stream later in the session.
pub struct IdentityRegistry {
    speakers: HashMap<u32, u64>,
}

impl View for IdentityRegistry {
    type V = Map<u32, u64>;

    closed spec fn view(&self) -> Map<u32, u64> {
        self.speakers@
    }
}

impl IdentityRegistry {
    /// An empty registry: every stream is unattributed.
    pub fn new() -> (r: Self)
        ensures
            r@ == Map::<u32, u64>::empty(),
    {
        IdentityRegistry { speakers: HashMap::new() }
    }

    /// Attributes `stream` to `speaker`; the most recent announcement wins.
    pub fn record(&mut self, stream: u32, speaker: u64)
        ensures
            final(self)@ == old(self)@.insert(stream, speaker),
    {
        self.speakers.insert(stream, speaker);
    }

    /// The speaker that owns `stream`, if one has been announced.
    pub fn lookup(&self, stream: u32) -> (r: Option<u64>)
        ensures
            r == (if self@.contains_key(stream) {
                Some(self@[stream])
            } else {
                None
            }),
    {
        match self.speakers.get(&stream) {
            Some(s) => Some(*s),
            None => None,
        }
    }
}

} // verus!
