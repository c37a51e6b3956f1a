//! The capture state machine: routes transport events to the identity
//! registry and the buffer store, and decides when an utterance is complete.

use crate::buffers::{after_drain, appended, buffered, BufferStore};
use crate::codec::{encoded, pcm_to_wav};
use crate::registry::IdentityRegistry;
use std::collections::HashSet;
use vstd::prelude::*;

verus! {

broadcast use vstd::std_specs::hash::group_hash_axioms;

/// The events of a voice session that capture acts on.
pub enum VoiceEvent {
    /// The transport tells which speaker owns a stream; the speaker may be unknown.
    IdentityAnnounced { stream: u32, speaker: Option<u64> },
    /// A stream started or stopped speaking.
    SpeakingStateChanged { stream: u32, speaking: bool },
    /// Decoded interleaved stereo samples of one packet; absent for silence frames.
    VoicePacketReceived { stream: u32, samples: Option<Vec<i16>> },
    /// Any other event of the session; capture ignores it.
    Other,
}

/// One finished utterance: everything a stream buffered during one speaking
/// episode, ready to be framed and stored under the stream's name.
pub struct Utterance {
    pub stream: u32,
    pub speaker: u64,
    pub samples: Vec<i16>,
}

impl Utterance {
    /// The utterance framed as a WAV container.
    pub fn into_wav(self) -> (wav: Vec<u8>)
        ensures
            wav@ == encoded(self.samples@),
    {
        pcm_to_wav(self.samples)
    }
}

/// The utterance a stop event on `stream` emits, as (speaker, samples): only
/// when the stream is attributed and its buffer holds at least one sample.
pub open spec fn flushed(
    speakers: Map<u32, u64>,
    bufs: Map<u32, Seq<i16>>,
    stream: u32,
) -> Option<(u64, Seq<i16>)> {
    if speakers.contains_key(stream) && buffered(bufs, stream).len() > 0 {
        Some((speakers[stream], buffered(bufs, stream)))
    } else {
        None
    }
}

/// Whether `r` is the utterance of `stream` that `f` describes, or nothing when `f` is nothing.
pub open spec fn emits(r: Option<Utterance>, stream: u32, f: Option<(u64, Seq<i16>)>) -> bool {
    match r {
        Some(u) => f == Some((u.speaker, u.samples@)) && u.stream == stream,
        None => f is None,
    }
}

/// A stop event on an unattributed stream emits nothing, whatever it buffered.
pub proof fn lemma_unattributed_stop_emits_nothing(
    speakers: Map<u32, u64>,
    bufs: Map<u32, Seq<i16>>,
    stream: u32,
)
    requires
        !speakers.contains_key(stream),
    ensures
        flushed(speakers, bufs, stream) is None,
{
}

/// A stop event on a stream with an empty or absent buffer emits nothing:
/// no utterance is ever empty.
pub proof fn lemma_empty_stop_emits_nothing(
    speakers: Map<u32, u64>,
    bufs: Map<u32, Seq<i16>>,
    stream: u32,
)
    requires
        buffered(bufs, stream).len() == 0,
    ensures
        flushed(speakers, bufs, stream) is None,
{
}

/// A second stop event right after a first one emits nothing: an episode is flushed at most once.
pub proof fn lemma_repeated_stop_emits_nothing(
    speakers: Map<u32, u64>,
    bufs: Map<u32, Seq<i16>>,
    stream: u32,
)
    ensures
        flushed(speakers, after_drain(bufs, stream), stream) is None,
{
}

/// Capture state of one voice session: who owns which stream, what each
/// stream has buffered, and which streams are currently speaking.
pub struct Receiver {
    pub registry: IdentityRegistry,
    pub buffers: BufferStore,
    pub speaking: HashSet<u32>,
}

impl Receiver {
    /// A receiver with no known speakers, no buffers and every stream idle.
    pub fn new() -> (r: Self)
        ensures
            r.registry@ == Map::<u32, u64>::empty(),
            r.buffers@ == Map::<u32, Seq<i16>>::empty(),
            r.speaking@ == Set::<u32>::empty(),
    {
        Receiver {
            registry: IdentityRegistry::new(),
            buffers: BufferStore::new(),
            speaking: HashSet::new(),
        }
    }

    /// Acts on one event and returns the utterance it completes, if any.
    /// An identity announcement with a speaker records it; a packet with samples
    /// appends them to its stream's buffer; a start marks the stream active; a
    /// stop marks it idle, drains its buffer and emits the samples when the stream
    /// is attributed and the buffer is not empty.
    pub fn act(&mut self, event: VoiceEvent) -> (r: Option<Utterance>)
        ensures
            match event {
                VoiceEvent::IdentityAnnounced { stream, speaker } => {
                    &&& final(self).registry@ == (match speaker {
                        Some(s) => old(self).registry@.insert(stream, s),
                        None => old(self).registry@,
                    })
                    &&& final(self).buffers@ == old(self).buffers@
                    &&& final(self).speaking@ == old(self).speaking@
                    &&& r is None
                },
                VoiceEvent::SpeakingStateChanged { stream, speaking } => {
                    &&& final(self).registry@ == old(self).registry@
                    &&& if speaking {
                        &&& final(self).speaking@ == old(self).speaking@.insert(stream)
                        &&& final(self).buffers@ == old(self).buffers@
                        &&& r is None
                    } else {
                        &&& final(self).speaking@ == old(self).speaking@.remove(stream)
                        &&& final(self).buffers@ == after_drain(old(self).buffers@, stream)
                        &&& emits(r, stream, flushed(old(self).registry@, old(self).buffers@, stream))
                    }
                },
                VoiceEvent::VoicePacketReceived { stream, samples } => {
                    &&& final(self).registry@ == old(self).registry@
                    &&& final(self).buffers@ == (match samples {
                        Some(v) => appended(old(self).buffers@, stream, v@),
                        None => old(self).buffers@,
                    })
                    &&& final(self).speaking@ == old(self).speaking@
                    &&& r is None
                },
                VoiceEvent::Other => {
                    &&& final(self).registry@ == old(self).registry@
                    &&& final(self).buffers@ == old(self).buffers@
                    &&& final(self).speaking@ == old(self).speaking@
                    &&& r is None
                },
            },
    {
        match event {
            VoiceEvent::IdentityAnnounced { stream, speaker } => {
                if let Some(s) = speaker {
                    self.registry.record(stream, s);
                }
                None
            },
            VoiceEvent::SpeakingStateChanged { stream, speaking } => {
                if speaking {
                    self.speaking.insert(stream);
                    None
                } else {
                    self.speaking.remove(&stream);
                    self.flush(stream)
                }
            },
            VoiceEvent::VoicePacketReceived { stream, samples } => {
                if let Some(v) = samples {
                    self.buffers.append(stream, v);
                }
                None
            },
            VoiceEvent::Other => None,
        }
    }

    /// Ends the speaking episode of `stream`: its buffer is drained whether or
    /// not the stream is attributed, and handed back only when it is and the
    /// buffer holds samples.
    pub fn flush(&mut self, stream: u32) -> (r: Option<Utterance>)
        ensures
            final(self).registry@ == old(self).registry@,
            final(self).speaking@ == old(self).speaking@,
            final(self).buffers@ == after_drain(old(self).buffers@, stream),
            emits(r, stream, flushed(old(self).registry@, old(self).buffers@, stream)),
    {
        let speaker = self.registry.lookup(stream);
        let audio = self.buffers.drain(stream);
        match (speaker, audio) {
            (Some(s), Some(samples)) => {
                if samples.len() > 0 {
                    Some(Utterance { stream, speaker: s, samples })
                } else {
                    None
                }
            },
            _ => None,
        }
    }

    /// Whether `stream` is in a speaking episode.
    pub fn is_speaking(&self, stream: u32) -> (r: bool)
        ensures
            r == self.speaking@.contains(stream),
    {
        self.speaking.contains(&stream)
    }
}

} // verus!
