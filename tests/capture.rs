use voice_capture::buffers::BufferStore;
use voice_capture::handler::Handler;
use voice_capture::receiver::{Receiver, VoiceEvent};
use voice_capture::registry::IdentityRegistry;
use voice_capture::codec::wav_to_pcm;

fn packet(stream: u32, samples: Vec<i16>) -> VoiceEvent {
    VoiceEvent::VoicePacketReceived { stream, samples: Some(samples) }
}

fn speaking(stream: u32, speaking: bool) -> VoiceEvent {
    VoiceEvent::SpeakingStateChanged { stream, speaking }
}

fn announce(stream: u32, speaker: u64) -> VoiceEvent {
    VoiceEvent::IdentityAnnounced { stream, speaker: Some(speaker) }
}

#[test]
fn appends_concatenate_in_call_order() {
    let mut store = BufferStore::new();
    store.append(3, vec![1, 2]);
    store.append(3, vec![]);
    store.append(3, vec![3]);
    store.append(4, vec![9]);
    store.append(3, vec![-4, 5]);
    assert_eq!(store.buffered_samples(3), vec![1, 2, 3, -4, 5]);
    assert_eq!(store.buffered_samples(4), vec![9]);
}

#[test]
fn drain_returns_everything_then_nothing() {
    let mut store = BufferStore::new();
    store.append(5, vec![10, -10]);
    store.append(5, vec![20]);
    assert_eq!(store.drain(5), Some(vec![10, -10, 20]));
    assert_eq!(store.drain(5), None);
    assert!(!store.contains(5));
}

#[test]
fn drain_of_unknown_stream_is_none() {
    let mut store = BufferStore::new();
    assert_eq!(store.drain(1), None);
}

#[test]
fn append_before_drain_lands_in_drained_buffer() {
    let mut store = BufferStore::new();
    store.append(2, vec![1, 1]);
    store.append(2, vec![7, 7]);
    assert_eq!(store.drain(2), Some(vec![1, 1, 7, 7]));
    assert!(store.buffered_samples(2).is_empty());
}

#[test]
fn append_after_drain_starts_fresh_buffer() {
    let mut store = BufferStore::new();
    store.append(2, vec![1, 1]);
    assert_eq!(store.drain(2), Some(vec![1, 1]));
    store.append(2, vec![7, 7]);
    assert_eq!(store.buffered_samples(2), vec![7, 7]);
    assert_eq!(store.drain(2), Some(vec![7, 7]));
}

#[test]
fn registry_last_announcement_wins() {
    let mut reg = IdentityRegistry::new();
    assert_eq!(reg.lookup(8), None);
    reg.record(8, 100);
    assert_eq!(reg.lookup(8), Some(100));
    reg.record(8, 200);
    assert_eq!(reg.lookup(8), Some(200));
    assert_eq!(reg.lookup(9), None);
}

#[test]
fn announcement_without_speaker_records_nothing() {
    let mut rx = Receiver::new();
    assert!(rx.act(VoiceEvent::IdentityAnnounced { stream: 3, speaker: None }).is_none());
    assert_eq!(rx.registry.lookup(3), None);
}

#[test]
fn silence_packet_appends_nothing() {
    let mut rx = Receiver::new();
    assert!(rx.act(VoiceEvent::VoicePacketReceived { stream: 3, samples: None }).is_none());
    assert!(!rx.buffers.contains(3));
}

#[test]
fn speaking_state_tracks_start_and_stop() {
    let mut rx = Receiver::new();
    assert!(!rx.is_speaking(6));
    assert!(rx.act(speaking(6, true)).is_none());
    assert!(rx.is_speaking(6));
    assert!(rx.act(speaking(6, false)).is_none());
    assert!(!rx.is_speaking(6));
}

#[test]
fn other_events_change_nothing() {
    let mut rx = Receiver::new();
    rx.act(announce(1, 11));
    rx.act(packet(1, vec![4, 4]));
    assert!(rx.act(VoiceEvent::Other).is_none());
    assert_eq!(rx.buffers.buffered_samples(1), vec![4, 4]);
    assert_eq!(rx.registry.lookup(1), Some(11));
}

#[test]
fn unattributed_stop_emits_nothing_and_clears_buffer() {
    let mut rx = Receiver::new();
    rx.act(packet(4, vec![1, 2, 3, 4]));
    assert!(rx.act(speaking(4, false)).is_none());
    assert!(!rx.buffers.contains(4));
}

#[test]
fn attributed_stop_without_audio_emits_nothing() {
    let mut rx = Receiver::new();
    rx.act(announce(5, 50));
    assert!(rx.act(speaking(5, true)).is_none());
    assert!(rx.act(speaking(5, false)).is_none());
}

#[test]
fn attributed_stop_with_empty_buffer_emits_nothing() {
    let mut rx = Receiver::new();
    rx.act(announce(5, 50));
    rx.act(packet(5, vec![]));
    assert!(rx.buffers.contains(5));
    assert!(rx.act(speaking(5, false)).is_none());
    assert!(!rx.buffers.contains(5));
}

#[test]
fn repeated_stop_flushes_once() {
    let mut rx = Receiver::new();
    rx.act(announce(2, 20));
    rx.act(packet(2, vec![8, -8]));
    let first = rx.act(speaking(2, false)).expect("first stop flushes");
    assert_eq!(first.samples, vec![8, -8]);
    assert!(rx.act(speaking(2, false)).is_none());
}

#[test]
fn identity_announced_after_audio_still_attributes() {
    let mut rx = Receiver::new();
    rx.act(packet(12, vec![3, 3]));
    rx.act(announce(12, 120));
    let u = rx.act(speaking(12, false)).expect("attributed at flush time");
    assert_eq!((u.stream, u.speaker, u.samples), (12, 120, vec![3, 3]));
}

#[test]
fn end_to_end_attributed_utterance() {
    let mut rx = Receiver::new();
    let mut stored = Vec::new();
    let events = vec![
        announce(7, 42),
        speaking(7, true),
        packet(7, vec![1, -1, 2, -2]),
        packet(7, vec![3, -3]),
        speaking(7, false),
    ];
    for e in events {
        if let Some(u) = rx.act(e) {
            stored.push((u.stream, u.into_wav()));
        }
    }
    assert_eq!(stored.len(), 1);
    assert_eq!(stored[0].0, 7);
    assert_eq!(wav_to_pcm(&stored[0].1), Some(vec![1, -1, 2, -2, 3, -3]));
}

#[test]
fn end_to_end_unattributed_stream_stores_nothing() {
    let mut rx = Receiver::new();
    let mut stored = 0;
    for e in vec![packet(9, vec![5, 5]), speaking(9, false)] {
        if rx.act(e).is_some() {
            stored += 1;
        }
    }
    assert_eq!(stored, 0);
    assert!(!rx.buffers.contains(9));
    rx.act(packet(9, vec![6]));
    assert_eq!(rx.buffers.buffered_samples(9), vec![6]);
}

#[test]
fn capture_command_must_match_exactly() {
    let h = Handler;
    assert!(h.wants_capture("audio-receive"));
    assert!(!h.wants_capture("audio-receive "));
    assert!(!h.wants_capture("Audio-receive"));
    assert!(!h.wants_capture(""));
}
