//! Recognition of the chat command that starts audio capture.

use vstd::prelude::*;

verus! {

/// Reacts to chat messages; the only command it knows starts capture.
pub struct Handler;

impl Handler {
    /// Whether a message with this text asks the bot to join the sender's voice
    /// channel and capture it: only the exact text `audio-receive` does.
    pub fn wants_capture(&self, content: &str) -> (r: bool)
        ensures
            r == (content@ == "audio-receive"@),
    {
        let text = content.to_string();
        let command = "audio-receive".to_string();
        text == command
    }
}

} // verus!
