use vstd::prelude::*;

verus! {

/// Whether a sent message notifies its readers.
#[derive(Clone, Copy, Debug, PartialEq, Eq, Structural)]
pub enum SilentMode {
    Silent,
    Notify,
}

/// The message flags of a notification mode: the silent flag (4096) or none.
pub open spec fn silent_flags(s: SilentMode) -> i16 {
    match s {
        SilentMode::Silent => 4096,
        SilentMode::Notify => 0,
    }
}

impl SilentMode {
    /// The message flags of this mode (see [`silent_flags`]).
    pub fn flags(self) -> (r: i16)
        ensures
            r == silent_flags(self),
    {
        match self {
            SilentMode::Silent => 4096,
            SilentMode::Notify => 0,
        }
    }
}

/// The body of a message sent through the REST interface.
#[derive(Clone, Debug)]
pub struct Payload {
    pub content: String,
    pub nonce: u32,
    pub tts: bool,
    pub flags: i16,
}

/// A random 32-bit number from the thread's generator (`rand::thread_rng().next_u32()`).
/// It is random, so nothing is claimed of it.
#[verifier::external_body]
fn nonce_generator() -> u32 {
    rand::RngCore::next_u32(&mut rand::thread_rng())
}

impl Payload {
    /// The body of message `content` sent with nonce `nonce` in notification mode `silent`,
    /// not read aloud.
    pub fn with_nonce(content: String, silent: SilentMode, nonce: u32) -> (r: Self)
        ensures
            r.content == content,
            r.nonce == nonce,
            !r.tts,
            r.flags == silent_flags(silent),
    {
        Payload { content, nonce, tts: false, flags: silent.flags() }
    }

    /// The body of message `content` in notification mode `silent`, with a random nonce.
    pub fn build_payload(content: String, silent: SilentMode) -> (r: Self)
        ensures
            r.content == content,
            !r.tts,
            r.flags == silent_flags(silent),
    {
        Payload::with_nonce(content, silent, nonce_generator())
    }
}

} // verus!
