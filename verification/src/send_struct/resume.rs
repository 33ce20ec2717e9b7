use vstd::prelude::*;

verus! {

/// What a resumption carries: the token, the session and the last sequence number.
#[derive(Clone, Debug)]
pub struct DiscordResumeData {
    pub token: String,
    pub session_id: String,
    pub seq: u64,
}

/// The gateway command (opcode 6) that resumes a session.
#[derive(Clone, Debug)]
pub struct DiscordResumeConnection {
    pub op: i8,
    pub d: DiscordResumeData,
}

impl DiscordResumeConnection {
    /// Resumes session `session_id` after sequence number `seq`.
    pub fn new(token: &str, session_id: &str, seq: u64) -> (r: Self)
        ensures
            r.op == 6,
            r.d.token@ == token@,
            r.d.session_id@ == session_id@,
            r.d.seq == seq,
    {
        DiscordResumeConnection {
            op: 6,
            d: DiscordResumeData { token: crate::text::owned(token), session_id: crate::text::owned(session_id), seq },
        }
    }
}

} // verus!
