use vstd::prelude::*;
use crate::text::{chars_of, owned, push_str, string_from_chars, slice_vec};
use crate::decimal::{dec, push_decimal};

verus! {

/// Gateway opcode of an event dispatch.
pub const OP_DISPATCH: u64 = 0;
/// Gateway opcode of a heartbeat (sent both ways).
pub const OP_HEARTBEAT: u64 = 1;
/// Gateway opcode asking the client to reconnect.
pub const OP_RECONNECT: u64 = 7;
/// Gateway opcode of a refused session.
pub const OP_INVALID_SESSION: u64 = 9;
/// Gateway opcode of the greeting that carries the heartbeat interval.
pub const OP_HELLO: u64 = 10;
/// Gateway opcode acknowledging a heartbeat.
pub const OP_HEARTBEAT_ACK: u64 = 11;

/// The gateway address used for a fresh connection.
pub open spec fn gateway_url_text() -> Seq<char> {
    "wss://gateway.discord.gg/?encoding=json&v=10"@
}

/// The gateway address used for a fresh connection.
pub fn gateway_url() -> (r: String)
    ensures
        r@ == gateway_url_text(),
{
    owned("wss://gateway.discord.gg/?encoding=json&v=10")
}

/// `s` without its trailing slashes (`str::trim_end_matches('/')`).
pub open spec fn trim_slashes(s: Seq<char>) -> Seq<char>
    decreases s.len(),
{
    if s.len() > 0 && s.last() == '/' { trim_slashes(s.drop_last()) } else { s }
}

/// The address to reconnect to: the resume address given by the ready payload, without
/// trailing slashes, with the query of the gateway version; the fresh-connection address
/// when none was given.
pub open spec fn reconnect_url_text(resume: Seq<char>) -> Seq<char> {
    if resume.len() > 0 { trim_slashes(resume) + "/?encoding=json&v=10"@ } else { gateway_url_text() }
}

/// The address to reconnect to (see [`reconnect_url_text`]).
pub fn reconnect_url(resume_gateway: &str) -> (r: String)
    ensures
        r@ == reconnect_url_text(resume_gateway@),
{
    if resume_gateway.is_empty() {
        return gateway_url();
    }
    let cs = chars_of(resume_gateway);
    let mut n = cs.len();
    assert(cs@.take(cs.len() as int) =~= cs@);
    while n > 0 && cs[n - 1] == '/'
        invariant
            n <= cs.len(),
            cs@ == resume_gateway@,
            trim_slashes(cs@.take(n as int)) == trim_slashes(cs@),
        decreases n,
    {
        assert(cs@.take(n - 1) =~= cs@.take(n as int).drop_last());
        n -= 1;
    }
    assert(trim_slashes(cs@.take(n as int)) == cs@.take(n as int));
    let kept = slice_vec(cs.as_slice(), 0, n);
    assert(kept@ =~= cs@.take(n as int));
    let mut out = string_from_chars(kept.as_slice());
    push_str(&mut out, "/?encoding=json&v=10");
    out
}

/// How a new connection introduces itself: resuming the session at the last sequence
/// number, or identifying afresh.
#[derive(Clone, Copy, Debug, PartialEq, Eq, Structural)]
pub enum Handshake {
    Resume { seq: u64 },
    Identify,
}

/// A session can be resumed when its id and a sequence number are known.
pub open spec fn handshake_for(session_id: Seq<char>, last_seq: Option<u64>) -> Handshake {
    if session_id.len() > 0 && last_seq is Some { Handshake::Resume { seq: last_seq->0 } } else { Handshake::Identify }
}

/// How to introduce a new connection (see [`handshake_for`]).
pub fn handshake(session_id: &str, last_seq: Option<u64>) -> (r: Handshake)
    ensures
        r == handshake_for(session_id@, last_seq),
{
    match last_seq {
        Some(s) => if !session_id.is_empty() { Handshake::Resume { seq: s } } else { Handshake::Identify },
        None => Handshake::Identify,
    }
}

/// What to do with a gateway envelope.
#[derive(Clone, Copy, Debug, PartialEq, Eq, Structural)]
pub enum EnvelopeAction {
    /// Parse and apply the event.
    Dispatch,
    /// Restart the heartbeat at this interval and send one at once.
    StartHeartbeat { interval_ms: u64 },
    /// Send a heartbeat now.
    Heartbeat,
    /// Close and reconnect.
    Reconnect,
    /// Resume the session at this sequence number.
    Resume { seq: u64 },
    /// Wait two seconds and identify afresh.
    IdentifyAfterPause,
    /// Nothing to do.
    Ignore,
}

/// The action for an envelope of opcode `op`: a greeting restarts the heartbeat when its
/// interval could be read; a refused session is resumed when the gateway allows it and a
/// session id is known, else identified afresh after a pause.
pub open spec fn envelope_action_for(op: u64, hello_interval: Option<u64>, resumable: bool, session_id: Seq<char>, last_seq: Option<u64>) -> EnvelopeAction {
    if op == OP_DISPATCH {
        EnvelopeAction::Dispatch
    } else if op == OP_HELLO {
        match hello_interval {
            Some(i) => EnvelopeAction::StartHeartbeat { interval_ms: i },
            None => EnvelopeAction::Ignore,
        }
    } else if op == OP_HEARTBEAT {
        EnvelopeAction::Heartbeat
    } else if op == OP_RECONNECT {
        EnvelopeAction::Reconnect
    } else if op == OP_INVALID_SESSION {
        if resumable && session_id.len() > 0 {
            EnvelopeAction::Resume { seq: match last_seq { Some(s) => s, None => 0 } }
        } else {
            EnvelopeAction::IdentifyAfterPause
        }
    } else {
        EnvelopeAction::Ignore
    }
}

/// The action for a gateway envelope (see [`envelope_action_for`]).
pub fn envelope_action(op: u64, hello_interval: Option<u64>, resumable: bool, session_id: &str, last_seq: Option<u64>) -> (r: EnvelopeAction)
    ensures
        r == envelope_action_for(op, hello_interval, resumable, session_id@, last_seq),
{
    if op == OP_DISPATCH {
        EnvelopeAction::Dispatch
    } else if op == OP_HELLO {
        match hello_interval {
            Some(i) => EnvelopeAction::StartHeartbeat { interval_ms: i },
            None => EnvelopeAction::Ignore,
        }
    } else if op == OP_HEARTBEAT {
        EnvelopeAction::Heartbeat
    } else if op == OP_RECONNECT {
        EnvelopeAction::Reconnect
    } else if op == OP_INVALID_SESSION {
        if resumable && !session_id.is_empty() {
            EnvelopeAction::Resume { seq: match last_seq { Some(s) => s, None => 0 } }
        } else {
            EnvelopeAction::IdentifyAfterPause
        }
    } else {
        EnvelopeAction::Ignore
    }
}

/// What the gateway loop remembers between frames: the last sequence number, the session
/// id and resume address of the ready payload, and the count of consecutive empty reads.
pub struct GatewaySession {
    pub last_seq: Option<u64>,
    pub session_id: String,
    pub resume_gateway: String,
    pub empty_reads: u32,
}

impl GatewaySession {
    /// A session before any frame.
    pub fn new() -> (r: Self)
        ensures
            r.last_seq is None,
            r.session_id@.len() == 0,
            r.resume_gateway@.len() == 0,
            r.empty_reads == 0,
    {
        GatewaySession { last_seq: None, session_id: String::new(), resume_gateway: String::new(), empty_reads: 0 }
    }

    /// A frame was read: the empty-read count restarts and its sequence number, when it
    /// has one, becomes the last.
    pub fn note_frame(&mut self, seq: Option<u64>)
        ensures
            final(self).empty_reads == 0,
            final(self).last_seq == (match seq { Some(s) => Some(s), None => old(self).last_seq }),
            final(self).session_id == old(self).session_id,
            final(self).resume_gateway == old(self).resume_gateway,
    {
        self.empty_reads = 0;
        if let Some(s) = seq {
            self.last_seq = Some(s);
        }
    }

    /// The stream ended without a frame; gives whether that was the fifth time in a row,
    /// when the loop gives up.
    pub fn note_empty_read(&mut self) -> (give_up: bool)
        requires
            old(self).empty_reads < 5,
        ensures
            final(self).empty_reads == old(self).empty_reads + 1,
            give_up == (final(self).empty_reads >= 5),
            final(self).last_seq == old(self).last_seq,
            final(self).session_id == old(self).session_id,
            final(self).resume_gateway == old(self).resume_gateway,
    {
        self.empty_reads = self.empty_reads + 1;
        self.empty_reads >= 5
    }

    /// Forgets the session, so the next connection identifies afresh.
    pub fn forget(&mut self)
        ensures
            final(self).last_seq is None,
            final(self).session_id@.len() == 0,
            final(self).resume_gateway@.len() == 0,
            final(self).empty_reads == old(self).empty_reads,
    {
        self.last_seq = None;
        self.session_id = String::new();
        self.resume_gateway = String::new();
    }

    /// Where and how to reconnect.
    pub fn reconnect_plan(&self) -> (r: (String, Handshake))
        ensures
            r.0@ == reconnect_url_text(self.resume_gateway@),
            r.1 == handshake_for(self.session_id@, self.last_seq),
    {
        (reconnect_url(self.resume_gateway.as_str()), handshake(self.session_id.as_str(), self.last_seq))
    }
}

/// The heartbeat frame: the last sequence number, or null before any.
pub open spec fn heartbeat_text(last_seq: Option<u64>) -> Seq<char> {
    match last_seq {
        Some(s) => "{\"op\": 1, \"d\": "@ + dec(s as nat) + "}"@,
        None => "{\"op\": 1, \"d\": null}"@,
    }
}

/// The heartbeat frame (see [`heartbeat_text`]).
pub fn heartbeat_body(last_seq: Option<u64>) -> (r: String)
    ensures
        r@ == heartbeat_text(last_seq),
{
    match last_seq {
        Some(s) => {
            let mut b = owned("{\"op\": 1, \"d\": ");
            push_decimal(&mut b, s);
            push_str(&mut b, "}");
            b
        },
        None => owned("{\"op\": 1, \"d\": null}"),
    }
}


/// A connection identifies afresh when no session id is known, whatever the sequence
/// number; with a session id and a sequence number it resumes at that number.
pub proof fn law_resume_needs_session(session_id: Seq<char>, last_seq: Option<u64>)
    ensures
        session_id.len() == 0 ==> handshake_for(session_id, last_seq) == Handshake::Identify,
        session_id.len() > 0 && last_seq is Some ==> handshake_for(session_id, last_seq) == (Handshake::Resume { seq: last_seq->0 }),
        last_seq is None ==> handshake_for(session_id, last_seq) == Handshake::Identify,
{
}

/// The heartbeat frame carries the last sequence number, and null before any.
pub proof fn law_heartbeat_carries_seq(n: u64)
    ensures
        heartbeat_text(Some(n)) == "{\"op\": 1, \"d\": "@ + dec(n as nat) + "}"@,
        heartbeat_text(None) == "{\"op\": 1, \"d\": null}"@,
{
}

} // verus!
