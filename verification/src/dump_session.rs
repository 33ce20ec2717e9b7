use vstd::prelude::*;
use crate::config::Config;
use crate::decimal::parse_u64_spec;
use crate::dump::DataId;
use crate::dump_dispatch::{DispatchOutcome, dispatch_event, dispatched};
use crate::dump_format::{captures, group, group_of, opt_seq, regex_captures};
use crate::gateway::DiscordEventMessage;
use crate::message_buffer::{BufferModel, MessageBuffer};
use crate::session::{EnvelopeAction, Handshake, envelope_action, envelope_action_for, handshake, handshake_for, reconnect_url, reconnect_url_text};
use crate::snowflake::SnowflakeID;

verus! {

/// What the console logger keeps between gateway frames: what it knows of the account,
/// the last sequence number, the session id of the guild map, the channel of the last server
/// message, the recent messages, and the count of consecutive empty reads.
pub struct DumpSession {
    pub data: DataId,
    pub last_seq: Option<u64>,
    pub g_session_id: String,
    pub last_channel_id: Option<SnowflakeID>,
    pub buffer: MessageBuffer,
    pub empty_reads: u32,
}

fn copy_ids(v: &Vec<SnowflakeID>) -> (r: Vec<SnowflakeID>)
    ensures
        r@ == v@,
{
    let mut out: Vec<SnowflakeID> = Vec::new();
    let mut i: usize = 0;
    while i < v.len()
        invariant
            0 <= i <= v.len(),
            out@ == v@.take(i as int),
        decreases v.len() - i,
    {
        out.push(v[i]);
        assert(out@ =~= v@.take(i + 1));
        i += 1;
    }
    assert(v@.take(v.len() as int) =~= v@);
    out
}

impl DumpSession {
    /// The state before the first frame: nothing known but the users whose DMs are
    /// followed, an empty buffer of the configured size.
    pub fn new(cfg: &Config) -> (r: Self)
        ensures
            r.data.guild_id@ == Map::<u64, String>::empty(),
            r.data.channel_id@ == Map::<u64, String>::empty(),
            r.data.dm_dump_hashmap@ == Map::<u64, String>::empty(),
            r.data.muted_server@ == Map::<u64, String>::empty(),
            r.data.username@ == cfg.dm_channel_id_tracking@,
            r.data.session_id@.len() == 0,
            r.data.resume_gateway@.len() == 0,
            r.last_seq is None,
            r.g_session_id@.len() == 0,
            r.last_channel_id is None,
            r.buffer@ == BufferModel::empty(cfg.message_buffer_size as nat),
            r.empty_reads == 0,
    {
        DumpSession {
            data: DataId::new(copy_ids(&cfg.dm_channel_id_tracking)),
            last_seq: None,
            g_session_id: String::new(),
            last_channel_id: None,
            buffer: MessageBuffer::new(cfg.message_buffer_size),
            empty_reads: 0,
        }
    }

    /// A frame was read: the empty-read count restarts and its sequence number, when it has
    /// one, becomes the last.
    pub fn on_frame(&mut self, seq: Option<u64>)
        ensures
            final(self).empty_reads == 0,
            final(self).last_seq == (match seq {
                Some(s) => Some(s),
                None => old(self).last_seq,
            }),
            *final(self) == (DumpSession { empty_reads: 0, last_seq: final(self).last_seq, ..*old(self) }),
    {
        self.empty_reads = 0;
        if let Some(s) = seq {
            self.last_seq = Some(s);
        }
    }

    /// What to do with an envelope of opcode `op` (see
    /// [`crate::session::envelope_action_for`]), with the session id that the ready payload
    /// gave.
    pub fn envelope(&self, op: u64, hello_interval: Option<u64>, resumable: bool) -> (r: EnvelopeAction)
        ensures
            r == envelope_action_for(op, hello_interval, resumable, self.data.session_id@, self.last_seq),
    {
        envelope_action(op, hello_interval, resumable, self.data.session_id.as_str(), self.last_seq)
    }

    /// Dispatches a parsed event (see [`crate::dump_dispatch::dispatch_event`]).
    pub fn on_dispatch(&mut self, ev: &DiscordEventMessage, cfg: &Config, clock: &str, now_ms: i64) -> (r: DispatchOutcome)
        ensures
            dispatched(*ev, *cfg, clock@, now_ms, old(self).data, final(self).data, old(self).g_session_id@,
                final(self).g_session_id@, old(self).last_channel_id, final(self).last_channel_id, old(self).buffer@,
                final(self).buffer@, r),
            final(self).last_seq == old(self).last_seq,
            final(self).empty_reads == old(self).empty_reads,
    {
        dispatch_event(ev, &mut self.data, &mut self.g_session_id, cfg, &mut self.last_channel_id, &mut self.buffer, clock, now_ms)
    }

    /// A new session was identified afresh (after a refused session, a failed reconnection
    /// or a reconnection after an empty read): what was known of the account goes (but the
    /// resume address), and so does the sequence number.
    pub fn on_fresh_identify(&mut self)
        ensures
            final(self).data.guild_id@ == Map::<u64, String>::empty(),
            final(self).data.channel_id@ == Map::<u64, String>::empty(),
            final(self).data.dm_dump_hashmap@ == Map::<u64, String>::empty(),
            final(self).data.muted_server@ == Map::<u64, String>::empty(),
            final(self).data.username@.len() == 0,
            final(self).data.session_id@.len() == 0,
            final(self).data.resume_gateway == old(self).data.resume_gateway,
            final(self).last_seq is None,
            final(self).g_session_id == old(self).g_session_id,
            final(self).last_channel_id == old(self).last_channel_id,
            final(self).buffer@ == old(self).buffer@,
            final(self).empty_reads == old(self).empty_reads,
    {
        self.data.clear();
        self.last_seq = None;
    }

    /// Where and how to reconnect after a read error or when the gateway asks: the resume
    /// address (else the gateway), resuming the session when its id and a sequence number
    /// are known.
    pub fn reconnect_plan(&self) -> (r: (String, Handshake))
        ensures
            r.0@ == reconnect_url_text(self.data.resume_gateway@),
            r.1 == handshake_for(self.data.session_id@, self.last_seq),
    {
        (reconnect_url(self.data.resume_gateway.as_str()), handshake(self.data.session_id.as_str(), self.last_seq))
    }

    /// The stream ended without a frame; gives whether that was the fifth time in a row,
    /// when the logger stops.
    pub fn on_stream_end(&mut self) -> (give_up: bool)
        requires
            old(self).empty_reads < 5,
        ensures
            final(self).empty_reads == old(self).empty_reads + 1,
            give_up == (final(self).empty_reads >= 5),
            *final(self) == (DumpSession { empty_reads: final(self).empty_reads, ..*old(self) }),
    {
        self.empty_reads = self.empty_reads + 1;
        self.empty_reads >= 5
    }
}

/// Where a JSON parse error points: its line and column, and, for a column past zero, the
/// byte range of the text around it (25 bytes each way, within the text).
#[derive(Clone, Copy, Debug)]
pub struct ErrorSpot {
    pub line: usize,
    pub column: usize,
    pub window: Option<(usize, usize)>,
}

/// The number that a decimal text spells, when it fits in a `usize`.
pub open spec fn usize_of(s: Seq<char>) -> Option<usize> {
    match parse_u64_spec(s) {
        Some(v) if v <= usize::MAX => Some(v as usize),
        _ => None,
    }
}

/// Where a parse error with message `err` points in a text of `len` bytes: the line and
/// column that the message names (`line L column C`), when both parse.
pub open spec fn error_spot(err: Seq<char>, len: usize) -> Option<ErrorSpot> {
    spot_of_groups(regex_captures("line (\\d+) column (\\d+)"@, err), len)
}

/// Capture results by their plain values.
pub open spec fn caps_view(g: Option<Vec<Option<String>>>) -> Option<Seq<Option<Seq<char>>>> {
    match g {
        Some(v) => Some(v@.map_values(|o: Option<String>| opt_seq(o))),
        None => None,
    }
}

/// Where a parse error points in a text of `len` bytes, from the capture groups `g` of the
/// pattern `line (\d+) column (\d+)` on its message: the line and column of groups 1 and 2,
/// when both parse, with, for a column past zero, the byte range 25 each way within the text.
pub open spec fn spot_of_groups(g: Option<Seq<Option<Seq<char>>>>, len: usize) -> Option<ErrorSpot> {
    match (group(g, 1), group(g, 2)) {
        (Some(l), Some(c)) => match (usize_of(l), usize_of(c)) {
            (Some(line), Some(column)) => Some(ErrorSpot {
                line,
                column,
                window: if column == 0 {
                    None
                } else {
                    Some((
                        if column >= 25 { (column - 25) as usize } else { 0usize },
                        if column + 25 > usize::MAX { len } else if column + 25 < len { (column + 25) as usize } else { len },
                    ))
                },
            }),
            _ => None,
        },
        _ => None,
    }
}

fn parse_usize(s: &str) -> (r: Option<usize>)
    ensures
        r == usize_of(s@),
{
    match crate::decimal::parse_u64(s) {
        Some(v) => if v <= usize::MAX as u64 { Some(v as usize) } else { None },
        None => None,
    }
}

/// Where a parse error points (see [`error_spot`]).
pub fn parse_error_spot(err: &str, len: usize) -> (r: Option<ErrorSpot>)
    ensures
        r == error_spot(err@, len),
{
    let g = captures("line (\\d+) column (\\d+)", err);
    spot_from_groups(&g, len)
}

/// Where a parse error points, from the capture groups of its message (see
/// [`spot_of_groups`]).
pub fn spot_from_groups(g: &Option<Vec<Option<String>>>, len: usize) -> (r: Option<ErrorSpot>)
    ensures
        r == spot_of_groups(caps_view(*g), len),
{
    match (group_of(g, 1), group_of(g, 2)) {
        (Some(l), Some(c)) => match (parse_usize(l.as_str()), parse_usize(c.as_str())) {
            (Some(line), Some(column)) => {
                let window = if column == 0 {
                    None
                } else {
                    let start = column.saturating_sub(25);
                    let end0 = column.saturating_add(25);
                    let end = if end0 < len { end0 } else { len };
                    Some((start, end))
                };
                Some(ErrorSpot { line, column, window })
            },
            _ => None,
        },
        _ => None,
    }
}

} // verus!
