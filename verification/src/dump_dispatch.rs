use vstd::prelude::*;
use crate::config::Config;
use crate::console::{LogKind, LogLine, lines_view, login_line, push_login};
use crate::decimal::{dec, push_decimal};
use crate::dump::{DataId, MessageOutcome, handle_message, message_routed};
use crate::dump_events::{
    call_lines, delete_lines, guild_settings_lines, handle_call, handle_message_delete,
    handle_presence_update, handle_sessions_replace, handle_typing_start, handle_user_guild_settings,
    handle_voice_state_update, one, presence_lines, sessions_lines, single, typing_lines,
    voice_state_lines,
};
use crate::dump_ready::{ReadyOutcome, handle_ready, ready_handled};
use crate::gateway::DiscordEventMessage;
use crate::message_buffer::{BufferModel, MessageBuffer};
use crate::receive_struct::voice_channel_start_time_update::VoiceChannelStartTimeUpdateData;
use crate::snowflake::SnowflakeID;
use crate::text::{owned, push_str};

verus! {

broadcast use vstd::seq_lib::group_seq_properties;

/// The shape of a date written `%Y_%m_%d_%H_%M_%S` with a four-digit year: nineteen
/// characters, digits but for the underscores that part the fields.
pub open spec fn date_stamp_shaped(s: Seq<char>) -> bool {
    &&& s.len() == 19
    &&& forall|i: int| 0 <= i < 19 ==> if i == 4 || i == 7 || i == 10 || i == 13 || i == 16 {
        s[i] == '_'
    } else {
        crate::decimal::is_digit(#[trigger] s[i])
    }
}

/// The most seconds since the epoch that a time stamp in nanoseconds held in a `u64` reaches.
pub open spec fn max_stamp_secs() -> int {
    18_446_744_073
}

/// How dump file names write a date: `YYYY_mm_dd_HH_MM_SS`.
pub open spec fn dump_date_format() -> Seq<char> {
    "%Y_%m_%d_%H_%M_%S"@
}

/// The days from 1970-01-01 to the proleptic Gregorian date `y`-`m`-`d`.
pub open spec fn days_from_civil(y: int, m: int, d: int) -> int {
    let y2 = if m <= 2 { y - 1 } else { y };
    let era = y2 / 400;
    let yoe = y2 - era * 400;
    let mp = if m > 2 { m - 3 } else { m + 9 };
    let doy = (153 * mp + 2) / 5 + d - 1;
    let doe = yoe * 365 + yoe / 4 - yoe / 100 + doy;
    era * 146097 + doe - 719468
}

/// The number written by the digits of `s` from `i` up to `j`.
pub open spec fn digits_at(s: Seq<char>, i: int, j: int) -> int {
    crate::decimal::digits_value(s.subrange(i, j)) as int
}

/// The seconds since the epoch of the date and time written in a stamp of that shape, read
/// as if it were UTC.
pub open spec fn stamp_value(s: Seq<char>) -> int {
    days_from_civil(digits_at(s, 0, 4), digits_at(s, 5, 7), digits_at(s, 8, 10)) * 86400
        + digits_at(s, 11, 13) * 3600 + digits_at(s, 14, 16) * 60 + digits_at(s, 17, 19)
}

/// The local date of `secs` seconds since the epoch, written with the chrono format `fmt`,
/// through `chrono::Local.timestamp_opt(secs, 0).single()`; none when chrono gives no single
/// local time. Only the dump format is accepted, since chrono's formatting panics on a
/// malformed format. Which date comes out depends on the machine's time zone, so it is not
/// named.
/// What is claimed holds of every zone. For `0 <= secs <= max_stamp_secs()` chrono's
/// `timestamp_opt` gives a single local time (it does for every second count in its range).
/// With the format `%Y_%m_%d_%H_%M_%S`: chrono's documentation writes `%Y` zero-padded to
/// four digits and the other fields zero-padded to two, and the year stays within four
/// digits (up to 2554); the local time is the UTC time shifted by the zone's offset, which
/// chrono keeps under a day either way, so the date written lies within a day of `secs`.
#[verifier::external_body]
fn local_date(secs: i64, fmt: &str) -> (r: Option<String>)
    requires
        fmt@ == dump_date_format(),
    ensures
        0 <= secs <= max_stamp_secs() ==> r is Some,
        0 <= secs <= max_stamp_secs() ==> (r matches Some(t) ==> {
            &&& date_stamp_shaped(t@)
            &&& secs - 86400 < stamp_value(t@) < secs + 86400
        }),
{
    chrono::TimeZone::timestamp_opt(&chrono::Local, secs, 0).single().map(|dt| dt.format(fmt).to_string())
}

/// The local date of a time stamp in nanoseconds since the epoch, written
/// `YYYY_mm_dd_HH_MM_SS` (see [`local_date`]): which date it is depends on the machine's
/// time zone, and it lies within a day of the stamp's seconds. (`invalid_ts_` and the
/// seconds would stand when the local calendar gave no single date, which chrono never
/// does on these inputs.)
pub fn timestamp_to_date(timestamp_ns: u64) -> (r: String)
    ensures
        date_stamp_shaped(r@),
        timestamp_ns / 1_000_000_000 - 86400 < stamp_value(r@) < timestamp_ns / 1_000_000_000 + 86400,
{
    let secs: u64 = timestamp_ns / 1_000_000_000;
    assert(secs <= max_stamp_secs());
    match local_date(secs as i64, "%Y_%m_%d_%H_%M_%S") {
        Some(t) => t,
        None => {
            let mut out = owned("invalid_ts_");
            push_decimal(&mut out, secs);
            out
        },
    }
}

/// The date that a voice channel's start time line carries, when the line is written with
/// one (a known channel of a known guild, with a start time): a dump-format date within a
/// day of the start time's seconds (see [`timestamp_to_date`]).
pub open spec fn start_date_fits(d: VoiceChannelStartTimeUpdateData, data: DataId, date: Seq<char>) -> bool {
    data.channel_id@.contains_key(d.id.0) && data.guild_id@.contains_key(d.guild_id.0) ==> match d.start_time {
        Some(t) => date_stamp_shaped(date)
            && t / 1_000_000_000 - 86400 < stamp_value(date) < t / 1_000_000_000 + 86400,
        None => true,
    }
}

/// The line of a voice channel's start time in a known channel of a known guild:
/// connected, with the date (as the machine's calendar writes it), or disconnected.
pub open spec fn start_time_lines(d: VoiceChannelStartTimeUpdateData, data: DataId, date: Seq<char>) -> Seq<(LogKind, Seq<char>)> {
    if data.channel_id@.contains_key(d.id.0) && data.guild_id@.contains_key(d.guild_id.0) {
        let g = data.guild_id@[d.guild_id.0]@;
        let c = data.channel_id@[d.id.0]@;
        match d.start_time {
            Some(_) => one(LogKind::Info, "[Voice channel Connected to] > "@ + g + " > "@ + c + " > "@ + date),
            None => one(LogKind::Info, "[Voice channel Disconnected from] > "@ + g + " > "@ + c),
        }
    } else {
        Seq::empty()
    }
}

/// The line of a guild event in a known guild `g`: `text(name)`; nothing for an unknown
/// guild.
pub open spec fn known_guild_line(data: DataId, g: SnowflakeID, kind: LogKind, before: Seq<char>, after: Seq<char>) -> Seq<(LogKind, Seq<char>)> {
    if data.guild_id@.contains_key(g.0) {
        one(kind, before + data.guild_id@[g.0]@ + after)
    } else {
        Seq::empty()
    }
}

/// Whether the console logger knows an event (those it does not know go to the to-do dump).
pub open spec fn event_handled(ev: DiscordEventMessage) -> bool {
    match ev {
        DiscordEventMessage::Ready { .. } => false,
        DiscordEventMessage::ReadySupplemental => false,
        DiscordEventMessage::Resumed => false,
        DiscordEventMessage::StreamCreate { .. } => false,
        DiscordEventMessage::StreamServerUpdate { .. } => false,
        DiscordEventMessage::StreamUpdate { .. } => false,
        DiscordEventMessage::StreamDelete { .. } => false,
        DiscordEventMessage::Other { listed } => listed,
        _ => true,
    }
}

/// The console lines of an event other than a message, a voice state or a voice start time,
/// with the clock text `clock` for call lines.
pub open spec fn event_lines(ev: DiscordEventMessage, cfg: Config, data: DataId, b: BufferModel, clock: Seq<char>) -> Seq<(LogKind, Seq<char>)> {
    match ev {
        DiscordEventMessage::MessageDelete { d } => delete_lines(d, data, cfg, b),
        DiscordEventMessage::SessionsReplace { d } => sessions_lines(d@, cfg),
        DiscordEventMessage::PresenceUpdate { d } => presence_lines(d, cfg),
        DiscordEventMessage::UserSettingsUpdate { d } =>
            if cfg.event.user_settings_update { login_line("UserSettingsUpdate"@, d.custom_status@) } else { Seq::empty() },
        DiscordEventMessage::CallCreate { d } => call_lines(true, d.channel_id, data, cfg, clock),
        DiscordEventMessage::CallDelete { d } => call_lines(false, d.channel_id, data, cfg, clock),
        DiscordEventMessage::TypingStart { d } => typing_lines(d, data, cfg),
        DiscordEventMessage::UserGuildSettingsUpdate { d } => guild_settings_lines(d, data),
        DiscordEventMessage::ChannelCreate { d } =>
            known_guild_line(data, d.guild_id, LogKind::Info, "[Create channel] "@, " add > "@ + d.name@),
        DiscordEventMessage::ChannelDelete { d } =>
            known_guild_line(data, d.guild_id, LogKind::Info, "[Delete channel] "@, " delete > "@ + d.name@),
        DiscordEventMessage::ChannelUpdate { d } => if cfg.event.channel_update {
            known_guild_line(data, d.guild_id, LogKind::Info, "[Update channel] "@, " update > "@ + d.name@)
        } else {
            Seq::empty()
        },
        DiscordEventMessage::ChannelUnreadUpdate { d } => if cfg.debug {
            known_guild_line(data, d.guild_id, LogKind::Info, "[Unread update] "@,
                " "@ + dec(d.channel_unread_updates@.len()) + " channel(s)"@)
        } else {
            Seq::empty()
        },
        DiscordEventMessage::GuildDelete { d } =>
            known_guild_line(data, d.id, LogKind::Warn, "[Delete guild] "@, " delete"@),
        DiscordEventMessage::GuildMemberRemove { d } =>
            known_guild_line(data, d.guild_id, LogKind::Warn, "[Delete member] "@, " delete > "@ + d.user.username@),
        DiscordEventMessage::GuildIntegrationsUpdate { d } => if cfg.debug {
            known_guild_line(data, d.guild_id, LogKind::Info, "[GuildIntegrationsUpdate] "@, Seq::empty())
        } else {
            Seq::empty()
        },
        DiscordEventMessage::IntegrationCreate { d } => if cfg.debug {
            known_guild_line(data, d.guild_id, LogKind::Info, "[Integration] "@, " > "@ + match d.name {
                Some(n) => n@,
                None => "?"@,
            })
        } else {
            Seq::empty()
        },
        DiscordEventMessage::IntegrationUpdate { d } => if cfg.debug {
            known_guild_line(data, d.guild_id, LogKind::Info, "[Integration] "@, " > "@ + match d.name {
                Some(n) => n@,
                None => "?"@,
            })
        } else {
            Seq::empty()
        },
        DiscordEventMessage::MessageAck { d } => if data.channel_id@.contains_key(d.channel_id.0) {
            one(LogKind::Info, "[Message ack] > "@ + data.channel_id@[d.channel_id.0]@ + " > "@ + b.get(d.message_id.0))
        } else {
            Seq::empty()
        },
        _ => Seq::empty(),
    }
}

/// What an event gives the console logger: whether it knows the event, the console lines,
/// and what a message gave.
pub struct DumpEventOutcome {
    pub handled: bool,
    pub lines: Vec<LogLine>,
    pub message: MessageOutcome,
}

/// `data1`, `last1`, `b1` and `r` are what event `ev` gives from `data0`, `last0` and `b0`
/// (see [`event_receive`]).
pub open spec fn event_received(ev: DiscordEventMessage, cfg: Config, clock: Seq<char>, data0: DataId, data1: DataId,
    last0: Option<SnowflakeID>, last1: Option<SnowflakeID>, b0: BufferModel, b1: BufferModel, r: DumpEventOutcome) -> bool {
    &&& r.handled == event_handled(ev)
    &&& match ev {
        DiscordEventMessage::MessageCreate { d } => {
            &&& r.lines@.len() == 0
            &&& message_routed(d, &cfg, data0, data1, last0, last1, b0, b1, r.message)
        },
        DiscordEventMessage::MessageUpdate { d } => {
            &&& r.lines@.len() == 0
            &&& message_routed(d, &cfg, data0, data1, last0, last1, b0, b1, r.message)
        },
        DiscordEventMessage::VoiceStateUpdate { d } => {
            &&& r.message is Ignored
            &&& data1 == data0
            &&& b1 == b0
            &&& if cfg.event.voice_state_update {
                &&& last1 == None::<SnowflakeID>
                &&& lines_view(r.lines@) == voice_state_lines(d, data0)
            } else {
                &&& last1 == last0
                &&& r.lines@.len() == 0
            }
        },
        DiscordEventMessage::VoiceChannelStartTimeUpdate { d } => {
            &&& r.message is Ignored
            &&& data1 == data0
            &&& b1 == b0
            &&& last1 == last0
            &&& exists|date: Seq<char>| lines_view(r.lines@) == start_time_lines(d, data0, date) && start_date_fits(d, data0, date)
        },
        _ => {
            &&& r.message is Ignored
            &&& data1 == data0
            &&& b1 == b0
            &&& last1 == last0
            &&& lines_view(r.lines@) == event_lines(ev, cfg, data0, b0, clock)
        },
    }
}

fn guild_line(data: &DataId, g: SnowflakeID, kind: LogKind, before: &str, after: String) -> (r: Vec<LogLine>)
    ensures
        lines_view(r@) == known_guild_line(*data, g, kind, before@, after@),
{
    match data.guild_id.get(&g.0) {
        Some(gn) => {
            let mut t = owned(before);
            push_str(&mut t, gn.as_str());
            push_str(&mut t, after.as_str());
            single(kind, t)
        },
        None => {
            let out: Vec<LogLine> = Vec::new();
            assert(lines_view(out@) =~= Seq::empty());
            out
        },
    }
}

fn no_lines() -> (r: Vec<LogLine>)
    ensures
        lines_view(r@) == Seq::<(LogKind, Seq<char>)>::empty(),
{
    let out: Vec<LogLine> = Vec::new();
    assert(lines_view(out@) =~= Seq::empty());
    out
}

fn suffix(a: &str, b: &str) -> (r: String)
    ensures
        r@ == a@ + b@,
{
    let mut t = owned(a);
    push_str(&mut t, b);
    t
}

/// Logs a gateway event other than the session's own (see [`event_received`]): messages are
/// routed, deletions, sessions, presences, settings, calls, typing, voice states and the
/// guild and channel events of known guilds get their lines; `clock` stamps call lines.
#[verifier::rlimit(40)]
pub fn event_receive(ev: &DiscordEventMessage, data: &mut DataId, last_channel_id: &mut Option<SnowflakeID>, cfg: &Config,
    buffer: &mut MessageBuffer, clock: &str) -> (r: DumpEventOutcome)
    ensures
        event_received(*ev, *cfg, clock@, *old(data), *final(data), *old(last_channel_id), *final(last_channel_id),
            old(buffer)@, final(buffer)@, r),
{
    match ev {
        DiscordEventMessage::MessageCreate { d } => {
            let m = handle_message(d, data, last_channel_id, cfg, buffer);
            DumpEventOutcome { handled: true, lines: Vec::new(), message: m }
        },
        DiscordEventMessage::MessageUpdate { d } => {
            let m = handle_message(d, data, last_channel_id, cfg, buffer);
            DumpEventOutcome { handled: true, lines: Vec::new(), message: m }
        },
        DiscordEventMessage::VoiceStateUpdate { d } => {
            let lines = if cfg.event.voice_state_update {
                *last_channel_id = None;
                handle_voice_state_update(d, data)
            } else {
                Vec::new()
            };
            DumpEventOutcome { handled: true, lines, message: MessageOutcome::Ignored }
        },
        DiscordEventMessage::VoiceChannelStartTimeUpdate { d } => {
            let lines = start_time_line(d, data);
            DumpEventOutcome { handled: true, lines, message: MessageOutcome::Ignored }
        },
        _ => {
            let lines = other_event_lines(ev, data, cfg, buffer, clock);
            let handled = match ev {
                DiscordEventMessage::Ready { .. } => false,
                DiscordEventMessage::ReadySupplemental => false,
                DiscordEventMessage::Resumed => false,
                DiscordEventMessage::StreamCreate { .. } => false,
                DiscordEventMessage::StreamServerUpdate { .. } => false,
                DiscordEventMessage::StreamUpdate { .. } => false,
                DiscordEventMessage::StreamDelete { .. } => false,
                DiscordEventMessage::Other { listed } => *listed,
                _ => true,
            };
            DumpEventOutcome { handled, lines, message: MessageOutcome::Ignored }
        },
    }
}

fn start_time_line(d: &VoiceChannelStartTimeUpdateData, data: &DataId) -> (r: Vec<LogLine>)
    ensures
        exists|date: Seq<char>| lines_view(r@) == start_time_lines(*d, *data, date) && start_date_fits(*d, *data, date),
{
    match (data.channel_id.get(&d.id.0), data.guild_id.get(&d.guild_id.0)) {
        (Some(c), Some(g)) => {
            match d.start_time {
                Some(time) => {
                    let date = timestamp_to_date(time);
                    let mut t = owned("[Voice channel Connected to] > ");
                    push_str(&mut t, g.as_str());
                    push_str(&mut t, " > ");
                    push_str(&mut t, c.as_str());
                    push_str(&mut t, " > ");
                    push_str(&mut t, date.as_str());
                    let r = single(LogKind::Info, t);
                    assert(lines_view(r@) == start_time_lines(*d, *data, date@));
                    r
                },
                None => {
                    let mut t = owned("[Voice channel Disconnected from] > ");
                    push_str(&mut t, g.as_str());
                    push_str(&mut t, " > ");
                    push_str(&mut t, c.as_str());
                    let r = single(LogKind::Info, t);
                    assert(lines_view(r@) == start_time_lines(*d, *data, Seq::empty()));
                    r
                },
            }
        },
        _ => {
            let r = no_lines();
            assert(lines_view(r@) == start_time_lines(*d, *data, Seq::empty()));
            r
        },
    }
}

fn other_event_lines(ev: &DiscordEventMessage, data: &DataId, cfg: &Config, buffer: &MessageBuffer, clock: &str) -> (r: Vec<LogLine>)
    ensures
        lines_view(r@) == event_lines(*ev, *cfg, *data, buffer@, clock@),
{
    match ev {
        DiscordEventMessage::MessageDelete { d } => handle_message_delete(d, data, cfg, buffer),
        DiscordEventMessage::SessionsReplace { d } => handle_sessions_replace(d, cfg),
        DiscordEventMessage::PresenceUpdate { d } => handle_presence_update(d, cfg),
        DiscordEventMessage::UserSettingsUpdate { d } => {
            let mut out: Vec<LogLine> = Vec::new();
            if cfg.event.user_settings_update {
                push_login(&mut out, "UserSettingsUpdate", d.custom_status.as_str());
            }
            assert(lines_view(out@) =~= event_lines(*ev, *cfg, *data, buffer@, clock@));
            out
        },
        DiscordEventMessage::CallCreate { d } => handle_call(true, d.channel_id, data, cfg, clock),
        DiscordEventMessage::CallDelete { d } => handle_call(false, d.channel_id, data, cfg, clock),
        DiscordEventMessage::TypingStart { d } => handle_typing_start(d, data, cfg),
        DiscordEventMessage::UserGuildSettingsUpdate { d } => handle_user_guild_settings(d, data),
        DiscordEventMessage::ChannelCreate { d } =>
            guild_line(data, d.guild_id, LogKind::Info, "[Create channel] ", suffix(" add > ", d.name.as_str())),
        DiscordEventMessage::ChannelDelete { d } =>
            guild_line(data, d.guild_id, LogKind::Info, "[Delete channel] ", suffix(" delete > ", d.name.as_str())),
        DiscordEventMessage::ChannelUpdate { d } => if cfg.event.channel_update {
            guild_line(data, d.guild_id, LogKind::Info, "[Update channel] ", suffix(" update > ", d.name.as_str()))
        } else {
            no_lines()
        },
        DiscordEventMessage::ChannelUnreadUpdate { d } => if cfg.debug {
            let mut t = owned(" ");
            push_decimal(&mut t, d.channel_unread_updates.len() as u64);
            push_str(&mut t, " channel(s)");
            guild_line(data, d.guild_id, LogKind::Info, "[Unread update] ", t)
        } else {
            no_lines()
        },
        DiscordEventMessage::GuildDelete { d } =>
            guild_line(data, d.id, LogKind::Warn, "[Delete guild] ", owned(" delete")),
        DiscordEventMessage::GuildMemberRemove { d } =>
            guild_line(data, d.guild_id, LogKind::Warn, "[Delete member] ", suffix(" delete > ", d.user.username.as_str())),
        DiscordEventMessage::GuildIntegrationsUpdate { d } => if cfg.debug {
            proof {
                reveal_strlit("");
            }
            guild_line(data, d.guild_id, LogKind::Info, "[GuildIntegrationsUpdate] ", String::new())
        } else {
            no_lines()
        },
        DiscordEventMessage::IntegrationCreate { d } => if cfg.debug {
            let n: &str = match &d.name {
                Some(n) => n.as_str(),
                None => "?",
            };
            guild_line(data, d.guild_id, LogKind::Info, "[Integration] ", suffix(" > ", n))
        } else {
            no_lines()
        },
        DiscordEventMessage::IntegrationUpdate { d } => if cfg.debug {
            let n: &str = match &d.name {
                Some(n) => n.as_str(),
                None => "?",
            };
            guild_line(data, d.guild_id, LogKind::Info, "[Integration] ", suffix(" > ", n))
        } else {
            no_lines()
        },
        DiscordEventMessage::MessageAck { d } => match data.channel_id.get(&d.channel_id.0) {
            Some(c) => {
                let mut t = owned("[Message ack] > ");
                push_str(&mut t, c.as_str());
                push_str(&mut t, " > ");
                push_str(&mut t, buffer.get_message(d.message_id));
                single(LogKind::Info, t)
            },
            None => no_lines(),
        },
        _ => {
            let r = no_lines();
            assert(lines_view(r@) == event_lines(*ev, *cfg, *data, buffer@, clock@));
            r
        },
    }
}

/// What a dispatched event gives the console logger: what the ready payload gave, whether
/// the raw supplemental payload is written, whether the raw event goes to the to-do dump,
/// the console lines, and what a message gave.
pub struct DispatchOutcome {
    pub ready: Option<ReadyOutcome>,
    pub write_supplemental: bool,
    pub todo: bool,
    pub lines: Vec<LogLine>,
    pub message: MessageOutcome,
}

/// `data1`, `gs1`, `last1`, `b1` and `r` are what dispatching event `ev` gives from
/// `data0`, `gs0`, `last0` and `b0` (see [`dispatch_event`]).
pub open spec fn dispatched(ev: DiscordEventMessage, cfg: Config, clock: Seq<char>, now_ms: i64, data0: DataId, data1: DataId,
    gs0: Seq<char>, gs1: Seq<char>, last0: Option<SnowflakeID>, last1: Option<SnowflakeID>, b0: BufferModel, b1: BufferModel,
    r: DispatchOutcome) -> bool {
    match ev {
        DiscordEventMessage::Ready { d } => {
            &&& r.ready matches Some(o) && ready_handled(*d, cfg, now_ms, data0, data1, gs0, gs1, o)
            &&& !r.write_supplemental && !r.todo
            &&& r.lines@.len() == 0
            &&& r.message is Ignored
            &&& last1 == last0
            &&& b1 == b0
        },
        DiscordEventMessage::ReadySupplemental => {
            &&& r.ready is None
            &&& r.write_supplemental == cfg.write_file.ready
            &&& !r.todo
            &&& lines_view(r.lines@) == one(LogKind::Info, "READY_SUPPLEMENTAL received"@)
            &&& r.message is Ignored
            &&& data1 == data0
            &&& gs1 == gs0
            &&& last1 == last0
            &&& b1 == b0
        },
        DiscordEventMessage::Resumed => {
            &&& r.ready is None
            &&& !r.write_supplemental && !r.todo
            &&& lines_view(r.lines@) == one(LogKind::Info, "Session RESUMED"@)
            &&& r.message is Ignored
            &&& data1 == data0
            &&& gs1 == gs0
            &&& last1 == last0
            &&& b1 == b0
        },
        _ => {
            &&& r.ready is None
            &&& !r.write_supplemental
            &&& r.todo == (!event_handled(ev) && cfg.write_file.todo_dump)
            &&& gs1 == gs0
            &&& event_received(ev, cfg, clock, data0, data1, last0, last1,
                b0, b1, DumpEventOutcome { handled: event_handled(ev), lines: r.lines, message: r.message })
        },
    }
}

/// Dispatches a gateway event: the ready payload is taken in (see
/// [`crate::dump_ready::handle_ready`]); the supplemental payload and a resumption are
/// announced; every other event is logged (see [`event_receive`]) and goes to the to-do
/// dump when the logger does not know it and that dump is written.
pub fn dispatch_event(ev: &DiscordEventMessage, data: &mut DataId, g_session_id: &mut String, cfg: &Config,
    last_channel_id: &mut Option<SnowflakeID>, buffer: &mut MessageBuffer, clock: &str, now_ms: i64) -> (r: DispatchOutcome)
    ensures
        dispatched(*ev, *cfg, clock@, now_ms, *old(data), *final(data), old(g_session_id)@, final(g_session_id)@,
            *old(last_channel_id), *final(last_channel_id), old(buffer)@, final(buffer)@, r),
{
    match ev {
        DiscordEventMessage::Ready { d } => {
            let o = handle_ready(d, data, g_session_id, cfg, now_ms);
            DispatchOutcome { ready: Some(o), write_supplemental: false, todo: false, lines: Vec::new(), message: MessageOutcome::Ignored }
        },
        DiscordEventMessage::ReadySupplemental => {
            DispatchOutcome {
                ready: None,
                write_supplemental: cfg.write_file.ready,
                todo: false,
                lines: single(LogKind::Info, owned("READY_SUPPLEMENTAL received")),
                message: MessageOutcome::Ignored,
            }
        },
        DiscordEventMessage::Resumed => {
            DispatchOutcome {
                ready: None,
                write_supplemental: false,
                todo: false,
                lines: single(LogKind::Info, owned("Session RESUMED")),
                message: MessageOutcome::Ignored,
            }
        },
        _ => {
            let o = event_receive(ev, data, last_channel_id, cfg, buffer, clock);
            let todo = !o.handled && cfg.write_file.todo_dump;
            DispatchOutcome { ready: None, write_supplemental: false, todo, lines: o.lines, message: o.message }
        },
    }
}

} // verus!
