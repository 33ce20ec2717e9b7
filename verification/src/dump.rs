use vstd::prelude::*;
use std::collections::HashMap;
use crate::config::Config;
use crate::console::{LogKind, LogLine, lines_view, texts};
use crate::dump_format::{
    MediaSave, attachment_text, get_all_attachments, get_reply_to, media_saves, parse_timestamp,
    reply_text, saves_view, stamp_text, type_filed, type_text,
};
use crate::message_buffer::{BufferModel, MessageBuffer};
use crate::receive_struct::message_create::MessageCreateData;
use crate::snowflake::SnowflakeID;
use crate::text::{owned, push_str};

verus! {

broadcast use vstd::seq_lib::group_seq_properties;

/// What the console logger knows of the account: guild, channel and DM names by id, the
/// mute marks of guilds and channels, the users whose messages are watched, and the session.
pub struct DataId {
    pub guild_id: HashMap<u64, String>,
    pub channel_id: HashMap<u64, String>,
    pub dm_dump_hashmap: HashMap<u64, String>,
    pub muted_server: HashMap<u64, String>,
    pub username: Vec<SnowflakeID>,
    pub session_id: String,
    pub resume_gateway: String,
}

impl DataId {
    /// Nothing known yet but the watched users.
    pub fn new(watched: Vec<SnowflakeID>) -> (r: Self)
        ensures
            r.guild_id@ == Map::<u64, String>::empty(),
            r.channel_id@ == Map::<u64, String>::empty(),
            r.dm_dump_hashmap@ == Map::<u64, String>::empty(),
            r.muted_server@ == Map::<u64, String>::empty(),
            r.username@ == watched@,
            r.session_id@.len() == 0,
            r.resume_gateway@.len() == 0,
    {
        DataId {
            guild_id: HashMap::new(),
            channel_id: HashMap::new(),
            dm_dump_hashmap: HashMap::new(),
            muted_server: HashMap::new(),
            username: watched,
            session_id: String::new(),
            resume_gateway: String::new(),
        }
    }

    /// Forgets the names, marks, watched users and session id (the resume address stays).
    pub fn clear(&mut self)
        ensures
            final(self).guild_id@ == Map::<u64, String>::empty(),
            final(self).channel_id@ == Map::<u64, String>::empty(),
            final(self).dm_dump_hashmap@ == Map::<u64, String>::empty(),
            final(self).muted_server@ == Map::<u64, String>::empty(),
            final(self).username@.len() == 0,
            final(self).session_id@.len() == 0,
            final(self).resume_gateway == old(self).resume_gateway,
    {
        self.guild_id.clear();
        self.channel_id.clear();
        self.dm_dump_hashmap.clear();
        self.muted_server.clear();
        self.username.clear();
        self.session_id = String::new();
    }
}

/// The text of key `k` of `m`, else `d`.
pub open spec fn name_or(m: Map<u64, String>, k: u64, d: Seq<char>) -> Seq<char> {
    if m.contains_key(k) { m[k]@ } else { d }
}

/// The text of key `k` of `m`, else `d`.
pub fn get_or(m: &HashMap<u64, String>, k: u64, d: &str) -> (r: String)
    ensures
        r@ == name_or(m@, k, d@),
{
    match m.get(&k) {
        Some(s) => s.clone(),
        None => owned(d),
    }
}

/// The text shown for a message: the system line of pins, joins and boosts, else its content.
pub open spec fn shown_content(msg: MessageCreateData) -> Seq<char> {
    match type_text(msg.type_field) {
        Some(t) => t,
        None => msg.content@,
    }
}

/// The mark of an edited message, or a space.
pub open spec fn edited_mark(msg: MessageCreateData) -> Seq<char> {
    if msg.edited_timestamp is None { " "@ } else { " [Update] "@ }
}

/// The console line of a direct message: muted mark, reply, time, author, edit mark,
/// text and what it carries.
pub open spec fn dm_line(msg: MessageCreateData) -> Seq<char> {
    "\t"@ + (if msg.flags == 4096 { "[Muted] "@ } else { Seq::<char>::empty() }) + reply_text(msg) + "("@
        + stamp_text(msg.timestamp@) + ") "@ + msg.author.username@ + ":"@ + edited_mark(msg)
        + shown_content(msg) + attachment_text(msg)
}

/// The file of a DM log, by the DM's name (`unknown` for an empty name).
pub open spec fn dm_file_name(name: Seq<char>) -> Seq<char> {
    if name.len() == 0 { "unknown"@ } else { name }
}

/// What a direct message gives: the DM log it goes to and the texts appended to it, the
/// console lines, the files to save, and the links whose images are shown.
pub struct DmOutcome {
    pub log_name: String,
    pub file_texts: Vec<String>,
    pub lines: Vec<LogLine>,
    pub saves: Vec<MediaSave>,
    pub show: Option<String>,
}

/// The DM name of a message's channel: the known one, else its author's user name.
pub open spec fn dm_name_of(dms: Map<u64, String>, msg: MessageCreateData) -> Seq<char> {
    name_or(dms, msg.channel_id.0, msg.author.username@)
}

/// The links of a message to show as images: what it carries, when anything.
pub open spec fn shown_links(msg: MessageCreateData) -> Option<Seq<char>> {
    if attachment_text(msg).len() > 0 { Some(attachment_text(msg)) } else { None }
}

/// `after`, `b1` and `r` are what logging direct message `msg` gives from `before` and
/// `b0` (see [`dm_message`]).
pub open spec fn dm_logged(msg: MessageCreateData, before: DataId, after: DataId, download_media: bool, b0: BufferModel, b1: BufferModel, r: DmOutcome) -> bool {
    let dms = before.dm_dump_hashmap@;
    let ch = msg.channel_id.0;
    let name = dm_name_of(dms, msg);
    &&& (if dms.contains_key(ch) {
        after.dm_dump_hashmap@ == dms
    } else {
        &&& after.dm_dump_hashmap@ == dms.insert(ch, after.dm_dump_hashmap@[ch])
        &&& after.dm_dump_hashmap@[ch]@ == msg.author.username@
    })
    &&& after == (DataId { dm_dump_hashmap: after.dm_dump_hashmap, ..before })
    &&& r.log_name@ == dm_file_name(name)
    &&& if msg.call is Some {
        &&& texts(r.file_texts@) == seq!["[DM CALL START]"@]
        &&& r.lines@.len() == 0
        &&& r.saves@.len() == 0
        &&& r.show is None
        &&& b1 == b0
    } else {
        let header = "\n[DM] > "@ + name;
        &&& texts(r.file_texts@) == seq![header, "     "@ + dm_line(msg)]
        &&& lines_view(r.lines@) == seq![(LogKind::Dm, header), (LogKind::Dm, dm_line(msg))]
        &&& saves_view(r.saves@) == (if download_media { media_saves(msg) } else { Seq::empty() })
        &&& match r.show { Some(s) => shown_links(msg) == Some(s@), None => shown_links(msg) is None }
        &&& b1 == b0.add(msg.id.0, dm_line(msg))
    }
}

/// Logs a direct message: its channel gets the author's name when it has none; a call
/// start is only noted in the DM log; else the header and the line go to the DM log and the
/// console, the line is kept in the buffer, and the files to save and links to show are
/// given.
pub fn dm_message(msg: &MessageCreateData, data: &mut DataId, download_media: bool, buffer: &mut MessageBuffer)
    -> (r: DmOutcome)
    ensures
        dm_logged(*msg, *old(data), *final(data), download_media, old(buffer)@, final(buffer)@, r),
{
    let ch = msg.channel_id.0;
    let name: String = match data.dm_dump_hashmap.get(&ch) {
        Some(n) => n.clone(),
        None => {
            data.dm_dump_hashmap.insert(ch, msg.author.username.clone());
            msg.author.username.clone()
        },
    };
    let log_name = if name.as_str().is_empty() { owned("unknown") } else { name.clone() };
    if msg.call.is_some() {
        let mut file_texts: Vec<String> = Vec::new();
        file_texts.push(owned("[DM CALL START]"));
        proof {
            assert(texts(file_texts@) =~= seq!["[DM CALL START]"@]);
        }
        return DmOutcome { log_name, file_texts, lines: Vec::new(), saves: Vec::new(), show: None };
    }
    let mut header = owned("\n[DM] > ");
    push_str(&mut header, name.as_str());
    let (attachment, saves) = get_all_attachments(msg, download_media);
    let reply = get_reply_to(msg);
    let content: String = match type_filed(msg.type_field) {
        Some(t) => t,
        None => msg.content.clone(),
    };
    let mut line = owned("\t");
    if msg.flags == 4096 {
        push_str(&mut line, "[Muted] ");
    }
    push_str(&mut line, reply.as_str());
    push_str(&mut line, "(");
    let ts = parse_timestamp(msg.timestamp.as_str());
    push_str(&mut line, ts.as_str());
    push_str(&mut line, ") ");
    push_str(&mut line, msg.author.username.as_str());
    push_str(&mut line, ":");
    if msg.edited_timestamp.is_none() {
        push_str(&mut line, " ");
    } else {
        push_str(&mut line, " [Update] ");
    }
    push_str(&mut line, content.as_str());
    push_str(&mut line, attachment.as_str());
    proof {
        assert(line@ =~= dm_line(*msg));
    }
    let mut filed = owned("     ");
    push_str(&mut filed, line.as_str());
    let mut file_texts: Vec<String> = Vec::new();
    file_texts.push(header.clone());
    file_texts.push(filed);
    let mut lines: Vec<LogLine> = Vec::new();
    lines.push(LogLine { kind: LogKind::Dm, text: header });
    lines.push(LogLine { kind: LogKind::Dm, text: line.clone() });
    let show = if attachment.as_str().is_empty() { None } else { Some(attachment) };
    buffer.add_message(msg.id, line);
    proof {
        assert(texts(file_texts@) =~= seq!["\n[DM] > "@ + name@, "     "@ + dm_line(*msg)]);
        assert(lines_view(lines@) =~= seq![(LogKind::Dm, "\n[DM] > "@ + name@), (LogKind::Dm, dm_line(*msg))]);
    }
    DmOutcome { log_name, file_texts, lines, saves, show }
}

/// The line that names where a server message was posted: the guild's mute mark and name,
/// then the channel's (placeholders for unknown ones).
pub open spec fn server_header(data: DataId, msg: MessageCreateData) -> Seq<char> {
    let g = match msg.guild_id {
        Some(g) => g.0,
        None => 0,
    };
    let c = msg.channel_id.0;
    "\n"@ + name_or(data.muted_server@, g, Seq::empty()) + " "@ + name_or(data.guild_id@, g, "no guild id"@) + " > "@
        + name_or(data.muted_server@, c, Seq::empty()) + " "@ + name_or(data.channel_id@, c, "no channel id"@)
}

/// The text shown for a server message: as for a direct message, and for an empty
/// answer to a command, who asked for which command.
pub open spec fn server_content(msg: MessageCreateData) -> Seq<char> {
    let c = shown_content(msg);
    match msg.interaction {
        Some(i) if c.len() == 0 => " "@ + i.user.username@ + " -> Ask ["@ + i.name@ + "]"@,
        _ => c,
    }
}

/// The console line of a server message: reply, time, author with a bot mark, edit mark,
/// text and what it carries.
pub open spec fn server_line(msg: MessageCreateData) -> Seq<char> {
    "\t"@ + reply_text(msg) + "("@ + stamp_text(msg.timestamp@) + ") "@ + msg.author.username@
        + (if msg.author.bot == Some(true) { " [BOT]"@ } else { Seq::<char>::empty() }) + ":"@ + edited_mark(msg)
        + server_content(msg) + attachment_text(msg)
}

/// What a server message gives: the lines for the tracking file, the console lines, the
/// files to save, and the links whose images are shown.
pub struct ServerOutcome {
    pub tracking: Vec<String>,
    pub lines: Vec<LogLine>,
    pub saves: Vec<MediaSave>,
    pub show: Option<String>,
}

/// `true` when `id` is one of the watched users.
pub fn watched_user(users: &Vec<SnowflakeID>, id: SnowflakeID) -> (r: bool)
    ensures
        r == users@.contains(id),
{
    let mut i: usize = 0;
    while i < users.len()
        invariant
            0 <= i <= users.len(),
            forall|j: int| 0 <= j < i ==> users@[j] != id,
        decreases users.len() - i,
    {
        if users[i].0 == id.0 {
            assert(users@[i as int] == id);
            return true;
        }
        i += 1;
    }
    false
}

/// `b1` and `r` are what logging server message `msg` gives from `data` and `b0` (see
/// [`normal_message`]).
pub open spec fn server_logged(msg: MessageCreateData, data: DataId, same_channel: bool, download_media: bool, b0: BufferModel, b1: BufferModel, r: ServerOutcome) -> bool {
    let header = if same_channel { Seq::<char>::empty() } else { server_header(data, msg) };
    let watched = data.username@.contains(msg.author.id);
    &&& lines_view(r.lines@) == (if same_channel { Seq::empty() } else { seq![(LogKind::Server, header)] })
        + seq![(if watched { LogKind::MyMsg } else { LogKind::Msg }, server_line(msg))]
    &&& texts(r.tracking@) == (if watched { seq![header, "     "@ + server_line(msg)] } else { Seq::empty() })
    &&& saves_view(r.saves@) == (if download_media { media_saves(msg) } else { Seq::empty() })
    &&& match r.show { Some(s) => shown_links(msg) == Some(s@), None => shown_links(msg) is None }
    &&& b1 == b0.add(msg.id.0, server_line(msg))
}

/// Logs a server message: a header naming the guild and channel unless the previous
/// message was in the same channel (`same_channel`), then the line, marked as the user's
/// own when a watched user wrote it (then both also go to the tracking file); the line is
/// kept in the buffer, and the files to save and links to show are given.
pub fn normal_message(msg: &MessageCreateData, data: &DataId, same_channel: bool, download_media: bool, buffer: &mut MessageBuffer)
    -> (r: ServerOutcome)
    ensures
        server_logged(*msg, *data, same_channel, download_media, old(buffer)@, final(buffer)@, r),
{
    let (attachment, saves) = get_all_attachments(msg, download_media);
    let reply = get_reply_to(msg);
    let mut lines: Vec<LogLine> = Vec::new();
    let mut header = String::new();
    if !same_channel {
        let g: u64 = match msg.guild_id {
            Some(g) => g.0,
            None => 0,
        };
        let c = msg.channel_id.0;
        header = owned("\n");
        let mg = get_or(&data.muted_server, g, "");
        push_str(&mut header, mg.as_str());
        push_str(&mut header, " ");
        let gn = get_or(&data.guild_id, g, "no guild id");
        push_str(&mut header, gn.as_str());
        push_str(&mut header, " > ");
        let mc = get_or(&data.muted_server, c, "");
        push_str(&mut header, mc.as_str());
        push_str(&mut header, " ");
        let cn = get_or(&data.channel_id, c, "no channel id");
        push_str(&mut header, cn.as_str());
        proof {
            reveal_strlit("");
            assert(header@ =~= server_header(*data, *msg));
        }
        lines.push(LogLine { kind: LogKind::Server, text: header.clone() });
    }
    let mut content: String = match type_filed(msg.type_field) {
        Some(t) => t,
        None => msg.content.clone(),
    };
    match &msg.interaction {
        Some(i) => {
            if content.as_str().is_empty() {
                content = owned(" ");
                push_str(&mut content, i.user.username.as_str());
                push_str(&mut content, " -> Ask [");
                push_str(&mut content, i.name.as_str());
                push_str(&mut content, "]");
            }
        },
        None => {},
    }
    let mut line = owned("\t");
    push_str(&mut line, reply.as_str());
    push_str(&mut line, "(");
    let ts = parse_timestamp(msg.timestamp.as_str());
    push_str(&mut line, ts.as_str());
    push_str(&mut line, ") ");
    push_str(&mut line, msg.author.username.as_str());
    if msg.author.bot == Some(true) {
        push_str(&mut line, " [BOT]");
    }
    push_str(&mut line, ":");
    if msg.edited_timestamp.is_none() {
        push_str(&mut line, " ");
    } else {
        push_str(&mut line, " [Update] ");
    }
    push_str(&mut line, content.as_str());
    push_str(&mut line, attachment.as_str());
    proof {
        assert(line@ =~= server_line(*msg));
    }
    let ghost l0 = lines@;
    let watched = watched_user(&data.username, msg.author.id);
    let mut tracking: Vec<String> = Vec::new();
    if watched {
        tracking.push(header);
        let mut filed = owned("     ");
        push_str(&mut filed, line.as_str());
        tracking.push(filed);
        lines.push(LogLine { kind: LogKind::MyMsg, text: line.clone() });
    } else {
        lines.push(LogLine { kind: LogKind::Msg, text: line.clone() });
    }
    let show = if attachment.as_str().is_empty() { None } else { Some(attachment) };
    buffer.add_message(msg.id, line);
    proof {
        let header_v = if same_channel { Seq::<char>::empty() } else { server_header(*data, *msg) };
        assert(lines_view(l0) =~= (if same_channel { Seq::empty() } else { seq![(LogKind::Server, header_v)] }));
        assert(lines_view(lines@) =~= lines_view(l0) + seq![(if watched { LogKind::MyMsg } else { LogKind::Msg }, server_line(*msg))]);
        assert(texts(tracking@) =~= (if watched { seq![header_v, "     "@ + server_line(*msg)] } else { Seq::empty() }));
    }
    ServerOutcome { tracking, lines, saves, show }
}

/// What a message event gives.
pub enum MessageOutcome {
    Ignored,
    Direct(DmOutcome),
    Server(ServerOutcome),
}

/// `true` when the DM filter lets channel `c` through: no filter, or `c` is in it.
pub open spec fn dm_followed(filter: Seq<SnowflakeID>, c: SnowflakeID) -> bool {
    filter.len() == 0 || filter.contains(c)
}

/// `data1`, `last1`, `b1` and `r` are what routing message `d` gives from `data0`,
/// `last0` and `b0` (see [`handle_message`]).
pub open spec fn message_routed(d: MessageCreateData, cfg: &Config, data0: DataId, data1: DataId, last0: Option<SnowflakeID>, last1: Option<SnowflakeID>, b0: BufferModel, b1: BufferModel, r: MessageOutcome) -> bool {
    &&& !cfg.event.message_create ==> {
        &&& r is Ignored
        &&& data1 == data0
        &&& last1 == last0
        &&& b1 == b0
    }
    &&& cfg.event.message_create && d.guild_id is None ==> {
        &&& last1 == None::<SnowflakeID>
        &&& if cfg.dm_track && dm_followed(cfg.dm_channel_id_tracking@, d.channel_id) {
            r matches MessageOutcome::Direct(o) && dm_logged(d, data0, data1, cfg.download_media, b0, b1, o)
        } else {
            &&& r is Ignored
            &&& data1 == data0
            &&& b1 == b0
        }
    }
    &&& cfg.event.message_create && d.guild_id is Some ==> {
        &&& data1 == data0
        &&& if cfg.server_track {
            &&& r matches MessageOutcome::Server(o) && server_logged(d, data0, match last0 {
                Some(c) => c == d.channel_id,
                None => false,
            }, cfg.download_media, b0, b1, o)
            &&& last1 == Some(d.channel_id)
        } else {
            &&& r is Ignored
            &&& last1 == last0
            &&& b1 == b0
        }
    }
}

/// Routes a created or edited message: nothing when messages are not reported; a direct
/// message (no guild) is logged when DMs are followed and the DM filter lets its channel
/// through, and breaks the run of server messages; a server message is logged when servers
/// are followed, with a header unless the last server message was in the same channel.
pub fn handle_message(d: &MessageCreateData, data: &mut DataId, last_channel_id: &mut Option<SnowflakeID>, cfg: &Config, buffer: &mut MessageBuffer)
    -> (r: MessageOutcome)
    ensures
        message_routed(*d, cfg, *old(data), *final(data), *old(last_channel_id), *final(last_channel_id), old(buffer)@, final(buffer)@, r),
{
    if !cfg.event.message_create {
        return MessageOutcome::Ignored;
    }
    match d.guild_id {
        None => {
            let followed = cfg.dm_channel_id_tracking.len() == 0 || watched_user(&cfg.dm_channel_id_tracking, d.channel_id);
            let r = if cfg.dm_track && followed {
                MessageOutcome::Direct(dm_message(d, data, cfg.download_media, buffer))
            } else {
                MessageOutcome::Ignored
            };
            *last_channel_id = None;
            r
        },
        Some(_) => {
            if cfg.server_track {
                let same = match *last_channel_id {
                    Some(c) => c.0 == d.channel_id.0,
                    None => false,
                };
                let o = normal_message(d, data, same, cfg.download_media, buffer);
                *last_channel_id = Some(d.channel_id);
                MessageOutcome::Server(o)
            } else {
                MessageOutcome::Ignored
            }
        },
    }
}

} // verus!
