use vstd::prelude::*;
use std::collections::VecDeque;
use crate::text::{owned, push_str};
use crate::state::str_eq;

verus! {

broadcast use vstd::seq_lib::group_seq_properties;

/// The kind of a console line, which gives its tag and colour.
#[derive(Clone, Copy, Debug, PartialEq, Eq, Structural)]
pub enum LogKind {
    Error,
    Warn,
    Info,
    MyMsg,
    Msg,
    Server,
    Dm,
    Delete,
    VoiceConnect,
    VoiceDisconnect,
    Login,
    /// Printed as it is on standard output, outside the log.
    Plain,
}

/// A line for the console.
pub struct LogLine {
    pub kind: LogKind,
    pub text: String,
}

/// Lines by their plain values.
pub open spec fn lines_view(v: Seq<LogLine>) -> Seq<(LogKind, Seq<char>)> {
    v.map_values(|l: LogLine| (l.kind, l.text@))
}

/// The tag of a kind of line.
pub open spec fn tag_text(k: LogKind) -> Seq<char> {
    match k {
        LogKind::Error => "Erreur"@,
        LogKind::Warn => "Avertissement"@,
        LogKind::Info => "Information"@,
        LogKind::MyMsg => "MyMsg"@,
        LogKind::Msg => "Msg"@,
        LogKind::Server => "Server"@,
        LogKind::Dm => "DM"@,
        LogKind::Delete => "Delete"@,
        LogKind::VoiceConnect => "Voice+"@,
        LogKind::VoiceDisconnect => "Voice-"@,
        LogKind::Login => "Login"@,
        LogKind::Plain => Seq::empty(),
    }
}

/// The terminal colour sequence of a kind of line.
pub open spec fn color_text(k: LogKind) -> Seq<char> {
    match k {
        LogKind::Error => "\x1B[31m"@,
        LogKind::Warn => "\x1B[33m"@,
        LogKind::Info => "\x1B[32m"@,
        LogKind::MyMsg => "\x1B[38;5;201m"@,
        LogKind::Msg => "\x1b[36m"@,
        LogKind::Server => "\x1b[34m"@,
        LogKind::Dm => "\x1B[35m"@,
        LogKind::Delete => "\x1B[31m"@,
        LogKind::VoiceConnect => "\x1B[38;5;10m"@,
        LogKind::VoiceDisconnect => "\x1B[38;5;9m"@,
        LogKind::Login => "\x1B[92m"@,
        LogKind::Plain => Seq::empty(),
    }
}

impl LogKind {
    /// The tag of this kind of line.
    pub fn tag(self) -> (r: &'static str)
        ensures
            r@ == tag_text(self),
    {
        proof {
            reveal_strlit("Erreur");
            reveal_strlit("Avertissement");
            reveal_strlit("Information");
            reveal_strlit("MyMsg");
            reveal_strlit("Msg");
            reveal_strlit("Server");
            reveal_strlit("DM");
            reveal_strlit("Delete");
            reveal_strlit("Voice+");
            reveal_strlit("Voice-");
            reveal_strlit("Login");
            reveal_strlit("");
        }
        match self {
            LogKind::Error => "Erreur",
            LogKind::Warn => "Avertissement",
            LogKind::Info => "Information",
            LogKind::MyMsg => "MyMsg",
            LogKind::Msg => "Msg",
            LogKind::Server => "Server",
            LogKind::Dm => "DM",
            LogKind::Delete => "Delete",
            LogKind::VoiceConnect => "Voice+",
            LogKind::VoiceDisconnect => "Voice-",
            LogKind::Login => "Login",
            LogKind::Plain => "",
        }
    }

    /// The colour sequence of this kind of line.
    pub fn color(self) -> (r: &'static str)
        ensures
            r@ == color_text(self),
    {
        match self {
            LogKind::Error => "\x1B[31m",
            LogKind::Warn => "\x1B[33m",
            LogKind::Info => "\x1B[32m",
            LogKind::MyMsg => "\x1B[38;5;201m",
            LogKind::Msg => "\x1b[36m",
            LogKind::Server => "\x1b[34m",
            LogKind::Dm => "\x1B[35m",
            LogKind::Delete => "\x1B[31m",
            LogKind::VoiceConnect => "\x1B[38;5;10m",
            LogKind::VoiceDisconnect => "\x1B[38;5;9m",
            LogKind::Login => "\x1B[92m",
            LogKind::Plain => {
                proof {
                    reveal_strlit("");
                }
                ""
            },
        }
    }
}

/// A line of kind `kind` with text `text`.
pub fn log_line(kind: LogKind, text: String) -> (r: LogLine)
    ensures
        r.kind == kind,
        r.text@ == text@,
{
    LogLine { kind, text }
}

/// The statuses that a login line reports.
pub open spec fn login_status(status: Seq<char>) -> bool {
    status == "online"@ || status == "offline"@ || status == "idle"@ || status == "dnd"@ || status == "invisible"@
}

/// The login line of a client in a status: `client: status`, only for the statuses that
/// [`login_status`] accepts.
pub open spec fn login_line(client: Seq<char>, status: Seq<char>) -> Seq<(LogKind, Seq<char>)> {
    if login_status(status) {
        seq![(LogKind::Login, client + ": "@ + status)]
    } else {
        Seq::empty()
    }
}

/// Appends the login line of `client` in `status` (see [`login_line`]).
pub fn push_login(out: &mut Vec<LogLine>, client: &str, status: &str)
    ensures
        lines_view(final(out)@) == lines_view(old(out)@) + login_line(client@, status@),
{
    let ghost before = out@;
    proof {
        reveal_strlit("online");
        reveal_strlit("offline");
        reveal_strlit("idle");
        reveal_strlit("dnd");
        reveal_strlit("invisible");
    }
    let known = str_eq(status, "online") || str_eq(status, "offline")
        || str_eq(status, "idle") || str_eq(status, "dnd")
        || str_eq(status, "invisible");
    if known {
        let mut t = owned(client);
        push_str(&mut t, ": ");
        push_str(&mut t, status);
        out.push(LogLine { kind: LogKind::Login, text: t });
        assert(lines_view(out@) =~= lines_view(before) + login_line(client@, status@));
    } else {
        assert(lines_view(out@) =~= lines_view(before) + login_line(client@, status@));
    }
}

/// The coloured word for a flag in voice lines.
pub open spec fn bool_state_text(b: bool) -> Seq<char> {
    if b { "\x1B[38;5;10mtrue\x1B[0m"@ } else { "\x1B[38;5;9mfalse\x1B[0m"@ }
}

/// The coloured word for a flag in voice lines.
pub fn bool_state(b: bool) -> (r: &'static str)
    ensures
        r@ == bool_state_text(b),
{
    if b { "\x1B[38;5;10mtrue\x1B[0m" } else { "\x1B[38;5;9mfalse\x1B[0m" }
}

/// How many lines the log keeps.
pub const LOG_CAP: usize = 1000;

/// The log of recent lines, oldest first, and whether the terminal is taken by the full
/// screen interface (then lines are not echoed).
pub struct LogState {
    pub ring: VecDeque<String>,
    pub tui: bool,
}

/// The log line for a line of kind `k` with text `msg` stamped `ts`: `ts [tag] msg`.
pub open spec fn log_entry(ts: Seq<char>, k: LogKind, msg: Seq<char>) -> Seq<char> {
    ts + " ["@ + tag_text(k) + "] "@ + msg
}

/// The echo on standard error of a line of kind `k` with text `msg`: coloured, then reset.
pub open spec fn echo_text(k: LogKind, msg: Seq<char>) -> Seq<char> {
    color_text(k) + "["@ + tag_text(k) + "] "@ + msg + "\x1B[0m"@
}

/// The log after a line is added: the oldest one goes when the log is full.
pub open spec fn ring_after(ring: Seq<Seq<char>>, line: Seq<char>) -> Seq<Seq<char>> {
    if ring.len() >= LOG_CAP { ring.drop_first().push(line) } else { ring.push(line) }
}

/// Lines by their text.
pub open spec fn texts(v: Seq<String>) -> Seq<Seq<char>> {
    v.map_values(|s: String| s@)
}

impl LogState {
    /// An empty log, echoing lines.
    pub fn new() -> (r: Self)
        ensures
            r.ring@.len() == 0,
            !r.tui,
    {
        LogState { ring: VecDeque::new(), tui: false }
    }

    /// The log never holds more than [`LOG_CAP`] lines.
    pub open spec fn well_formed(self) -> bool {
        self.ring@.len() <= LOG_CAP
    }

    /// Turns echoing off (the full screen interface owns the terminal) or on.
    pub fn set_tui_mode(&mut self, on: bool)
        ensures
            final(self).tui == on,
            final(self).ring@ == old(self).ring@,
    {
        self.tui = on;
    }

    /// Whether the full screen interface owns the terminal.
    pub fn tui_mode(&self) -> (r: bool)
        ensures
            r == self.tui,
    {
        self.tui
    }

    /// The lines of the log, oldest first.
    pub fn log_ring(&self) -> (r: &VecDeque<String>)
        ensures
            r@ == self.ring@,
    {
        &self.ring
    }

    /// Records a line of kind `kind` stamped `ts` (see [`log_entry`]); gives its echo for
    /// standard error unless the full screen interface owns the terminal.
    pub fn emit_log(&mut self, ts: &str, kind: LogKind, msg: &str) -> (r: Option<String>)
        requires
            old(self).well_formed(),
        ensures
            final(self).well_formed(),
            final(self).tui == old(self).tui,
            texts(final(self).ring@) == ring_after(texts(old(self).ring@), log_entry(ts@, kind, msg@)),
            match r {
                Some(e) => !old(self).tui && e@ == echo_text(kind, msg@),
                None => old(self).tui,
            },
    {
        let mut line = owned(ts);
        push_str(&mut line, " [");
        push_str(&mut line, kind.tag());
        push_str(&mut line, "] ");
        push_str(&mut line, msg);
        let ghost lv = line@;
        let ghost r0 = self.ring@;
        if self.ring.len() >= LOG_CAP {
            self.ring.pop_front();
            assert(texts(self.ring@) =~= texts(r0).drop_first());
        }
        let ghost r1 = self.ring@;
        self.ring.push_back(line);
        assert(texts(self.ring@) =~= texts(r1).push(lv));
        if self.tui {
            None
        } else {
            let mut e = owned(kind.color());
            push_str(&mut e, "[");
            push_str(&mut e, kind.tag());
            push_str(&mut e, "] ");
            push_str(&mut e, msg);
            push_str(&mut e, "\x1B[0m");
            Some(e)
        }
    }

    /// The last `max` lines of the log (all of them when it holds fewer), oldest first.
    pub fn recent_logs(&self, max: usize) -> (r: Vec<String>)
        ensures
            r@ == self.ring@.subrange(
                if self.ring@.len() > max { self.ring@.len() - max } else { 0 },
                self.ring@.len() as int,
            ),
    {
        let n = self.ring.len();
        let skip = if n > max { n - max } else { 0 };
        let mut out: Vec<String> = Vec::new();
        let mut i = skip;
        while i < n
            invariant
                skip <= i <= n,
                n == self.ring@.len(),
                out@ == self.ring@.subrange(skip as int, i as int),
            decreases n - i,
        {
            let s = self.ring[i].clone();
            out.push(s);
            assert(out@ =~= self.ring@.subrange(skip as int, i + 1));
            i += 1;
        }
        out
    }
}


/// The log keeps at most [`LOG_CAP`] lines, and the line just added is the newest.
pub proof fn law_log_keeps_newest(ring: Seq<Seq<char>>, line: Seq<char>)
    requires
        ring.len() <= LOG_CAP,
    ensures
        ring_after(ring, line).len() <= LOG_CAP,
        ring_after(ring, line).last() == line,
        ring.len() < LOG_CAP ==> ring_after(ring, line).drop_last() == ring,
{
    if ring.len() < LOG_CAP {
        assert(ring_after(ring, line).drop_last() =~= ring);
    }
}

} // verus!
