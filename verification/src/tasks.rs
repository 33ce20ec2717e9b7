use vstd::prelude::*;
use crate::appstate::{AppState, Nav, Voice};
use crate::receive_struct::ready::{UserGuildSetting, UserGuildSettingsContainer};
use crate::text::{owned, push_str};

verus! {

/// A connection task of the client: the call, a watched stream, or the user's own broadcast.
#[derive(Clone, Copy, Debug, PartialEq, Eq, Structural)]
pub enum TaskKind {
    Voice,
    Stream,
    GoLive,
}

/// The voice status once a connection task has ended: its error, or that it ended.
pub open spec fn task_end_text(kind: TaskKind, outcome: Result<(), Seq<char>>) -> Seq<char> {
    match (kind, outcome) {
        (TaskKind::Voice, Err(e)) => "voice error: "@ + e,
        (TaskKind::Voice, Ok(_)) => "voice: disconnected"@,
        (TaskKind::Stream, Err(e)) => "stream error: "@ + e,
        (TaskKind::Stream, Ok(_)) => "stream: ended"@,
        (TaskKind::GoLive, Err(e)) => "Go Live error: "@ + e,
        (TaskKind::GoLive, Ok(_)) => "Go Live: ended"@,
    }
}

/// The view of a task outcome.
pub open spec fn outcome_view(o: Result<(), String>) -> Result<(), Seq<char>> {
    match o {
        Ok(_) => Ok(()),
        Err(e) => Err(e@),
    }
}

/// The text of the gateway connection while it is being re-established.
pub open spec fn reconnecting_text() -> Seq<char> {
    "reconnecting…"@
}

impl AppState {
    /// A connection task ended with `outcome` (the error's text on failure): the voice status
    /// says so (see [`task_end_text`]); nothing else changes.
    pub fn task_ended(&mut self, kind: TaskKind, outcome: Result<(), String>)
        ensures
            final(self).voice.voice_status@ == task_end_text(kind, outcome_view(outcome)),
            final(self).voice == (Voice { voice_status: final(self).voice.voice_status, ..old(self).voice }),
            *final(self) == (AppState { voice: final(self).voice, ..*old(self) }),
    {
        let text = match outcome {
            Err(e) => {
                let mut t = match kind {
                    TaskKind::Voice => owned("voice error: "),
                    TaskKind::Stream => owned("stream error: "),
                    TaskKind::GoLive => owned("Go Live error: "),
                };
                push_str(&mut t, e.as_str());
                t
            },
            Ok(()) => match kind {
                TaskKind::Voice => owned("voice: disconnected"),
                TaskKind::Stream => owned("stream: ended"),
                TaskKind::GoLive => owned("Go Live: ended"),
            },
        };
        self.voice.voice_status = text;
    }

    /// The gateway connection broke and is being re-established: the connection status says
    /// `reconnecting…`; nothing else changes.
    pub fn note_reconnecting(&mut self)
        ensures
            final(self).nav.conn_status@ == reconnecting_text(),
            final(self).nav == (Nav { conn_status: final(self).nav.conn_status, ..old(self).nav }),
            *final(self) == (AppState { nav: final(self).nav, ..*old(self) }),
    {
        self.nav.conn_status = owned("reconnecting…");
    }
}

/// The shape of the guild settings of a ready payload, as read from the JSON: a list whose
/// entries either read as settings or do not; an object, with its `entries`, `version` and
/// `partial` fields when present, or the error of a field that does not read; null; or
/// anything else.
pub enum SettingsShape {
    Array(Vec<Option<UserGuildSetting>>),
    Object(Result<(Option<Vec<UserGuildSetting>>, Option<i64>, Option<bool>), String>),
    Null,
    Other,
}

/// The entries of a list that read as settings, in order.
pub open spec fn readable(v: Seq<Option<UserGuildSetting>>) -> Seq<UserGuildSetting>
    decreases v.len(),
{
    if v.len() == 0 {
        Seq::empty()
    } else {
        match v.last() {
            Some(x) => readable(v.drop_last()).push(x),
            None => readable(v.drop_last()),
        }
    }
}

/// The error of guild settings that are neither a list, an object nor null.
pub open spec fn settings_shape_error() -> Seq<char> {
    "user_guild_settings: expected array or object"@
}

/// How the guild settings read: a list gives the entries that read, version 0, not partial;
/// an object gives its fields, each absent one as empty, 0 or not partial, or the error of
/// a field that does not read; null gives no entries, version 0, not partial; anything else
/// is an error.
pub open spec fn settings_read(shape: SettingsShape, r: Result<UserGuildSettingsContainer, String>) -> bool {
    match shape {
        SettingsShape::Array(v) => r matches Ok(c) && c.entries@ == readable(v@) && c.version == 0 && !c.partial,
        SettingsShape::Object(Ok((e, ver, part))) => r matches Ok(c) && c.entries@ == (match e {
            Some(x) => x@,
            None => Seq::empty(),
        }) && c.version == (match ver { Some(n) => n, None => 0 }) && c.partial == (match part {
            Some(b) => b,
            None => false,
        }),
        SettingsShape::Object(Err(msg)) => r matches Err(m) && m@ == msg@,
        SettingsShape::Null => r matches Ok(c) && c.entries@.len() == 0 && c.version == 0 && !c.partial,
        SettingsShape::Other => r matches Err(m) && m@ == settings_shape_error(),
    }
}

/// Reads the guild settings of a ready payload from their shape (see [`settings_read`]).
pub fn read_guild_settings(shape: SettingsShape) -> (r: Result<UserGuildSettingsContainer, String>)
    ensures
        settings_read(shape, r),
{
    match shape {
        SettingsShape::Array(v) => {
            let ghost s = v@;
            let mut entries: Vec<UserGuildSetting> = Vec::new();
            for x in it: v.into_iter()
                invariant
                    it.seq() == s,
                    entries@ == readable(it.seq().take(it.index() as int)),
            {
                proof {
                    assert(it.seq().take(it.index() + 1).drop_last() =~= it.seq().take(it.index() as int));
                }
                match x {
                    Some(e) => entries.push(e),
                    None => {},
                }
            }
            assert(s.take(s.len() as int) =~= s);
            Ok(UserGuildSettingsContainer { entries, version: 0, partial: false })
        },
        SettingsShape::Object(Ok((e, ver, part))) => {
            let entries = match e {
                Some(x) => x,
                None => Vec::new(),
            };
            let version = match ver {
                Some(n) => n,
                None => 0,
            };
            let partial = match part {
                Some(b) => b,
                None => false,
            };
            Ok(UserGuildSettingsContainer { entries, version, partial })
        },
        SettingsShape::Object(Err(msg)) => Err(msg),
        SettingsShape::Null => Ok(UserGuildSettingsContainer { entries: Vec::new(), version: 0, partial: false }),
        SettingsShape::Other => Err(owned("user_guild_settings: expected array or object")),
    }
}

} // verus!
