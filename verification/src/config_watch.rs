use vstd::prelude::*;
use crate::config::{Config, Event, WriteFile};
use crate::decimal::{dec, push_decimal};
use crate::dump_ready::bool_text;
use crate::snowflake::SnowflakeID;
use crate::state::str_eq;
use crate::text::{owned, push_str};

verus! {

broadcast use vstd::seq_lib::group_seq_properties;

/// A reported change of the settings: the console warning and the line for the tracking
/// file.
pub struct ConfigNote {
    pub warn: String,
    pub tracking: String,
}

/// Notes by their texts.
pub open spec fn notes_view(v: Seq<ConfigNote>) -> Seq<(Seq<char>, Seq<char>)> {
    v.map_values(|n: ConfigNote| (n.warn@, n.tracking@))
}

/// The note of a setting that went from `from` to `to`, when they differ.
pub open spec fn change_note(name: Seq<char>, differ: bool, from: Seq<char>, to: Seq<char>) -> Seq<(Seq<char>, Seq<char>)> {
    if differ {
        let t = name + " change from "@ + from + " to "@ + to;
        seq![(t, t)]
    } else {
        Seq::empty()
    }
}

/// The note of a flag.
pub open spec fn flag_note(name: Seq<char>, a: bool, b: bool) -> Seq<(Seq<char>, Seq<char>)> {
    change_note(name, a != b, bool_text(a), bool_text(b))
}

/// The notes of the watched DM ids, position by position: a changed id, an id only in the
/// old list (removed), then the ids only in the new list (added).
pub open spec fn id_notes(a: Seq<SnowflakeID>, b: Seq<SnowflakeID>) -> Seq<(Seq<char>, Seq<char>)> {
    let kept = Seq::new(a.len(), |i: int| if i < b.len() {
        if a[i] != b[i] {
            let t = "Changed("@ + dec(i as nat) + ", U64Change("@ + dec(a[i].0 as nat) + ", "@ + dec(b[i].0 as nat) + "))"@;
            seq![("UserIdTracking Changed "@ + t, "UserIdTracking change from "@ + t)]
        } else {
            Seq::empty()
        }
    } else {
        let t = "Removed("@ + dec(i as nat) + ", "@ + dec(a[i].0 as nat) + ")"@;
        seq![("UserIdTracking Removed "@ + t, "UserIdTracking change to "@ + t)]
    });
    let added = Seq::new(if b.len() > a.len() { (b.len() - a.len()) as nat } else { 0 }, |k: int| {
        let i = a.len() + k;
        let t = "Added("@ + dec(i as nat) + ", "@ + dec(b[i].0 as nat) + ")"@;
        seq![("UserIdTracking Added "@ + t, "UserIdTracking change to "@ + t)]
    });
    kept.flatten() + added.flatten()
}

/// The notes of the reported events, field by field.
pub open spec fn event_notes(a: Event, b: Event) -> Seq<(Seq<char>, Seq<char>)> {
    message_event_notes(a, b) + other_event_notes(a, b)
}

/// The notes of the reported message, session, presence and settings events.
pub open spec fn message_event_notes(a: Event, b: Event) -> Seq<(Seq<char>, Seq<char>)> {
    flag_note("MessageCreate"@, a.message_create, b.message_create)
        + flag_note("MessageDelete"@, a.message_delete, b.message_delete)
        + flag_note("SessionReplace"@, a.session_replace, b.session_replace)
        + flag_note("PresenceUpdate"@, a.presence_update, b.presence_update)
        + flag_note("UserSettingsUpdate"@, a.user_settings_update, b.user_settings_update)
}

/// The notes of the reported call, typing, voice and channel events.
pub open spec fn other_event_notes(a: Event, b: Event) -> Seq<(Seq<char>, Seq<char>)> {
    flag_note("CallDmCreate"@, a.call_dm_create, b.call_dm_create)
        + flag_note("CallDmDelete"@, a.call_dm_delete, b.call_dm_delete)
        + flag_note("TypingStart"@, a.typing_start, b.typing_start)
        + flag_note("VoiceStateUpdate"@, a.voice_state_update, b.voice_state_update)
        + flag_note("ChannelUpdate"@, a.channel_update, b.channel_update)
}

/// The notes of the written dumps, field by field.
pub open spec fn write_notes(a: WriteFile, b: WriteFile) -> Seq<(Seq<char>, Seq<char>)> {
    flag_note("Ready"@, a.ready, b.ready)
        + flag_note("ServerChannel"@, a.server_channel, b.server_channel)
        + flag_note("DmChannel"@, a.dm_channel, b.dm_channel)
        + flag_note("TodoDump"@, a.todo_dump, b.todo_dump)
        + flag_note("Tracking"@, a.tracking, b.tracking)
}

/// The notes of the first settings: the followed kinds of messages, the buffer size and
/// the token.
pub open spec fn head_notes(a: Config, b: Config) -> Seq<(Seq<char>, Seq<char>)> {
    flag_note("DmTrack"@, a.dm_track, b.dm_track)
        + flag_note("ServerTrack"@, a.server_track, b.server_track)
        + flag_note("Print Muted DM"@, a.print_muted_dm, b.print_muted_dm)
        + change_note("MessageBufferSize"@, a.message_buffer_size != b.message_buffer_size,
            dec(a.message_buffer_size as nat), dec(b.message_buffer_size as nat))
        + change_note("Token"@, a.token@ != b.token@, a.token@, b.token@)
}

/// The notes of a settings reload, in the order of the settings' fields (the audio devices
/// are not compared).
pub open spec fn config_notes(a: Config, b: Config) -> Seq<(Seq<char>, Seq<char>)> {
    head_notes(a, b)
        + id_notes(a.dm_channel_id_tracking@, b.dm_channel_id_tracking@)
        + flag_note("TrackMyself"@, a.track_myself, b.track_myself)
        + event_notes(a.event, b.event)
        + flag_note("DownloadMedia"@, a.download_media, b.download_media)
        + write_notes(a.write_file, b.write_file)
        + flag_note("Print Debug"@, a.debug, b.debug)
}

fn push_change(out: &mut Vec<ConfigNote>, name: &str, differ: bool, from: &str, to: &str)
    ensures
        notes_view(final(out)@) == notes_view(old(out)@) + change_note(name@, differ, from@, to@),
{
    let ghost before = notes_view(out@);
    if differ {
        let mut t = owned(name);
        push_str(&mut t, " change from ");
        push_str(&mut t, from);
        push_str(&mut t, " to ");
        push_str(&mut t, to);
        out.push(ConfigNote { warn: t.clone(), tracking: t });
    }
    assert(notes_view(out@) =~= before + change_note(name@, differ, from@, to@));
}

fn flag_word(b: bool) -> (r: &'static str)
    ensures
        r@ == bool_text(b),
{
    proof {
        reveal_strlit("true");
        reveal_strlit("false");
    }
    if b { "true" } else { "false" }
}

fn push_flag(out: &mut Vec<ConfigNote>, name: &str, a: bool, b: bool)
    ensures
        notes_view(final(out)@) == notes_view(old(out)@) + flag_note(name@, a, b),
{
    push_change(out, name, a != b, flag_word(a), flag_word(b));
}

fn push_id_notes(out: &mut Vec<ConfigNote>, a: &Vec<SnowflakeID>, b: &Vec<SnowflakeID>)
    ensures
        notes_view(final(out)@) == notes_view(old(out)@) + id_notes(a@, b@),
{
    let ghost n0 = notes_view(out@);
    let ghost kept = Seq::new(a@.len(), |i: int| if i < b@.len() {
        if a@[i] != b@[i] {
            let t = "Changed("@ + dec(i as nat) + ", U64Change("@ + dec(a@[i].0 as nat) + ", "@ + dec(b@[i].0 as nat) + "))"@;
            seq![("UserIdTracking Changed "@ + t, "UserIdTracking change from "@ + t)]
        } else {
            Seq::empty()
        }
    } else {
        let t = "Removed("@ + dec(i as nat) + ", "@ + dec(a@[i].0 as nat) + ")"@;
        seq![("UserIdTracking Removed "@ + t, "UserIdTracking change to "@ + t)]
    });
    let mut i: usize = 0;
    while i < a.len()
        invariant
            0 <= i <= a.len(),
            kept.len() == a@.len(),
            forall|j: int| 0 <= j < a@.len() ==> #[trigger] kept[j] == (if j < b@.len() {
                if a@[j] != b@[j] {
                    let t = "Changed("@ + dec(j as nat) + ", U64Change("@ + dec(a@[j].0 as nat) + ", "@ + dec(b@[j].0 as nat) + "))"@;
                    seq![("UserIdTracking Changed "@ + t, "UserIdTracking change from "@ + t)]
                } else {
                    Seq::empty()
                }
            } else {
                let t = "Removed("@ + dec(j as nat) + ", "@ + dec(a@[j].0 as nat) + ")"@;
                seq![("UserIdTracking Removed "@ + t, "UserIdTracking change to "@ + t)]
            }),
            notes_view(out@) == n0 + kept.take(i as int).flatten(),
        decreases a.len() - i,
    {
        let ghost before = notes_view(out@);
        if i < b.len() {
            if a[i].0 != b[i].0 {
                let mut t = owned("Changed(");
                push_decimal(&mut t, i as u64);
                push_str(&mut t, ", U64Change(");
                push_decimal(&mut t, a[i].0);
                push_str(&mut t, ", ");
                push_decimal(&mut t, b[i].0);
                push_str(&mut t, "))");
                let mut w = owned("UserIdTracking Changed ");
                push_str(&mut w, t.as_str());
                let mut k = owned("UserIdTracking change from ");
                push_str(&mut k, t.as_str());
                out.push(ConfigNote { warn: w, tracking: k });
            }
        } else {
            let mut t = owned("Removed(");
            push_decimal(&mut t, i as u64);
            push_str(&mut t, ", ");
            push_decimal(&mut t, a[i].0);
            push_str(&mut t, ")");
            let mut w = owned("UserIdTracking Removed ");
            push_str(&mut w, t.as_str());
            let mut k = owned("UserIdTracking change to ");
            push_str(&mut k, t.as_str());
            out.push(ConfigNote { warn: w, tracking: k });
        }
        proof {
            assert(kept.take(i + 1) =~= kept.take(i as int).push(kept[i as int]));
            kept.take(i as int).lemma_flatten_push(kept[i as int]);
            assert(notes_view(out@) =~= before + kept[i as int]);
        }
        i += 1;
    }
    assert(kept.take(a.len() as int) =~= kept);
    let ghost n1 = notes_view(out@);
    let ghost extra: nat = if b@.len() > a@.len() { (b@.len() - a@.len()) as nat } else { 0 };
    let ghost added = Seq::new(extra, |k: int| {
        let i = a@.len() + k;
        let t = "Added("@ + dec(i as nat) + ", "@ + dec(b@[i].0 as nat) + ")"@;
        seq![("UserIdTracking Added "@ + t, "UserIdTracking change to "@ + t)]
    });
    let mut j: usize = a.len();
    while j < b.len()
        invariant
            a.len() <= j <= b.len() || (j == a.len() && b.len() <= a.len()),
            added.len() == extra,
            extra == (if b@.len() > a@.len() { (b@.len() - a@.len()) as nat } else { 0nat }),
            forall|k: int| 0 <= k < extra ==> #[trigger] added[k] == {
                let i = a@.len() + k;
                let t = "Added("@ + dec(i as nat) + ", "@ + dec(b@[i].0 as nat) + ")"@;
                seq![("UserIdTracking Added "@ + t, "UserIdTracking change to "@ + t)]
            },
            notes_view(out@) == n1 + added.take(j - a.len()).flatten(),
        decreases b.len() - j,
    {
        let ghost before = notes_view(out@);
        let mut t = owned("Added(");
        push_decimal(&mut t, j as u64);
        push_str(&mut t, ", ");
        push_decimal(&mut t, b[j].0);
        push_str(&mut t, ")");
        let mut w = owned("UserIdTracking Added ");
        push_str(&mut w, t.as_str());
        let mut k = owned("UserIdTracking change to ");
        push_str(&mut k, t.as_str());
        out.push(ConfigNote { warn: w, tracking: k });
        proof {
            let kk = j - a.len();
            assert(added.take(kk + 1) =~= added.take(kk).push(added[kk]));
            added.take(kk).lemma_flatten_push(added[kk]);
            assert(notes_view(out@) =~= before + added[kk]);
        }
        j += 1;
    }
    proof {
        assert(added.take(j - a.len()) =~= added);
        assert(notes_view(out@) =~= n0 + (kept.flatten() + added.flatten()));
    }
}

fn head_of(a: &Config, b: &Config) -> (r: Vec<ConfigNote>)
    ensures
        notes_view(r@) == head_notes(*a, *b),
{
    let mut out: Vec<ConfigNote> = Vec::new();
    push_flag(&mut out, "DmTrack", a.dm_track, b.dm_track);
    assert(notes_view(out@) =~= flag_note("DmTrack"@, a.dm_track, b.dm_track));
    push_flag(&mut out, "ServerTrack", a.server_track, b.server_track);
    push_flag(&mut out, "Print Muted DM", a.print_muted_dm, b.print_muted_dm);
    let mut x = String::new();
    push_decimal(&mut x, a.message_buffer_size as u64);
    let mut y = String::new();
    push_decimal(&mut y, b.message_buffer_size as u64);
    assert(x@ =~= dec(a.message_buffer_size as nat));
    assert(y@ =~= dec(b.message_buffer_size as nat));
    push_change(&mut out, "MessageBufferSize", a.message_buffer_size != b.message_buffer_size, x.as_str(), y.as_str());
    push_change(&mut out, "Token", !str_eq(a.token.as_str(), b.token.as_str()), a.token.as_str(), b.token.as_str());
    out
}

fn event_notes_of(a: &Event, b: &Event) -> (r: Vec<ConfigNote>)
    ensures
        notes_view(r@) == event_notes(*a, *b),
{
    let mut out: Vec<ConfigNote> = Vec::new();
    push_flag(&mut out, "MessageCreate", a.message_create, b.message_create);
    assert(notes_view(out@) =~= flag_note("MessageCreate"@, a.message_create, b.message_create));
    push_flag(&mut out, "MessageDelete", a.message_delete, b.message_delete);
    push_flag(&mut out, "SessionReplace", a.session_replace, b.session_replace);
    push_flag(&mut out, "PresenceUpdate", a.presence_update, b.presence_update);
    push_flag(&mut out, "UserSettingsUpdate", a.user_settings_update, b.user_settings_update);
    append_notes(&mut out, other_event_notes_of(a, b));
    out
}

fn other_event_notes_of(a: &Event, b: &Event) -> (r: Vec<ConfigNote>)
    ensures
        notes_view(r@) == other_event_notes(*a, *b),
{
    let mut out: Vec<ConfigNote> = Vec::new();
    push_flag(&mut out, "CallDmCreate", a.call_dm_create, b.call_dm_create);
    assert(notes_view(out@) =~= flag_note("CallDmCreate"@, a.call_dm_create, b.call_dm_create));
    push_flag(&mut out, "CallDmDelete", a.call_dm_delete, b.call_dm_delete);
    push_flag(&mut out, "TypingStart", a.typing_start, b.typing_start);
    push_flag(&mut out, "VoiceStateUpdate", a.voice_state_update, b.voice_state_update);
    push_flag(&mut out, "ChannelUpdate", a.channel_update, b.channel_update);
    out
}

fn write_notes_of(a: &WriteFile, b: &WriteFile) -> (r: Vec<ConfigNote>)
    ensures
        notes_view(r@) == write_notes(*a, *b),
{
    let mut out: Vec<ConfigNote> = Vec::new();
    push_flag(&mut out, "Ready", a.ready, b.ready);
    assert(notes_view(out@) =~= flag_note("Ready"@, a.ready, b.ready));
    push_flag(&mut out, "ServerChannel", a.server_channel, b.server_channel);
    push_flag(&mut out, "DmChannel", a.dm_channel, b.dm_channel);
    push_flag(&mut out, "TodoDump", a.todo_dump, b.todo_dump);
    push_flag(&mut out, "Tracking", a.tracking, b.tracking);
    out
}

fn append_notes(out: &mut Vec<ConfigNote>, more: Vec<ConfigNote>)
    ensures
        notes_view(final(out)@) == notes_view(old(out)@) + notes_view(more@),
{
    let ghost before = out@;
    let mut more = more;
    let ghost m = more@;
    out.append(&mut more);
    assert(notes_view(out@) =~= notes_view(before) + notes_view(m));
}

/// The notes of a settings reload (see [`config_notes`]): each setting whose value changed,
/// with its old and new value.
pub fn config_change(a: &Config, b: &Config) -> (r: Vec<ConfigNote>)
    ensures
        notes_view(r@) == config_notes(*a, *b),
{
    let mut out = head_of(a, b);
    push_id_notes(&mut out, &a.dm_channel_id_tracking, &b.dm_channel_id_tracking);
    push_flag(&mut out, "TrackMyself", a.track_myself, b.track_myself);
    append_notes(&mut out, event_notes_of(&a.event, &b.event));
    push_flag(&mut out, "DownloadMedia", a.download_media, b.download_media);
    append_notes(&mut out, write_notes_of(&a.write_file, &b.write_file));
    push_flag(&mut out, "Print Debug", a.debug, b.debug);
    out
}


/// Reloading settings that did not change reports nothing.
pub proof fn law_unchanged_settings_are_silent(a: Config)
    ensures
        config_notes(a, a) == Seq::<(Seq<char>, Seq<char>)>::empty(),
{
    let ids = a.dm_channel_id_tracking@;
    let kept = Seq::new(ids.len(), |i: int| if i < ids.len() {
        if ids[i] != ids[i] {
            let t = "Changed("@ + dec(i as nat) + ", U64Change("@ + dec(ids[i].0 as nat) + ", "@ + dec(ids[i].0 as nat) + "))"@;
            seq![("UserIdTracking Changed "@ + t, "UserIdTracking change from "@ + t)]
        } else {
            Seq::empty()
        }
    } else {
        let t = "Removed("@ + dec(i as nat) + ", "@ + dec(ids[i].0 as nat) + ")"@;
        seq![("UserIdTracking Removed "@ + t, "UserIdTracking change to "@ + t)]
    });
    assert(kept =~= Seq::new(ids.len(), |i: int| Seq::<(Seq<char>, Seq<char>)>::empty()));
    lemma_flatten_empties(ids.len());
    assert(id_notes(ids, ids) =~= Seq::empty());
    assert(config_notes(a, a) =~= Seq::empty());
}

/// A sequence of empty sequences flattens to nothing.
pub proof fn lemma_flatten_empties(n: nat)
    ensures
        Seq::new(n, |i: int| Seq::<(Seq<char>, Seq<char>)>::empty()).flatten() == Seq::<(Seq<char>, Seq<char>)>::empty(),
    decreases n,
{
    let s = Seq::new(n, |i: int| Seq::<(Seq<char>, Seq<char>)>::empty());
    if n > 0 {
        lemma_flatten_empties((n - 1) as nat);
        assert(s.drop_last() =~= Seq::new((n - 1) as nat, |i: int| Seq::<(Seq<char>, Seq<char>)>::empty()));
        s.drop_last().lemma_flatten_push(s.last());
        assert(s.drop_last().push(s.last()) =~= s);
    } else {
        assert(s =~= Seq::empty());
    }
}

} // verus!
