use vstd::prelude::*;
use crate::decimal::{dec_i64, i64_to_string};
use crate::receive_struct::message_create::{Attachments, Embed, Fields, MessageCreateData, Stickers};
use crate::text::{contains, owned, push_str, replace_char, seq_contains};

verus! {

broadcast use vstd::seq_lib::group_seq_properties;

/// Text of an optional string.
pub open spec fn opt_seq(o: Option<String>) -> Option<Seq<char>> {
    match o {
        Some(s) => Some(s@),
        None => None,
    }
}

/// A name for what the `regex` crate gives when `pattern` is compiled and run on `text`:
/// the text of each capture group of the leftmost-first match (group 0 is the whole match;
/// a group that took no part is none), or none when nothing matches or the pattern does not
/// compile. It depends on the pattern and the text alone.
pub uninterp spec fn regex_captures(pattern: Seq<char>, text: Seq<char>) -> Option<Seq<Option<Seq<char>>>>;

/// `regex::Regex::new(pattern)`, then `Regex::captures` on `text`, each group as an owned
/// string. Only that the result is [`regex_captures`] of the pattern and the text is
/// claimed.
#[verifier::external_body]
pub(crate) fn captures(pattern: &str, text: &str) -> (r: Option<Vec<Option<String>>>)
    ensures
        match r {
            Some(v) => regex_captures(pattern@, text@) == Some(v@.map_values(|o: Option<String>| opt_seq(o))),
            None => regex_captures(pattern@, text@) is None,
        },
{
    match regex::Regex::new(pattern) {
        Ok(re) => re.captures(text).map(|c| c.iter().map(|m| m.map(|m| m.as_str().to_string())).collect()),
        Err(_) => None,
    }
}

/// Group `i` of a capture result.
pub open spec fn group(g: Option<Seq<Option<Seq<char>>>>, i: int) -> Option<Seq<char>> {
    match g {
        Some(v) => if 0 <= i < v.len() { v[i] } else { None },
        None => None,
    }
}

/// Group `i` of a capture result.
pub(crate) fn group_of(g: &Option<Vec<Option<String>>>, i: usize) -> (r: Option<String>)
    ensures
        opt_seq(r) == group(match g { Some(v) => Some(v@.map_values(|o: Option<String>| opt_seq(o))), None => None }, i as int),
{
    match g {
        Some(v) => if i < v.len() {
            match &v[i] {
                Some(s) => Some(s.clone()),
                None => None,
            }
        } else {
            None
        },
        None => None,
    }
}

/// A name for what chrono gives for an RFC 3339 time stamp `s` shifted by `hours` and
/// written with the chrono format `fmt`: the date and time in the stamp's own offset,
/// shifted, formatted; none when the shifted time is out of chrono's range; the parse
/// error's text when `s` is not an RFC 3339 time stamp. It depends on the text, the shift
/// and the format alone.
pub uninterp spec fn shifted_stamp(s: Seq<char>, hours: i32, fmt: Seq<char>) -> Result<Option<Seq<char>>, Seq<char>>;

/// `chrono::DateTime::parse_from_rfc3339`, then `naive_local`, `checked_add_signed` of
/// `hours` hours and `format(fmt)`; the parse error's `to_string` on failure. Only the
/// console format is accepted, since chrono's formatting panics on a malformed format or on
/// an offset field of a time without offset. Only that the result is [`shifted_stamp`] of
/// the text, the shift and the format is claimed.
#[verifier::external_body]
fn shift_stamp(s: &str, hours: i32, fmt: &str) -> (r: Result<Option<String>, String>)
    requires
        fmt@ == console_time_format(),
    ensures
        match r {
            Ok(o) => shifted_stamp(s@, hours, fmt@) == Ok::<Option<Seq<char>>, Seq<char>>(opt_seq(o)),
            Err(e) => shifted_stamp(s@, hours, fmt@) == Err::<Option<Seq<char>>, Seq<char>>(e@),
        },
{
    match chrono::DateTime::parse_from_rfc3339(s) {
        Ok(dt) => Ok(dt
            .naive_local()
            .checked_add_signed(chrono::TimeDelta::hours(hours as i64))
            .map(|t| t.format(fmt).to_string())),
        Err(e) => Err(e.to_string()),
    }
}

/// How the console writes a message's time: `dd/mm/YYYY HH:MM:SS`.
pub open spec fn console_time_format() -> Seq<char> {
    "%d/%m/%Y %H:%M:%S"@
}

/// The time of a message as the console shows it: the stamp's own local time two hours
/// later (unshifted when that is out of range), or the parse error.
pub open spec fn stamp_text(s: Seq<char>) -> Seq<char> {
    match shifted_stamp(s, 2, console_time_format()) {
        Ok(Some(t)) => t,
        Ok(None) => match shifted_stamp(s, 0, console_time_format()) {
            Ok(Some(t)) => t,
            _ => Seq::empty(),
        },
        Err(e) => "Error parsing date: "@ + e,
    }
}

/// The time of a message as the console shows it (see [`stamp_text`]).
pub fn parse_timestamp(time: &str) -> (r: String)
    ensures
        r@ == stamp_text(time@),
{
    let fmt = "%d/%m/%Y %H:%M:%S";
    match shift_stamp(time, 2, fmt) {
        Ok(Some(t)) => t,
        Ok(None) => match shift_stamp(time, 0, fmt) {
            Ok(Some(t)) => t,
            _ => String::new(),
        },
        Err(e) => {
            let mut out = owned("Error parsing date: ");
            push_str(&mut out, e.as_str());
            out
        },
    }
}

/// A name for how chrono writes an RFC 3339 time stamp `s` once parsed (its `Display`,
/// `YYYY-mm-dd HH:MM:SS` with the offset); none when `s` does not parse. It depends on the
/// text alone.
pub uninterp spec fn rfc3339_display(s: Seq<char>) -> Option<Seq<char>>;

/// `chrono::DateTime::parse_from_rfc3339`, then `to_string`. Only that the result is
/// [`rfc3339_display`] of the text is claimed.
#[verifier::external_body]
pub(crate) fn show_rfc3339(s: &str) -> (r: Option<String>)
    ensures
        opt_seq(r) == rfc3339_display(s@),
{
    chrono::DateTime::parse_from_rfc3339(s).ok().map(|d| d.to_string())
}

/// The line that replaces the content of some system messages: pinned, joined, boosted.
pub open spec fn type_text(tf: u8) -> Option<Seq<char>> {
    if tf == 6 {
        Some("[PIN MSG]"@)
    } else if tf == 7 {
        Some("[JOIN SERVER]"@)
    } else if tf == 8 {
        Some("[BOOST SERVER]"@)
    } else {
        None
    }
}

/// The line that replaces the content of a system message, if it is one of those.
pub fn type_filed(tf: u8) -> (r: Option<String>)
    ensures
        opt_seq(r) == type_text(tf),
{
    if tf == 6 {
        Some(owned("[PIN MSG]"))
    } else if tf == 7 {
        Some(owned("[JOIN SERVER]"))
    } else if tf == 8 {
        Some(owned("[BOOST SERVER]"))
    } else {
        None
    }
}

/// The name of a channel type in the server map; the number for other types.
pub open spec fn channel_type_text(t: i64) -> Seq<char> {
    if t == 0 {
        "Text"@
    } else if t == 2 {
        "Voice"@
    } else if t == 4 {
        "Category"@
    } else if t == 5 {
        "Announce"@
    } else if t == 11 {
        "Thread"@
    } else if t == 13 {
        "Stage"@
    } else if t == 15 {
        "Forum"@
    } else if t == 16 {
        "Media"@
    } else {
        dec_i64(t as int)
    }
}

/// The name of a channel type (see [`channel_type_text`]).
pub fn channel_type(t: i64) -> (r: String)
    ensures
        r@ == channel_type_text(t),
{
    if t == 0 {
        owned("Text")
    } else if t == 2 {
        owned("Voice")
    } else if t == 4 {
        owned("Category")
    } else if t == 5 {
        owned("Announce")
    } else if t == 11 {
        owned("Thread")
    } else if t == 13 {
        owned("Stage")
    } else if t == 15 {
        owned("Forum")
    } else if t == 16 {
        owned("Media")
    } else {
        i64_to_string(t)
    }
}

/// A URL served by Discord's file hosts.
pub open spec fn discord_media(url: Seq<char>) -> bool {
    seq_contains(url, "https://cdn.discordapp.com"@) || seq_contains(url, "https://media.discordapp.net"@)
}

/// Whether a URL is served by Discord's file hosts.
pub fn is_discord_media(url: &str) -> (r: bool)
    ensures
        r == discord_media(url@),
{
    contains(url, "https://cdn.discordapp.com") || contains(url, "https://media.discordapp.net")
}

/// The reply prefix of a message line: the replied-to author and text, then the branch
/// that leads to the reply; empty for a message that replies to nothing.
pub open spec fn reply_text(msg: MessageCreateData) -> Seq<char> {
    match msg.referenced_message {
        Some(m) => "[Reply] "@ + m.author.username@ + ": "@ + m.content@ + "\n\t\t└─"@,
        None => Seq::empty(),
    }
}

/// The reply prefix of a message line (see [`reply_text`]).
pub fn get_reply_to(msg: &MessageCreateData) -> (r: String)
    ensures
        r@ == reply_text(*msg),
{
    match &msg.referenced_message {
        Some(m) => {
            let mut st = owned("[Reply] ");
            push_str(&mut st, m.author.username.as_str());
            push_str(&mut st, ": ");
            push_str(&mut st, m.content.as_str());
            push_str(&mut st, "\n\t\t└─");
            st
        },
        None => String::new(),
    }
}

/// The pattern of a Discord file link in a message's text; its group is the file name.
pub open spec fn content_pattern() -> Seq<char> {
    "https://.*.discordapp.*.*/([^/]*)\\?.*"@
}

/// The pattern of the file name in a media URL: the last path segment before the query.
pub open spec fn media_pattern() -> Seq<char> {
    "/([^/]*)\\?"@
}

/// The Discord file link in a message's text and its file name, when the text has one.
pub open spec fn direct_link(content: Seq<char>) -> Option<(Seq<char>, Seq<char>)> {
    let g = regex_captures(content_pattern(), content);
    match (group(g, 0), group(g, 1)) {
        (Some(u), Some(n)) => Some((u, n)),
        _ => None,
    }
}

/// The lines of attachments with a URL.
pub open spec fn attachments_text(xs: Seq<Attachments>) -> Seq<char>
    decreases xs.len(),
{
    if xs.len() == 0 {
        Seq::empty()
    } else {
        attachments_text(xs.drop_last()) + match xs.last().url {
            Some(u) => "\n\t attachments: "@ + u@,
            None => Seq::empty(),
        }
    }
}

/// The lines of embed fields.
pub open spec fn fields_text(fs: Seq<Fields>) -> Seq<char>
    decreases fs.len(),
{
    if fs.len() == 0 {
        Seq::empty()
    } else {
        fields_text(fs.drop_last()) + "\n\t embeds fields: "@ + fs.last().name@ + ": "@ + fs.last().value@
    }
}

/// The URL of an embed's image.
pub open spec fn embed_image_url(e: Embed) -> Option<Seq<char>> {
    match e.image {
        Some(i) => opt_seq(i.url),
        None => None,
    }
}

/// The line of an embed's image.
pub open spec fn embed_image_text(e: Embed) -> Seq<char> {
    match embed_image_url(e) {
        Some(u) => "\n\t embeds image: "@ + u,
        None => Seq::empty(),
    }
}

/// The line of an embed's video.
pub open spec fn embed_video_text(e: Embed) -> Seq<char> {
    match e.video {
        Some(v) => match v.url {
            Some(u) => "\n\t embeds video: "@ + u@,
            None => Seq::empty(),
        },
        None => Seq::empty(),
    }
}

/// The lines of an embed's fields and description.
pub open spec fn embed_rest_text(e: Embed) -> Seq<char> {
    (match e.fields {
        Some(fs) => fields_text(fs@),
        None => Seq::empty(),
    }) + (match e.description {
        Some(d) => "\n\t embeds fields: "@ + d@,
        None => Seq::empty(),
    })
}

/// The lines of an embed: its image, its video, its fields and its description.
pub open spec fn embed_text(e: Embed) -> Seq<char> {
    embed_image_text(e) + embed_video_text(e) + embed_rest_text(e)
}

/// The lines of embeds.
pub open spec fn embeds_text(es: Seq<Embed>) -> Seq<char>
    decreases es.len(),
{
    if es.len() == 0 {
        Seq::empty()
    } else {
        embeds_text(es.drop_last()) + embed_text(es.last())
    }
}

/// The lines of stickers.
pub open spec fn stickers_text(ss: Seq<Stickers>) -> Seq<char>
    decreases ss.len(),
{
    if ss.len() == 0 {
        Seq::empty()
    } else {
        stickers_text(ss.drop_last()) + "\n\t Stickers: "@ + ss.last().name@
    }
}

/// What a message carries besides its text, one line each: a Discord file link in the
/// text, the attachments, the embeds and the stickers.
pub open spec fn attachment_text(msg: MessageCreateData) -> Seq<char> {
    (match direct_link(msg.content@) {
        Some(p) => "\n\t direct: "@ + p.0,
        None => Seq::empty(),
    }) + attachments_text(msg.attachments@) + embeds_text(msg.embeds@) + match msg.sticker_items {
        Some(ss) => stickers_text(ss@),
        None => Seq::empty(),
    }
}

/// The Discord-hosted attachments to save, as URL and file name.
pub open spec fn attachment_saves(xs: Seq<Attachments>) -> Seq<(Seq<char>, Seq<char>)>
    decreases xs.len(),
{
    if xs.len() == 0 {
        Seq::empty()
    } else {
        let a = xs.last();
        match a.url {
            Some(u) if discord_media(u@) => attachment_saves(xs.drop_last()).push((u@, a.filename@)),
            _ => attachment_saves(xs.drop_last()),
        }
    }
}

/// The Discord-hosted image of an embed to save, as URL and the file name that the URL
/// gives.
pub open spec fn embed_save(e: Embed) -> Seq<(Seq<char>, Seq<char>)> {
    match embed_image_url(e) {
        Some(u) if discord_media(u) && group(regex_captures(media_pattern(), u), 1) is Some =>
            seq![(u, group(regex_captures(media_pattern(), u), 1)->0)],
        _ => Seq::empty(),
    }
}

/// The Discord-hosted embed images to save.
pub open spec fn embed_saves(es: Seq<Embed>) -> Seq<(Seq<char>, Seq<char>)>
    decreases es.len(),
{
    if es.len() == 0 {
        Seq::empty()
    } else {
        embed_saves(es.drop_last()) + embed_save(es.last())
    }
}

/// The files of a message to save when media are saved: the linked file, the hosted
/// attachments and the hosted embed images, in that order.
pub open spec fn media_saves(msg: MessageCreateData) -> Seq<(Seq<char>, Seq<char>)> {
    (match direct_link(msg.content@) {
        Some(p) => seq![p],
        None => Seq::empty(),
    }) + attachment_saves(msg.attachments@) + embed_saves(msg.embeds@)
}

/// A file to save: its URL, the name to save it under, and the folder of its author.
pub struct MediaSave {
    pub url: String,
    pub file_name: String,
    pub author_dir: String,
}

/// Saves by URL and file name.
pub open spec fn saves_view(v: Seq<MediaSave>) -> Seq<(Seq<char>, Seq<char>)> {
    v.map_values(|m: MediaSave| (m.url@, m.file_name@))
}

fn push_save(out: &mut Vec<MediaSave>, url: &str, name: &str, dir: &String)
    ensures
        saves_view(final(out)@) == saves_view(old(out)@).push((url@, name@)),
        forall|i: int| 0 <= i < old(out)@.len() ==> #[trigger] final(out)@[i] == old(out)@[i],
        final(out)@.len() == old(out)@.len() + 1,
        final(out)@.last().author_dir@ == dir@,
{
    let ghost before = out@;
    out.push(MediaSave { url: owned(url), file_name: owned(name), author_dir: dir.clone() });
    assert(saves_view(out@) =~= saves_view(before).push((url@, name@)));
}

fn embed_image_line(e: &Embed, download_media: bool, dir: &String, data: &mut String, saves: &mut Vec<MediaSave>)
    requires
        forall|j: int| 0 <= j < old(saves)@.len() ==> (#[trigger] old(saves)@[j]).author_dir@ == dir@,
    ensures
        final(data)@ == old(data)@ + embed_image_text(*e),
        saves_view(final(saves)@) == saves_view(old(saves)@) + (if download_media { embed_save(*e) } else { Seq::empty() }),
        forall|j: int| 0 <= j < final(saves)@.len() ==> (#[trigger] final(saves)@[j]).author_dir@ == dir@,
{
    let ghost sk = saves_view(saves@);
    let img: Option<&String> = match &e.image {
        Some(im) => match &im.url {
            Some(u) => Some(u),
            None => None,
        },
        None => None,
    };
    match img {
        Some(u) => {
            if is_discord_media(u.as_str()) && download_media {
                let mg = captures("/([^/]*)\\?", u.as_str());
                proof {
                    reveal_strlit("/([^/]*)\\?");
                }
                match group_of(&mg, 1) {
                    Some(name) => push_save(saves, u.as_str(), name.as_str(), dir),
                    None => {},
                }
            }
            push_str(data, "\n\t embeds image: ");
            push_str(data, u.as_str());
        },
        None => {},
    }
    assert(saves_view(saves@) =~= sk + (if download_media { embed_save(*e) } else { Seq::empty() }));
}

fn embed_rest_lines(e: &Embed, data: &mut String)
    ensures
        final(data)@ == old(data)@ + embed_video_text(*e) + embed_rest_text(*e),
{
    let ghost d0 = data@;
    match &e.video {
        Some(v) => match &v.url {
            Some(u) => {
                push_str(data, "\n\t embeds video: ");
                push_str(data, u.as_str());
            },
            None => {},
        },
        None => {},
    }
    let ghost d1 = data@;
    match &e.fields {
        Some(fs) => {
            let mut j: usize = 0;
            while j < fs.len()
                invariant
                    0 <= j <= fs.len(),
                    data@ == d1 + fields_text(fs@.take(j as int)),
                decreases fs.len() - j,
            {
                assert(fs@.take(j + 1).drop_last() =~= fs@.take(j as int));
                push_str(data, "\n\t embeds fields: ");
                push_str(data, fs[j].name.as_str());
                push_str(data, ": ");
                push_str(data, fs[j].value.as_str());
                j += 1;
            }
            assert(fs@.take(fs.len() as int) =~= fs@);
        },
        None => {},
    }
    match &e.description {
        Some(d) => {
            push_str(data, "\n\t embeds fields: ");
            push_str(data, d.as_str());
        },
        None => {},
    }
    assert(data@ =~= d0 + embed_video_text(*e) + embed_rest_text(*e));
}

fn embed_lines(e: &Embed, download_media: bool, dir: &String, data: &mut String, saves: &mut Vec<MediaSave>)
    requires
        forall|j: int| 0 <= j < old(saves)@.len() ==> (#[trigger] old(saves)@[j]).author_dir@ == dir@,
    ensures
        final(data)@ == old(data)@ + embed_text(*e),
        saves_view(final(saves)@) == saves_view(old(saves)@) + (if download_media { embed_save(*e) } else { Seq::empty() }),
        forall|j: int| 0 <= j < final(saves)@.len() ==> (#[trigger] final(saves)@[j]).author_dir@ == dir@,
{
    let ghost d0 = data@;
    embed_image_line(e, download_media, dir, data, saves);
    embed_rest_lines(e, data);
    assert(data@ =~= d0 + embed_text(*e));
}

/// The lines of what a message carries besides its text (see [`attachment_text`]), and,
/// when media are saved, the files to save (see [`media_saves`]) in the folder named after
/// the author, dots turned into underscores.
pub fn get_all_attachments(msg: &MessageCreateData, download_media: bool) -> (r: (String, Vec<MediaSave>))
    ensures
        r.0@ == attachment_text(*msg),
        saves_view(r.1@) == (if download_media { media_saves(*msg) } else { Seq::empty() }),
        forall|i: int| 0 <= i < r.1@.len() ==> (#[trigger] r.1@[i]).author_dir@ == replace_char(msg.author.username@, '.', '_'),
{
    let dir = crate::text::replace_chars(msg.author.username.as_str(), '.', '_');
    let mut data = String::new();
    let mut saves: Vec<MediaSave> = Vec::new();
    let ghost wanted = if download_media { media_saves(*msg) } else { Seq::<(Seq<char>, Seq<char>)>::empty() };
    let g = captures("https://.*.discordapp.*.*/([^/]*)\\?.*", msg.content.as_str());
    proof {
        reveal_strlit("https://.*.discordapp.*.*/([^/]*)\\?.*");
    }
    let u0 = group_of(&g, 0);
    let n1 = group_of(&g, 1);
    match (u0, n1) {
        (Some(u), Some(n)) => {
            if download_media {
                push_save(&mut saves, u.as_str(), n.as_str(), &dir);
            }
            push_str(&mut data, "\n\t direct: ");
            push_str(&mut data, u.as_str());
        },
        _ => {},
    }
    let ghost d0 = data@;
    let ghost s0 = saves_view(saves@);
    let mut i: usize = 0;
    while i < msg.attachments.len()
        invariant
            0 <= i <= msg.attachments.len(),
            data@ == d0 + attachments_text(msg.attachments@.take(i as int)),
            saves_view(saves@) == s0 + (if download_media { attachment_saves(msg.attachments@.take(i as int)) } else { Seq::empty() }),
            forall|j: int| 0 <= j < saves@.len() ==> (#[trigger] saves@[j]).author_dir@ == dir@,
        decreases msg.attachments.len() - i,
    {
        let a = &msg.attachments[i];
        assert(msg.attachments@.take(i + 1).drop_last() =~= msg.attachments@.take(i as int));
        match &a.url {
            Some(u) => {
                if is_discord_media(u.as_str()) && download_media {
                    push_save(&mut saves, u.as_str(), a.filename.as_str(), &dir);
                }
                push_str(&mut data, "\n\t attachments: ");
                push_str(&mut data, u.as_str());
            },
            None => {},
        }
        i += 1;
    }
    assert(msg.attachments@.take(msg.attachments.len() as int) =~= msg.attachments@);
    let ghost d1 = data@;
    let ghost s1 = saves_view(saves@);
    let mut k: usize = 0;
    while k < msg.embeds.len()
        invariant
            0 <= k <= msg.embeds.len(),
            data@ == d1 + embeds_text(msg.embeds@.take(k as int)),
            saves_view(saves@) == s1 + (if download_media { embed_saves(msg.embeds@.take(k as int)) } else { Seq::empty() }),
            forall|j: int| 0 <= j < saves@.len() ==> (#[trigger] saves@[j]).author_dir@ == dir@,
        decreases msg.embeds.len() - k,
    {
        assert(msg.embeds@.take(k + 1).drop_last() =~= msg.embeds@.take(k as int));
        embed_lines(&msg.embeds[k], download_media, &dir, &mut data, &mut saves);
        k += 1;
    }
    assert(msg.embeds@.take(msg.embeds.len() as int) =~= msg.embeds@);
    match &msg.sticker_items {
        Some(ss) => {
            let ghost d2 = data@;
            let mut j: usize = 0;
            while j < ss.len()
                invariant
                    0 <= j <= ss.len(),
                    data@ == d2 + stickers_text(ss@.take(j as int)),
                decreases ss.len() - j,
            {
                assert(ss@.take(j + 1).drop_last() =~= ss@.take(j as int));
                push_str(&mut data, "\n\t Stickers: ");
                push_str(&mut data, ss[j].name.as_str());
                j += 1;
            }
            assert(ss@.take(ss.len() as int) =~= ss@);
        },
        None => {},
    }
    (data, saves)
}

/// A piece kept when it holds a link.
pub open spec fn keep_link(p: Seq<char>) -> Seq<Seq<char>> {
    if seq_contains(p, "http"@) { seq![p] } else { Seq::empty() }
}

/// The pieces of `s`, cut at each `": "` from the left, that hold a link; `cur` is the
/// piece gathered so far.
pub open spec fn link_pieces(s: Seq<char>, cur: Seq<char>) -> Seq<Seq<char>>
    decreases s.len(),
{
    if s.len() == 0 {
        keep_link(cur)
    } else if s.len() >= 2 && s[0] == ':' && s[1] == ' ' {
        keep_link(cur) + link_pieces(s.skip(2), Seq::empty())
    } else {
        link_pieces(s.skip(1), cur.push(s[0]))
    }
}

fn push_if_link(out: &mut Vec<String>, cur: String)
    ensures
        final(out)@.map_values(|l: String| l@) == old(out)@.map_values(|l: String| l@) + keep_link(cur@),
{
    let ghost before = out@;
    if contains(cur.as_str(), "http") {
        out.push(cur);
        assert(out@.map_values(|l: String| l@) =~= before.map_values(|l: String| l@) + keep_link(cur@));
    } else {
        assert(out@.map_values(|l: String| l@) =~= before.map_values(|l: String| l@) + keep_link(cur@));
    }
}

/// The links shown as images in the terminal from a message's attachment text: its pieces
/// between `": "` separators that hold `http` (see [`link_pieces`]).
pub fn image_links(text: &str) -> (r: Vec<String>)
    ensures
        r@.map_values(|l: String| l@) == link_pieces(text@, Seq::empty()),
{
    let cs = crate::text::chars_of(text);
    let mut out: Vec<String> = Vec::new();
    let mut cur = String::new();
    let mut i: usize = 0;
    assert(cs@.skip(0) =~= cs@);
    while i < cs.len()
        invariant
            0 <= i <= cs.len(),
            cs@ == text@,
            out@.map_values(|l: String| l@) + link_pieces(cs@.skip(i as int), cur@) == link_pieces(text@, Seq::empty()),
        decreases cs.len() - i,
    {
        if i + 1 < cs.len() && cs[i] == ':' && cs[i + 1] == ' ' {
            assert(cs@.skip(i + 2) =~= cs@.skip(i as int).skip(2));
            let piece = cur;
            cur = String::new();
            let ghost before = out@.map_values(|l: String| l@);
            push_if_link(&mut out, piece);
            assert(before + keep_link(piece@) + link_pieces(cs@.skip(i + 2), cur@)
                =~= before + (keep_link(piece@) + link_pieces(cs@.skip(i + 2), cur@)));
            i += 2;
        } else {
            assert(cs@.skip(i + 1) =~= cs@.skip(i as int).skip(1));
            crate::text::push_char(&mut cur, cs[i]);
            i += 1;
        }
    }
    let ghost before = out@.map_values(|l: String| l@);
    push_if_link(&mut out, cur);
    out
}

} // verus!
