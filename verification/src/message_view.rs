use vstd::prelude::*;
use crate::decimal::{dec, parse_u64, parse_u64_spec, push_decimal};
use crate::snowflake::SnowflakeID;
use crate::state::DisplayMessage;
use crate::text::{ends_with, newlines_to_spaces, replace_char, seq_ends_with, seq_starts_with, starts_with, trim, trim_spec};
use crate::events::{first_pos, lemma_first_pos, lemma_first_pos_at};
use crate::receive_struct::message_create::{Attachments, Author, Embed, MessageCreateData, Reactions, Stickers};
use crate::text::{chars_of, owned, push_char, push_str, slice_vec, string_from_chars, take_chars, first_chars};

verus! {

broadcast use vstd::seq_lib::group_seq_properties;

/// The line shown for a system message of type `t`; none for the types shown as ordinary
/// messages (default, reply, slash command, thread starter, context menu command,
/// auto-moderation action).
pub open spec fn system_line(t: u8, content: Seq<char>) -> Option<Seq<char>> {
    if t == 0 || t == 19 || t == 20 || t == 21 || t == 23 || t == 24 {
        None
    } else if t == 1 {
        Some("[added to the group]"@)
    } else if t == 2 {
        Some("[removed from the group]"@)
    } else if t == 3 {
        Some("[started a call]"@)
    } else if t == 4 {
        Some("[renamed the channel to «"@ + content + "»]"@)
    } else if t == 5 {
        Some("[changed the channel icon]"@)
    } else if t == 6 {
        Some("[pinned a message]"@)
    } else if t == 7 {
        Some("[joined the server]"@)
    } else if t == 8 {
        Some("[boosted the server]"@)
    } else if t == 9 {
        Some("[boosted the server — tier 1]"@)
    } else if t == 10 {
        Some("[boosted the server — tier 2]"@)
    } else if t == 11 {
        Some("[boosted the server — tier 3]"@)
    } else if t == 12 {
        Some("[followed an announcement channel]"@)
    } else if t == 14 {
        Some("[guild discovery disqualified]"@)
    } else if t == 15 {
        Some("[guild discovery requalified]"@)
    } else if t == 16 {
        Some("[guild discovery grace period — initial warning]"@)
    } else if t == 17 {
        Some("[guild discovery grace period — final warning]"@)
    } else if t == 18 {
        Some("[thread created] "@ + content)
    } else if t == 22 {
        Some("[guild invite reminder]"@)
    } else if t == 25 {
        Some("[role subscription purchased]"@)
    } else if t == 26 {
        Some("[premium upsell]"@)
    } else if t == 27 {
        Some("[stage started]"@)
    } else if t == 28 {
        Some("[stage ended]"@)
    } else if t == 29 {
        Some("[stage speaker changed]"@)
    } else if t == 31 {
        Some("[stage topic] "@ + content)
    } else if t == 32 {
        Some("[guild app premium subscription]"@)
    } else if t == 36 {
        Some("[server incident alert mode enabled]"@)
    } else if t == 37 {
        Some("[server incident alert mode disabled]"@)
    } else if t == 38 {
        Some("[raid reported]"@)
    } else if t == 39 {
        Some("[raid report flagged false alarm]"@)
    } else if t == 44 {
        Some("[purchase]"@)
    } else if t == 46 {
        Some("[poll result]"@)
    } else {
        Some("[unknown message type "@ + dec(t as nat) + "]"@)
    }
}

fn system_line_of(t: u8, content: &str) -> (r: Option<String>)
    ensures
        match r {
            Some(s) => system_line(t, content@) == Some(s@),
            None => system_line(t, content@) is None,
        },
{
    let fixed: &str = match t {
        0 | 19 | 20 | 21 | 23 | 24 => return None,
        1 => "[added to the group]",
        2 => "[removed from the group]",
        3 => "[started a call]",
        4 => {
            let mut s = owned("[renamed the channel to «");
            push_str(&mut s, content);
            push_str(&mut s, "»]");
            return Some(s);
        },
        5 => "[changed the channel icon]",
        6 => "[pinned a message]",
        7 => "[joined the server]",
        8 => "[boosted the server]",
        9 => "[boosted the server — tier 1]",
        10 => "[boosted the server — tier 2]",
        11 => "[boosted the server — tier 3]",
        12 => "[followed an announcement channel]",
        14 => "[guild discovery disqualified]",
        15 => "[guild discovery requalified]",
        16 => "[guild discovery grace period — initial warning]",
        17 => "[guild discovery grace period — final warning]",
        18 => {
            let mut s = owned("[thread created] ");
            push_str(&mut s, content);
            return Some(s);
        },
        22 => "[guild invite reminder]",
        25 => "[role subscription purchased]",
        26 => "[premium upsell]",
        27 => "[stage started]",
        28 => "[stage ended]",
        29 => "[stage speaker changed]",
        31 => {
            let mut s = owned("[stage topic] ");
            push_str(&mut s, content);
            return Some(s);
        },
        32 => "[guild app premium subscription]",
        36 => "[server incident alert mode enabled]",
        37 => "[server incident alert mode disabled]",
        38 => "[raid reported]",
        39 => "[raid report flagged false alarm]",
        44 => "[purchase]",
        46 => "[poll result]",
        _ => {
            let mut s = owned("[unknown message type ");
            push_decimal(&mut s, t as u64);
            push_str(&mut s, "]");
            return Some(s);
        },
    };
    Some(owned(fixed))
}

/// `out` followed by a space, unless it is empty.
pub open spec fn spaced(out: Seq<char>) -> Seq<char> {
    if out.len() == 0 { out } else { out.push(' ') }
}

fn add_space(out: &mut String)
    ensures
        final(out)@ == spaced(old(out)@),
{
    if !out.as_str().is_empty() {
        push_char(out, ' ');
    }
}

/// `out` followed by a tag for each sticker.
pub open spec fn with_stickers(out: Seq<char>, ss: Seq<Stickers>) -> Seq<char>
    decreases ss.len(),
{
    if ss.len() == 0 {
        out
    } else {
        spaced(with_stickers(out, ss.drop_last())) + "[sticker:"@ + ss.last().name@ + "]"@
    }
}

/// `out` followed by a tag for each attached file.
pub open spec fn with_files(out: Seq<char>, fs: Seq<Attachments>) -> Seq<char>
    decreases fs.len(),
{
    if fs.len() == 0 {
        out
    } else {
        spaced(with_files(out, fs.drop_last())) + "[file:"@ + fs.last().filename@ + "]"@
    }
}

/// Holds for a line feed.
pub open spec fn is_lf() -> spec_fn(char) -> bool {
    |c: char| c == '\n'
}

/// The first line of `s` (`str::lines`): up to the first line feed, without a carriage
/// return just before it; all of `s` when it holds no line feed.
pub open spec fn first_line(s: Seq<char>) -> Seq<char> {
    let p = first_pos(s, is_lf());
    if p < 0 {
        s
    } else {
        let l = s.take(p);
        if l.len() > 0 && l.last() == '\r' { l.drop_last() } else { l }
    }
}

fn first_line_of(s: &str) -> (r: String)
    ensures
        r@ == first_line(s@),
{
    let cs = chars_of(s);
    let mut i: usize = 0;
    while i < cs.len()
        invariant
            0 <= i <= cs.len(),
            cs@ == s@,
            forall|j: int| 0 <= j < i ==> !(is_lf())(cs@[j]),
        decreases cs.len() - i,
    {
        if cs[i] == '\n' {
            proof {
                lemma_first_pos_at(cs@, is_lf(), i as int);
            }
            let mut end = i;
            if end > 0 && cs[end - 1] == '\r' {
                end = end - 1;
            }
            let l = slice_vec(cs.as_slice(), 0, end);
            assert(l@ =~= first_line(s@));
            return string_from_chars(l.as_slice());
        }
        i += 1;
    }
    proof {
        lemma_first_pos(cs@, is_lf());
    }
    owned(s)
}

/// What an embed is labelled with: the first line of its title, else of its description.
pub open spec fn embed_label(e: Embed) -> Seq<char> {
    match e.title {
        Some(t) => first_line(t@),
        None => match e.description {
            Some(d) => first_line(d@),
            None => Seq::empty(),
        },
    }
}

/// The tag of an embed: its label cut to 80 characters, or a bare tag without label.
pub open spec fn embed_tag(e: Embed) -> Seq<char> {
    let l = embed_label(e);
    if l.len() == 0 { "[embed]"@ } else { "[embed: "@ + take_chars(l, 80) + "]"@ }
}

/// `out` followed by a tag for each embed.
pub open spec fn with_embeds(out: Seq<char>, es: Seq<Embed>) -> Seq<char>
    decreases es.len(),
{
    if es.len() == 0 {
        out
    } else {
        spaced(with_embeds(out, es.drop_last())) + embed_tag(es.last())
    }
}

/// The text of an ordinary message: the slash command, the content, then tags for
/// stickers, files, embeds and a poll; `[empty]` when all of these are absent.
pub open spec fn message_body(d: MessageCreateData) -> Seq<char> {
    let s0 = match d.interaction {
        Some(i) => "[/"@ + i.name@ + "] "@,
        None => Seq::empty(),
    };
    let s1 = s0 + d.content@;
    let s2 = match d.sticker_items {
        Some(ss) => with_stickers(s1, ss@),
        None => s1,
    };
    let s3 = with_files(s2, d.attachments@);
    let s4 = with_embeds(s3, d.embeds@);
    let s5 = if d.has_poll { spaced(s4) + "[poll]"@ } else { s4 };
    if s5.len() == 0 { "[empty]"@ } else { s5 }
}

/// The text shown for a message: its system line, or its body.
pub open spec fn rendered_content(d: MessageCreateData) -> Seq<char> {
    match system_line(d.type_field, d.content@) {
        Some(s) => s,
        None => message_body(d),
    }
}

/// The text shown for a message (see [`rendered_content`]).
pub fn render_message_content(d: &MessageCreateData) -> (r: String)
    ensures
        r@ == rendered_content(*d),
{
    match system_line_of(d.type_field, d.content.as_str()) {
        Some(s) => return s,
        None => {},
    }
    let mut out = String::new();
    match &d.interaction {
        Some(i) => {
            push_str(&mut out, "[/");
            push_str(&mut out, i.name.as_str());
            push_str(&mut out, "] ");
        },
        None => {},
    }
    push_str(&mut out, d.content.as_str());
    let ghost s1 = out@;
    match &d.sticker_items {
        Some(ss) => {
            let mut i: usize = 0;
            while i < ss.len()
                invariant
                    0 <= i <= ss.len(),
                    out@ == with_stickers(s1, ss@.take(i as int)),
                decreases ss.len() - i,
            {
                assert(ss@.take(i + 1).drop_last() =~= ss@.take(i as int));
                add_space(&mut out);
                push_str(&mut out, "[sticker:");
                push_str(&mut out, ss[i].name.as_str());
                push_str(&mut out, "]");
                i += 1;
            }
            assert(ss@.take(ss.len() as int) =~= ss@);
        },
        None => {},
    }
    let ghost s2 = out@;
    let mut j: usize = 0;
    while j < d.attachments.len()
        invariant
            0 <= j <= d.attachments.len(),
            out@ == with_files(s2, d.attachments@.take(j as int)),
        decreases d.attachments.len() - j,
    {
        assert(d.attachments@.take(j + 1).drop_last() =~= d.attachments@.take(j as int));
        add_space(&mut out);
        push_str(&mut out, "[file:");
        push_str(&mut out, d.attachments[j].filename.as_str());
        push_str(&mut out, "]");
        j += 1;
    }
    assert(d.attachments@.take(d.attachments.len() as int) =~= d.attachments@);
    let ghost s3 = out@;
    let mut k: usize = 0;
    while k < d.embeds.len()
        invariant
            0 <= k <= d.embeds.len(),
            out@ == with_embeds(s3, d.embeds@.take(k as int)),
        decreases d.embeds.len() - k,
    {
        assert(d.embeds@.take(k + 1).drop_last() =~= d.embeds@.take(k as int));
        let e = &d.embeds[k];
        let label = match &e.title {
            Some(t) => first_line_of(t.as_str()),
            None => match &e.description {
                Some(de) => first_line_of(de.as_str()),
                None => String::new(),
            },
        };
        add_space(&mut out);
        if label.as_str().is_empty() {
            push_str(&mut out, "[embed]");
        } else {
            push_str(&mut out, "[embed: ");
            let cut = first_chars(label.as_str(), 80);
            push_str(&mut out, cut.as_str());
            push_str(&mut out, "]");
        }
        k += 1;
    }
    assert(d.embeds@.take(d.embeds.len() as int) =~= d.embeds@);
    if d.has_poll {
        add_space(&mut out);
        push_str(&mut out, "[poll]");
    }
    if out.as_str().is_empty() {
        push_str(&mut out, "[empty]");
    }
    out
}

/// `s` with ASCII capitals turned into small letters (`str::to_ascii_lowercase`).
pub open spec fn ascii_lower(s: Seq<char>) -> Seq<char> {
    s.map_values(|c: char| if 'A' <= c && c <= 'Z' { ((c as u32) + 32) as char } else { c })
}

pub(crate) fn ascii_lower_of(s: &str) -> (r: String)
    ensures
        r@ == ascii_lower(s@),
{
    let cs = chars_of(s);
    let mut out = String::new();
    let mut i: usize = 0;
    while i < cs.len()
        invariant
            0 <= i <= cs.len(),
            cs@ == s@,
            out@ == ascii_lower(cs@.take(i as int)),
        decreases cs.len() - i,
    {
        let c = cs[i];
        let l = if 'A' <= c && c <= 'Z' { ((c as u8) + 32) as char } else { c };
        assert(l == (if 'A' <= c && c <= 'Z' { ((c as u32) + 32) as char } else { c }));
        push_char(&mut out, l);
        assert(ascii_lower(cs@.take(i + 1)) =~= ascii_lower(cs@.take(i as int)).push(l));
        i += 1;
    }
    assert(cs@.take(cs.len() as int) =~= cs@);
    out
}

/// An attachment is an image: by its content type, or, without one, by the extension of
/// its file name (png, jpg, jpeg, gif or webp, in any case).
pub open spec fn is_image(a: Attachments) -> bool {
    match a.content_type {
        Some(ct) => seq_starts_with(ct@, "image/"@),
        None => {
            let f = ascii_lower(a.filename@);
            seq_ends_with(f, ".png"@) || seq_ends_with(f, ".jpg"@) || seq_ends_with(f, ".jpeg"@)
                || seq_ends_with(f, ".gif"@) || seq_ends_with(f, ".webp"@)
        },
    }
}

fn is_image_of(a: &Attachments) -> (r: bool)
    ensures
        r == is_image(*a),
{
    match &a.content_type {
        Some(ct) => starts_with(ct.as_str(), "image/"),
        None => {
            let f = ascii_lower_of(a.filename.as_str());
            let f = f.as_str();
            ends_with(f, ".png") || ends_with(f, ".jpg") || ends_with(f, ".jpeg") || ends_with(f, ".gif")
                || ends_with(f, ".webp")
        },
    }
}

/// The images of attachments `xs`, in order: image attachments with a URL and a numeric id.
pub open spec fn attachment_images(xs: Seq<Attachments>) -> Seq<(u64, Seq<char>)>
    decreases xs.len(),
{
    if xs.len() == 0 {
        Seq::empty()
    } else {
        let r = attachment_images(xs.drop_last());
        let a = xs.last();
        if is_image(a) && a.url is Some && parse_u64_spec(a.id@) is Some {
            r.push((parse_u64_spec(a.id@)->0, a.url->0@))
        } else {
            r
        }
    }
}

/// The picture of an embed: its image's URL, else its thumbnail's.
pub open spec fn embed_url(e: Embed) -> Option<Seq<char>> {
    match e.image {
        Some(i) if i.url is Some => Some(i.url->0@),
        _ => match e.thumbnail {
            Some(t) => match t.url {
                Some(u) => Some(u@),
                None => None,
            },
            None => None,
        },
    }
}

/// The hash that std's default hasher (`DefaultHasher::new`, SipHash with fixed keys)
/// gives for a string; it depends on the string alone.
pub uninterp spec fn url_hash(url: Seq<char>) -> u64;

/// Hashes `url` with std's default hasher, as `Hash` for `str` feeds it (its bytes, then a
/// terminator byte). Only that the result is [`url_hash`] of the string is claimed.
#[verifier::external_body]
fn hash_url(url: &str) -> (r: u64)
    ensures
        r == url_hash(url@),
{
    std::hash::BuildHasher::hash_one(&std::hash::BuildHasherDefault::<std::collections::hash_map::DefaultHasher>::default(), url)
}

/// The images of embeds `es`, in order, each identified by the hash of its URL.
pub open spec fn embed_images(es: Seq<Embed>) -> Seq<(u64, Seq<char>)>
    decreases es.len(),
{
    if es.len() == 0 {
        Seq::empty()
    } else {
        let r = embed_images(es.drop_last());
        match embed_url(es.last()) {
            Some(u) => r.push((url_hash(u), u)),
            None => r,
        }
    }
}

/// Image ids and URLs by their plain values.
pub open spec fn image_view(v: Seq<(SnowflakeID, String)>) -> Seq<(u64, Seq<char>)> {
    v.map_values(|p: (SnowflakeID, String)| (p.0.0, p.1@))
}

/// The images of a message: image attachments, then embed pictures.
pub open spec fn message_images(d: MessageCreateData) -> Seq<(u64, Seq<char>)> {
    attachment_images(d.attachments@) + embed_images(d.embeds@)
}

/// The images of a message to fetch and show (see [`message_images`]).
pub fn extract_image_attachments(d: &MessageCreateData) -> (r: Vec<(SnowflakeID, String)>)
    ensures
        image_view(r@) == message_images(*d),
{
    let mut out: Vec<(SnowflakeID, String)> = Vec::new();
    let mut i: usize = 0;
    while i < d.attachments.len()
        invariant
            0 <= i <= d.attachments.len(),
            image_view(out@) == attachment_images(d.attachments@.take(i as int)),
        decreases d.attachments.len() - i,
    {
        assert(d.attachments@.take(i + 1).drop_last() =~= d.attachments@.take(i as int));
        let a = &d.attachments[i];
        if is_image_of(a) {
            match &a.url {
                Some(url) => match parse_u64(a.id.as_str()) {
                    Some(id) => {
                        let ghost before = out@;
                        out.push((SnowflakeID(id), url.clone()));
                        assert(image_view(out@) =~= image_view(before).push((id, url@)));
                    },
                    None => {},
                },
                None => {},
            }
        }
        i += 1;
    }
    assert(d.attachments@.take(d.attachments.len() as int) =~= d.attachments@);
    let ghost base = out@;
    let mut j: usize = 0;
    while j < d.embeds.len()
        invariant
            0 <= j <= d.embeds.len(),
            image_view(base) == attachment_images(d.attachments@),
            image_view(out@) == attachment_images(d.attachments@) + embed_images(d.embeds@.take(j as int)),
        decreases d.embeds.len() - j,
    {
        assert(d.embeds@.take(j + 1).drop_last() =~= d.embeds@.take(j as int));
        let e = &d.embeds[j];
        let url: Option<String> = match &e.image {
            Some(im) => match &im.url {
                Some(u) => Some(u.clone()),
                None => match &e.thumbnail {
                    Some(t) => match &t.url {
                        Some(u) => Some(u.clone()),
                        None => None,
                    },
                    None => None,
                },
            },
            None => match &e.thumbnail {
                Some(t) => match &t.url {
                    Some(u) => Some(u.clone()),
                    None => None,
                },
                None => None,
            },
        };
        assert(match url { Some(u) => embed_url(*e) == Some(u@), None => embed_url(*e) is None });
        match url {
            Some(u) => {
                let h = hash_url(u.as_str());
                let ghost before = out@;
                let ghost uv = u@;
                out.push((SnowflakeID(h), u));
                assert(image_view(out@) =~= image_view(before).push((url_hash(uv), uv)));
            },
            None => {},
        }
        j += 1;
    }
    assert(d.embeds@.take(d.embeds.len() as int) =~= d.embeds@);
    out
}

/// The name shown for a message's author: the trimmed global name when not blank, else the
/// trimmed user name.
pub open spec fn author_label(a: Author) -> Seq<char> {
    match a.global_name {
        Some(g) if trim_spec(g@).len() > 0 => trim_spec(g@),
        _ => trim_spec(a.username@),
    }
}

/// The name shown for the author of a replied-to message: the global name when not blank,
/// else the user name.
pub open spec fn reply_author(a: Author) -> Seq<char> {
    match a.global_name {
        Some(g) if trim_spec(g@).len() > 0 => g@,
        _ => a.username@,
    }
}

/// The line added for an embed with a title or a description: the title and the first 120
/// characters of the description, line feeds turned into spaces.
pub open spec fn embed_snippet(e: Embed) -> Seq<char> {
    let t = match e.title { Some(t) => t@, None => Seq::<char>::empty() };
    let de = match e.description { Some(x) => x@, None => Seq::<char>::empty() };
    if t.len() > 0 || de.len() > 0 {
        "\n  ▎embed: "@ + t + " "@ + take_chars(replace_char(de, '\n', ' '), 120)
    } else {
        Seq::empty()
    }
}

/// `out` followed by the line of each embed.
pub open spec fn with_snippets(out: Seq<char>, es: Seq<Embed>) -> Seq<char>
    decreases es.len(),
{
    if es.len() == 0 {
        out
    } else {
        with_snippets(out, es.drop_last()) + embed_snippet(es.last())
    }
}

/// The text of a message in the message pane: its rendered content and embed lines.
pub open spec fn display_content(d: MessageCreateData) -> Seq<char> {
    with_snippets(rendered_content(d), d.embeds@)
}

/// The reactions of a message as names and counts.
pub open spec fn reaction_counts(d: MessageCreateData) -> Seq<(Seq<char>, u32)> {
    match d.reactions {
        Some(rs) => rs@.map_values(|r: Reactions| (r.name@, r.count as u32)),
        None => Seq::empty(),
    }
}

/// Reaction names and counts by their plain values.
pub open spec fn reaction_view(v: Seq<(String, u32)>) -> Seq<(Seq<char>, u32)> {
    v.map_values(|p: (String, u32)| (p.0@, p.1))
}

/// `m` is the pane entry of message `d` stamped `ts_ms`, as seen by user `my_id`.
pub open spec fn displays(m: DisplayMessage, d: MessageCreateData, my_id: Option<SnowflakeID>, ts_ms: i64) -> bool {
    &&& m.id == d.id
    &&& m.channel_id == d.channel_id
    &&& m.author@ == author_label(d.author)
    &&& m.author_id == d.author.id
    &&& m.content@ == display_content(d)
    &&& m.timestamp_ms == ts_ms
    &&& m.edited == d.edited_timestamp is Some
    &&& m.is_self == (my_id == Some(d.author.id))
    &&& image_view(m.attachment_images@) == message_images(d)
    &&& match d.referenced_message {
        Some(rm) => m.reply_to matches Some(rt) && rt.0@ == reply_author(rm.author)
            && rt.1@ == take_chars(replace_char(rm.content@, '\n', ' '), 80),
        None => m.reply_to is None,
    }
    &&& reaction_view(m.reactions@) == reaction_counts(d)
}

/// A copy of image ids and URLs.
pub(crate) fn copy_images(v: &Vec<(SnowflakeID, String)>) -> (r: Vec<(SnowflakeID, String)>)
    ensures
        r@ == v@,
{
    let mut out: Vec<(SnowflakeID, String)> = Vec::new();
    let mut i: usize = 0;
    while i < v.len()
        invariant
            0 <= i <= v.len(),
            out@ == v@.take(i as int),
        decreases v.len() - i,
    {
        out.push((v[i].0, v[i].1.clone()));
        assert(out@ =~= v@.take(i + 1));
        i += 1;
    }
    assert(v@.take(v.len() as int) =~= v@);
    out
}

fn snippet_of(e: &Embed) -> (r: String)
    ensures
        r@ == embed_snippet(*e),
{
    let t: &str = match &e.title {
        Some(t) => t.as_str(),
        None => "",
    };
    let de: &str = match &e.description {
        Some(x) => x.as_str(),
        None => "",
    };
    proof {
        reveal_strlit("");
    }
    if !t.is_empty() || !de.is_empty() {
        let flat = newlines_to_spaces(de);
        let snip = first_chars(flat.as_str(), 120);
        let mut out = owned("\n  ▎embed: ");
        push_str(&mut out, t);
        push_str(&mut out, " ");
        push_str(&mut out, snip.as_str());
        out
    } else {
        String::new()
    }
}

/// The pane entry of message `d` stamped `ts_ms` (see [`displays`]), with the images to
/// fetch.
pub fn build_display_message(d: &MessageCreateData, my_id: Option<SnowflakeID>, ts_ms: i64)
    -> (r: (DisplayMessage, Vec<(SnowflakeID, String)>))
    ensures
        displays(r.0, *d, my_id, ts_ms),
        r.1@ == r.0.attachment_images@,
{
    let images = extract_image_attachments(d);
    let mut content = render_message_content(d);
    let ghost c0 = content@;
    let mut k: usize = 0;
    while k < d.embeds.len()
        invariant
            0 <= k <= d.embeds.len(),
            content@ == with_snippets(c0, d.embeds@.take(k as int)),
        decreases d.embeds.len() - k,
    {
        assert(d.embeds@.take(k + 1).drop_last() =~= d.embeds@.take(k as int));
        let sn = snippet_of(&d.embeds[k]);
        push_str(&mut content, sn.as_str());
        k += 1;
    }
    assert(d.embeds@.take(d.embeds.len() as int) =~= d.embeds@);
    let author = match &d.author.global_name {
        Some(g) => {
            let t = trim(g.as_str());
            if !t.as_str().is_empty() { t } else { trim(d.author.username.as_str()) }
        },
        None => trim(d.author.username.as_str()),
    };
    let reply_to: Option<(String, String)> = match &d.referenced_message {
        Some(rm) => {
            let who = match &rm.author.global_name {
                Some(g) => if !trim(g.as_str()).as_str().is_empty() { g.clone() } else { rm.author.username.clone() },
                None => rm.author.username.clone(),
            };
            let flat = newlines_to_spaces(rm.content.as_str());
            Some((who, first_chars(flat.as_str(), 80)))
        },
        None => None,
    };
    let mut reactions: Vec<(String, u32)> = Vec::new();
    match &d.reactions {
        Some(rs) => {
            let mut i: usize = 0;
            while i < rs.len()
                invariant
                    0 <= i <= rs.len(),
                    reaction_view(reactions@) == rs@.take(i as int).map_values(|r: Reactions| (r.name@, r.count as u32)),
                decreases rs.len() - i,
            {
                let ghost before = reactions@;
                let nm = rs[i].name.clone();
                let ct = rs[i].count as u32;
                assert(nm@ == rs@[i as int].name@);
                reactions.push((nm, ct));
                assert(reaction_view(reactions@) =~= reaction_view(before).push((rs@[i as int].name@, rs@[i as int].count as u32)));
                assert(rs@.take(i + 1) =~= rs@.take(i as int).push(rs@[i as int]));
                assert(reaction_view(reactions@) =~= rs@.take(i + 1).map_values(|r: Reactions| (r.name@, r.count as u32)));
                i += 1;
            }
            assert(rs@.take(rs.len() as int) =~= rs@);
        },
        None => {},
    }
    let is_self = match my_id {
        Some(m) => m.0 == d.author.id.0,
        None => false,
    };
    let imgs2 = copy_images(&images);
    let msg = DisplayMessage {
        id: d.id,
        channel_id: d.channel_id,
        author,
        author_id: d.author.id,
        content,
        timestamp_ms: ts_ms,
        edited: d.edited_timestamp.is_some(),
        is_self,
        attachment_images: images,
        reply_to,
        reactions,
    };
    assert(msg.author@ == author_label(d.author));
    assert(msg.content@ == display_content(*d));
    assert(image_view(msg.attachment_images@) == message_images(*d));
    assert(reaction_view(msg.reactions@) == reaction_counts(*d));
    assert(match d.referenced_message {
        Some(rm) => msg.reply_to matches Some(rt) && rt.0@ == reply_author(rm.author)
            && rt.1@ == take_chars(replace_char(rm.content@, '\n', ' '), 80),
        None => msg.reply_to is None,
    });
    (msg, imgs2)
}

/// A name for what chrono's RFC 3339 parser gives for a time stamp, as milliseconds since
/// the epoch; none when the text is not an RFC 3339 time stamp. It depends on the text
/// alone.
pub uninterp spec fn rfc3339_millis(s: Seq<char>) -> Option<i64>;

/// `chrono::DateTime::parse_from_rfc3339`, then `timestamp_millis` of the result. Only
/// that the result is [`rfc3339_millis`] of the text is claimed.
#[verifier::external_body]
pub(crate) fn parse_rfc3339_ms(s: &str) -> (r: Option<i64>)
    ensures
        r == rfc3339_millis(s@),
{
    match chrono::DateTime::parse_from_rfc3339(s) {
        Ok(dt) => Some(dt.timestamp_millis()),
        Err(_) => None,
    }
}

/// The pane entry of message `d` as seen by `my_id`, stamped with its parsed time stamp or,
/// when that does not parse, with `now_ms`; with the images to fetch.
pub fn display_message_from(d: &MessageCreateData, my_id: Option<SnowflakeID>, now_ms: i64)
    -> (r: (DisplayMessage, Vec<(SnowflakeID, String)>))
    ensures
        displays(r.0, *d, my_id, match rfc3339_millis(d.timestamp@) { Some(t) => t, None => now_ms }),
        r.1@ == r.0.attachment_images@,
{
    let ts = match parse_rfc3339_ms(d.timestamp.as_str()) {
        Some(t) => t,
        None => now_ms,
    };
    build_display_message(d, my_id, ts)
}

} // verus!
