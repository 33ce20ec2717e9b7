use vstd::prelude::*;
use crate::appstate::{AppState, msgs_of};
use crate::decimal::{dec, parse_u64, parse_u64_spec, push_decimal};
use crate::input::status_set;
use crate::commands::set_status_to;
use crate::message_view::{
    ascii_lower, ascii_lower_of, copy_images, display_message_from, displays, image_view,
    parse_rfc3339_ms, rfc3339_millis,
};
use crate::receive_struct::message_create::MessageCreateData;
use crate::snowflake::SnowflakeID;
use crate::state::DisplayMessage;
use crate::text::{
    ends_with, first_chars, newlines_to_spaces, owned, push_str, replace_char, seq_ends_with,
    seq_starts_with, starts_with, take_chars,
};

verus! {

broadcast use vstd::seq_lib::group_seq_properties;

/// The author of a message object read field by field: each field is its text when the
/// object holds it as a string.
pub struct LooseAuthor {
    pub id: Option<String>,
    pub username: Option<String>,
    pub global_name: Option<String>,
}

/// An attachment read field by field.
pub struct LooseAttachment {
    pub id: Option<String>,
    pub url: Option<String>,
    pub content_type: Option<String>,
    pub filename: Option<String>,
}

/// The replied-to message of a message object: its author, when it has one, and its text.
pub struct LooseReply {
    pub author: Option<LooseAuthor>,
    pub content: Option<String>,
}

/// A reaction read field by field. `emoji_name` is the emoji's `name` entry when the
/// reaction has one (its text when that is a string); `name` is the reaction's own `name`.
pub struct LooseReaction {
    pub emoji_name: Option<Option<String>>,
    pub name: Option<String>,
    pub count: Option<u64>,
}

/// A message object that does not have the shape of a message event, read field by field.
/// `edited` is `true` when the object has an edit time stamp that is not null; the lists are
/// present when the object holds them as arrays.
pub struct LooseMessage {
    pub id: Option<String>,
    pub channel_id: Option<String>,
    pub content: Option<String>,
    pub timestamp: Option<String>,
    pub author: Option<LooseAuthor>,
    pub edited: bool,
    pub attachments: Option<Vec<LooseAttachment>>,
    pub referenced_message: Option<LooseReply>,
    pub reactions: Option<Vec<LooseReaction>>,
}

/// A message from the message history: one with the full shape of a message event, or one
/// read field by field.
pub enum MessageValue {
    Full(MessageCreateData),
    Loose(LooseMessage),
}

/// The text of an optional field, empty when absent.
pub open spec fn text_or_empty(o: Option<String>) -> Seq<char> {
    match o {
        Some(s) => s@,
        None => Seq::empty(),
    }
}

/// The id that an optional field spells, zero when absent or not a number.
pub open spec fn id_or_zero(o: Option<String>) -> u64 {
    match o {
        Some(s) => match parse_u64_spec(s@) {
            Some(v) => v,
            None => 0,
        },
        None => 0,
    }
}

/// The author name of a loose message: the user name when not empty, else the global name,
/// else `unknown`.
pub open spec fn loose_author_name(a: Option<LooseAuthor>) -> Seq<char> {
    match a {
        Some(a) => match a.username {
            Some(u) if u@.len() > 0 => u@,
            _ => match a.global_name {
                Some(g) => g@,
                None => "unknown"@,
            },
        },
        None => "unknown"@,
    }
}

/// The author id of a loose message, zero when absent or not a number.
pub open spec fn loose_author_id(a: Option<LooseAuthor>) -> u64 {
    match a {
        Some(a) => id_or_zero(a.id),
        None => 0,
    }
}

/// A loose attachment is an image: by a content type starting with `image/`, or by the
/// extension of its file name (png, jpg, jpeg, gif or webp, in any case).
pub open spec fn loose_is_image(a: LooseAttachment) -> bool {
    let f = ascii_lower(text_or_empty(a.filename));
    seq_starts_with(text_or_empty(a.content_type), "image/"@)
        || seq_ends_with(f, ".png"@) || seq_ends_with(f, ".jpg"@) || seq_ends_with(f, ".jpeg"@)
        || seq_ends_with(f, ".gif"@) || seq_ends_with(f, ".webp"@)
}

/// The image of a loose attachment: an image with a URL and a numeric id.
pub open spec fn loose_image(a: LooseAttachment) -> Option<(u64, Seq<char>)> {
    match (a.url, a.id) {
        (Some(u), Some(i)) if loose_is_image(a) && parse_u64_spec(i@) is Some =>
            Some((parse_u64_spec(i@)->0, u@)),
        _ => None,
    }
}

/// The images of loose attachments `xs`, in order.
pub open spec fn loose_images(xs: Seq<LooseAttachment>) -> Seq<(u64, Seq<char>)>
    decreases xs.len(),
{
    if xs.len() == 0 {
        Seq::empty()
    } else {
        match loose_image(xs.last()) {
            Some(p) => loose_images(xs.drop_last()).push(p),
            None => loose_images(xs.drop_last()),
        }
    }
}

/// The images of a loose message.
pub open spec fn loose_message_images(v: LooseMessage) -> Seq<(u64, Seq<char>)> {
    match v.attachments {
        Some(xs) => loose_images(xs@),
        None => Seq::empty(),
    }
}

/// The text shown for a loose message with `n` images: its content, or, when that is empty,
/// `[n image(s)]` when it has images and `[no content]` when not.
pub open spec fn loose_content(content: Seq<char>, n: nat) -> Seq<char> {
    if content.len() == 0 && n > 0 {
        "["@ + dec(n) + " image(s)]"@
    } else if content.len() == 0 {
        "[no content]"@
    } else {
        content
    }
}

/// The name shown for the author of a replied-to loose message: the global name when not
/// empty, else the user name, else `unknown`.
pub open spec fn loose_reply_author(a: LooseAuthor) -> Seq<char> {
    match a.global_name {
        Some(g) if g@.len() > 0 => g@,
        _ => match a.username {
            Some(u) => u@,
            None => "unknown"@,
        },
    }
}

/// The reply line of a loose message: the replied-to author and the first 80 characters of
/// its text, line feeds turned into spaces; none without a replied-to message with an author.
pub open spec fn loose_reply(r: Option<LooseReply>) -> Option<(Seq<char>, Seq<char>)> {
    match r {
        Some(r) => match r.author {
            Some(a) => Some((loose_reply_author(a), take_chars(replace_char(text_or_empty(r.content), '\n', ' '), 80))),
            None => None,
        },
        None => None,
    }
}

/// The name of a loose reaction: the emoji's name when the emoji has a name entry, else the
/// reaction's own name; none when that is not text.
pub open spec fn loose_reaction_name(r: LooseReaction) -> Option<Seq<char>> {
    match r.emoji_name {
        Some(e) => match e {
            Some(s) => Some(s@),
            None => None,
        },
        None => match r.name {
            Some(s) => Some(s@),
            None => None,
        },
    }
}

/// The named reactions of `rs`, in order, with their counts (zero when absent), cut to 32
/// bits.
pub open spec fn loose_reactions(rs: Seq<LooseReaction>) -> Seq<(Seq<char>, u32)>
    decreases rs.len(),
{
    if rs.len() == 0 {
        Seq::empty()
    } else {
        let r = rs.last();
        match loose_reaction_name(r) {
            Some(n) => loose_reactions(rs.drop_last()).push(
                (n, (match r.count { Some(c) => c, None => 0 }) as u32),
            ),
            None => loose_reactions(rs.drop_last()),
        }
    }
}

/// `m` is the pane entry of loose message `v` stamped `ts_ms`, as seen by user `my_id`.
pub open spec fn loose_displays(m: DisplayMessage, v: LooseMessage, my_id: Option<SnowflakeID>, ts_ms: i64) -> bool {
    let imgs = loose_message_images(v);
    &&& m.id.0 == id_or_zero(v.id)
    &&& m.channel_id.0 == id_or_zero(v.channel_id)
    &&& m.author@ == loose_author_name(v.author)
    &&& m.author_id.0 == loose_author_id(v.author)
    &&& m.content@ == loose_content(text_or_empty(v.content), imgs.len())
    &&& m.timestamp_ms == ts_ms
    &&& m.edited == v.edited
    &&& m.is_self == (my_id == Some(SnowflakeID(loose_author_id(v.author))))
    &&& image_view(m.attachment_images@) == imgs
    &&& match loose_reply(v.referenced_message) {
        Some(p) => m.reply_to matches Some(rt) && rt.0@ == p.0 && rt.1@ == p.1,
        None => m.reply_to is None,
    }
    &&& m.reactions@.map_values(|p: (String, u32)| (p.0@, p.1)) == match v.reactions {
        Some(rs) => loose_reactions(rs@),
        None => Seq::empty(),
    }
}

/// The time stamp of a message: the parsed text, else `now_ms`.
pub open spec fn stamp_or(text: Seq<char>, now_ms: i64) -> i64 {
    match rfc3339_millis(text) {
        Some(t) => t,
        None => now_ms,
    }
}

/// `m` is the pane entry of history message `v` as seen by `my_id`, stamped with its parsed
/// time stamp or, when that does not parse, with `now_ms`.
pub open spec fn value_displays(m: DisplayMessage, v: MessageValue, my_id: Option<SnowflakeID>, now_ms: i64) -> bool {
    match v {
        MessageValue::Full(d) => displays(m, d, my_id, stamp_or(d.timestamp@, now_ms)),
        MessageValue::Loose(l) => loose_displays(m, l, my_id, stamp_or(text_or_empty(l.timestamp), now_ms)),
    }
}

fn text_of(o: &Option<String>) -> (r: &str)
    ensures
        r@ == text_or_empty(*o),
{
    match o {
        Some(s) => s.as_str(),
        None => {
            proof {
                reveal_strlit("");
            }
            ""
        },
    }
}

fn id_of(o: &Option<String>) -> (r: u64)
    ensures
        r == id_or_zero(*o),
{
    match o {
        Some(s) => match parse_u64(s.as_str()) {
            Some(v) => v,
            None => 0,
        },
        None => 0,
    }
}

fn loose_is_image_of(a: &LooseAttachment) -> (r: bool)
    ensures
        r == loose_is_image(*a),
{
    let f = ascii_lower_of(text_of(&a.filename));
    let f = f.as_str();
    starts_with(text_of(&a.content_type), "image/") || ends_with(f, ".png") || ends_with(f, ".jpg")
        || ends_with(f, ".jpeg") || ends_with(f, ".gif") || ends_with(f, ".webp")
}

fn loose_images_of(xs: &Vec<LooseAttachment>) -> (r: Vec<(SnowflakeID, String)>)
    ensures
        image_view(r@) == loose_images(xs@),
{
    let mut out: Vec<(SnowflakeID, String)> = Vec::new();
    let mut i: usize = 0;
    while i < xs.len()
        invariant
            0 <= i <= xs.len(),
            image_view(out@) == loose_images(xs@.take(i as int)),
        decreases xs.len() - i,
    {
        let ghost before = out@;
        let a = &xs[i];
        assert(xs@.take(i + 1).drop_last() =~= xs@.take(i as int));
        assert(xs@.take(i + 1).last() == *a);
        if loose_is_image_of(a) {
            match (&a.url, &a.id) {
                (Some(u), Some(idt)) => {
                    match parse_u64(idt.as_str()) {
                        Some(v) => {
                            out.push((SnowflakeID(v), u.clone()));
                            assert(image_view(out@) =~= image_view(before).push((v, u@)));
                        },
                        None => {},
                    }
                },
                _ => {},
            }
        }
        i += 1;
    }
    assert(xs@.take(xs.len() as int) =~= xs@);
    out
}

fn loose_reactions_of(rs: &Vec<LooseReaction>) -> (r: Vec<(String, u32)>)
    ensures
        r@.map_values(|p: (String, u32)| (p.0@, p.1)) == loose_reactions(rs@),
{
    let mut out: Vec<(String, u32)> = Vec::new();
    let mut i: usize = 0;
    while i < rs.len()
        invariant
            0 <= i <= rs.len(),
            out@.map_values(|p: (String, u32)| (p.0@, p.1)) == loose_reactions(rs@.take(i as int)),
        decreases rs.len() - i,
    {
        let ghost before = out@;
        let r = &rs[i];
        assert(rs@.take(i + 1).drop_last() =~= rs@.take(i as int));
        assert(rs@.take(i + 1).last() == *r);
        let name: Option<String> = match &r.emoji_name {
            Some(e) => match e {
                Some(s) => Some(s.clone()),
                None => None,
            },
            None => match &r.name {
                Some(s) => Some(s.clone()),
                None => None,
            },
        };
        let c: u64 = match r.count {
            Some(c) => c,
            None => 0,
        };
        match name {
            Some(n) => {
                let ghost nv = n@;
                out.push((n, c as u32));
                assert(out@.map_values(|p: (String, u32)| (p.0@, p.1)) =~= before.map_values(
                    |p: (String, u32)| (p.0@, p.1),
                ).push((nv, c as u32)));
            },
            None => {},
        }
        i += 1;
    }
    assert(rs@.take(rs.len() as int) =~= rs@);
    out
}

fn loose_reply_of(r: &Option<LooseReply>) -> (o: Option<(String, String)>)
    ensures
        match loose_reply(*r) {
            Some(p) => o matches Some(rt) && rt.0@ == p.0 && rt.1@ == p.1,
            None => o is None,
        },
{
    match r {
        Some(rm) => match &rm.author {
            Some(a) => {
                let who: String = match &a.global_name {
                    Some(g) if !g.as_str().is_empty() => g.clone(),
                    _ => match &a.username {
                        Some(u) => u.clone(),
                        None => owned("unknown"),
                    },
                };
                let flat = newlines_to_spaces(text_of(&rm.content));
                Some((who, first_chars(flat.as_str(), 80)))
            },
            None => None,
        },
        None => None,
    }
}

/// The pane entry of loose message `v` stamped `ts_ms` (see [`loose_displays`]), with the
/// images to fetch.
pub fn loose_display_message(v: &LooseMessage, my_id: Option<SnowflakeID>, ts_ms: i64)
    -> (r: (DisplayMessage, Vec<(SnowflakeID, String)>))
    ensures
        loose_displays(r.0, *v, my_id, ts_ms),
        r.1@ == r.0.attachment_images@,
{
    let author: String = match &v.author {
        Some(a) => match &a.username {
            Some(u) if !u.as_str().is_empty() => u.clone(),
            _ => match &a.global_name {
                Some(g) => g.clone(),
                None => owned("unknown"),
            },
        },
        None => owned("unknown"),
    };
    let author_id: u64 = match &v.author {
        Some(a) => id_of(&a.id),
        None => 0,
    };
    let imgs: Vec<(SnowflakeID, String)> = match &v.attachments {
        Some(xs) => loose_images_of(xs),
        None => Vec::new(),
    };
    proof {
        assert(image_view(imgs@).len() == imgs@.len());
    }
    let base = text_of(&v.content);
    let content: String = if base.is_empty() && imgs.len() > 0 {
        let mut c = owned("[");
        push_decimal(&mut c, imgs.len() as u64);
        push_str(&mut c, " image(s)]");
        c
    } else if base.is_empty() {
        owned("[no content]")
    } else {
        owned(base)
    };
    let reactions: Vec<(String, u32)> = match &v.reactions {
        Some(rs) => loose_reactions_of(rs),
        None => Vec::new(),
    };
    let is_self = match my_id {
        Some(m) => m.0 == author_id,
        None => false,
    };
    let imgs2 = copy_images(&imgs);
    let msg = DisplayMessage {
        id: SnowflakeID(id_of(&v.id)),
        channel_id: SnowflakeID(id_of(&v.channel_id)),
        author,
        author_id: SnowflakeID(author_id),
        content,
        timestamp_ms: ts_ms,
        edited: v.edited,
        is_self,
        attachment_images: imgs,
        reply_to: loose_reply_of(&v.referenced_message),
        reactions,
    };
    assert(msg.reactions@.map_values(|p: (String, u32)| (p.0@, p.1)) =~= match v.reactions {
        Some(rs) => loose_reactions(rs@),
        None => Seq::empty(),
    });
    assert(msg.author@ == loose_author_name(v.author));
    assert(msg.author_id.0 == loose_author_id(v.author));
    assert(image_view(msg.attachment_images@) == loose_message_images(*v));
    assert(msg.content@ == loose_content(text_or_empty(v.content), loose_message_images(*v).len()));
    assert(msg.is_self == (my_id == Some(SnowflakeID(loose_author_id(v.author)))));
    (msg, imgs2)
}

/// The pane entry of a history message as seen by `my_id` (see [`value_displays`]), with the
/// images to fetch.
pub fn display_message_from_value(v: &MessageValue, my_id: Option<SnowflakeID>, now_ms: i64)
    -> (r: (DisplayMessage, Vec<(SnowflakeID, String)>))
    ensures
        value_displays(r.0, *v, my_id, now_ms),
        r.1@ == r.0.attachment_images@,
{
    match v {
        MessageValue::Full(d) => display_message_from(d, my_id, now_ms),
        MessageValue::Loose(l) => {
            let ts = match parse_rfc3339_ms(text_of(&l.timestamp)) {
                Some(t) => t,
                None => now_ms,
            };
            loose_display_message(l, my_id, ts)
        },
    }
}

/// The images of the entries of `l`, in order.
pub open spec fn all_images(l: Seq<DisplayMessage>) -> Seq<(u64, Seq<char>)>
    decreases l.len(),
{
    if l.len() == 0 {
        Seq::empty()
    } else {
        all_images(l.drop_last()) + image_view(l.last().attachment_images@)
    }
}

/// What follows the load of a channel's history: the images to fetch, and the message to
/// acknowledge as read.
pub struct BackfillFollowUp {
    pub images: Vec<(SnowflakeID, String)>,
    pub ack: Option<SnowflakeID>,
}

/// Outcome of loading the history of `channel` (newest message first, as the server sends
/// it): the channel's list becomes those messages oldest first, the images of all of them are
/// to be fetched, the newest is acknowledged, and the status gives the count; or the status
/// gives the error.
pub fn backfill_done(state: &mut AppState, channel: SnowflakeID, outcome: Result<Vec<MessageValue>, String>, now_ms: i64)
    -> (r: BackfillFollowUp)
    ensures
        match outcome {
            Ok(vs) => {
                let n = vs.len();
                let list = final(state).messages@[channel.0]@;
                &&& final(state).messages@ == old(state).messages@.insert(channel.0, final(state).messages@[channel.0])
                &&& list.len() == n
                &&& forall|i: int| 0 <= i < n ==> value_displays(#[trigger] list[i], vs@[n - 1 - i], old(state).people.my_user_id, now_ms)
                &&& image_view(r.images@) == all_images(list)
                &&& r.ack == (if n > 0 { Some(list[n - 1].id) } else { None })
                &&& status_set(AppState { messages: final(state).messages, ..*old(state) }, *final(state),
                    "loaded "@ + dec(n as nat) + " messages"@)
            },
            Err(e) => {
                &&& status_set(*old(state), *final(state), "backfill failed: "@ + e@)
                &&& r.images@.len() == 0
                &&& r.ack is None
            },
        },
{
    match outcome {
        Err(e) => {
            let mut st = owned("backfill failed: ");
            push_str(&mut st, e.as_str());
            set_status_to(state, st);
            BackfillFollowUp { images: Vec::new(), ack: None }
        },
        Ok(vs) => {
            let my_id = state.people.my_user_id;
            let n = vs.len();
            let mut display: Vec<DisplayMessage> = Vec::new();
            let mut images: Vec<(SnowflakeID, String)> = Vec::new();
            let mut k: usize = n;
            while k > 0
                invariant
                    0 <= k <= n,
                    n == vs.len(),
                    display.len() == n - k,
                    forall|i: int| 0 <= i < n - k ==> value_displays(#[trigger] display@[i], vs@[n - 1 - i], my_id, now_ms),
                    image_view(images@) == all_images(display@),
                decreases k,
            {
                k -= 1;
                let ghost d0 = display@;
                let ghost i0 = images@;
                let (dm, im) = display_message_from_value(&vs[k], my_id, now_ms);
                let mut im = im;
                images.append(&mut im);
                display.push(dm);
                proof {
                    assert(display@.drop_last() =~= d0);
                    assert(image_view(images@) =~= image_view(i0) + image_view(display@.last().attachment_images@));
                }
            }
            let count = display.len();
            let ack = if count > 0 { Some(display[count - 1].id) } else { None };
            let ghost fin = display@;
            state.messages.insert(channel.0, display);
            proof {
                assert(state.messages@[channel.0]@ == fin);
            }
            let mut st = owned("loaded ");
            push_decimal(&mut st, count as u64);
            push_str(&mut st, " messages");
            set_status_to(state, st);
            BackfillFollowUp { images, ack }
        },
    }
}

} // verus!
