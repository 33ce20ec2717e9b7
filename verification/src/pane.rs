use vstd::prelude::*;
use crate::decimal::{dec, push_decimal};
use crate::markup::{Piece, Tone, markdown, markdown_spans, pieces_view, push_piece, resolve_mentions, resolved};
use crate::appstate::{AppState, channel_name_in, channel_names_agree, display_name_of};
use crate::snowflake::SnowflakeID;
use crate::text::{seq_starts_with, slice_vec, starts_with, string_from_chars};
use crate::state::{ChannelSummary, DisplayMessage, Focus, PresenceStatus, glyph_of};
use crate::appstate::{chans_of, msgs_of};
use crate::text::{chars_of, first_chars, owned, push_char, push_str, seq_contains, take_chars};
use crate::events::{first_pos, lemma_first_pos, lemma_first_pos_at};

verus! {

broadcast use vstd::seq_lib::group_seq_properties;

/// Rows taken by the thumbnail of an image in the message pane.
pub const THUMB_HEIGHT: u16 = 4;

/// Columns taken by the thumbnail of an image in the message pane.
pub const THUMB_WIDTH: u16 = 12;

/// The rows a message takes in the message pane: its line, a thumbnail per image (the count
/// cut to 16 bits), a reply line and a reactions line when it has them.
pub open spec fn height_of(m: DisplayMessage) -> int {
    1 + (m.attachment_images@.len() as u16) * 4 + (if m.reply_to is Some { 1int } else { 0 })
        + (if m.reactions@.len() > 0 { 1int } else { 0 })
}

/// The rows a message takes in the message pane (see [`height_of`]).
pub fn message_height(m: &DisplayMessage) -> (r: u16)
    requires
        height_of(*m) <= u16::MAX,
    ensures
        r == height_of(*m),
{
    let n = m.attachment_images.len() as u16;
    1 + n * THUMB_HEIGHT + (if m.reply_to.is_some() { 1u16 } else { 0 }) + (if m.reactions.len() > 0 { 1u16 } else { 0 })
}

/// `s` cut to `max` characters, the last of them an ellipsis when it is cut.
pub open spec fn truncated(s: Seq<char>, max: nat) -> Seq<char> {
    if s.len() <= max { s } else { s.take(max - 1).push('…') }
}

/// `s` cut to `max` characters (see [`truncated`]). A string longer than nothing cannot be
/// cut to zero characters.
pub fn truncate(s: &str, max: usize) -> (r: String)
    requires
        s@.len() <= max || max > 0,
    ensures
        r@ == truncated(s@, max as nat),
{
    let n = chars_of(s).len();
    if n <= max {
        return owned(s);
    }
    let mut out = first_chars(s, max - 1);
    push_char(&mut out, '…');
    out
}

/// How long ago a message was sent, from the milliseconds between it and now: nothing for
/// a time a second or more in the future, `· now` under 45 seconds, else whole minutes
/// under an hour, whole hours under a day, else whole days.
pub open spec fn ago_text(diff_ms: int) -> Seq<char> {
    if diff_ms <= -1000 {
        Seq::empty()
    } else if diff_ms < 45000 {
        "· now"@
    } else if diff_ms < 3_600_000 {
        "· "@ + dec((diff_ms / 60000) as nat) + "m"@
    } else if diff_ms < 86_400_000 {
        "· "@ + dec((diff_ms / 3_600_000) as nat) + "h"@
    } else {
        "· "@ + dec((diff_ms / 86_400_000) as nat) + "d"@
    }
}

/// How long ago a message stamped `ts_ms` was sent at `now_ms` (see [`ago_text`]).
pub fn rel_time(ts_ms: i64, now_ms: i64) -> (r: String)
    ensures
        r@ == ago_text(now_ms - ts_ms),
{
    let diff: i128 = (now_ms as i128) - (ts_ms as i128);
    if diff <= -1000 {
        return String::new();
    }
    if diff < 45000 {
        return owned("· now");
    }
    let mut out = owned("· ");
    if diff < 3_600_000 {
        push_decimal(&mut out, (diff / 60000) as u64);
        push_str(&mut out, "m");
    } else if diff < 86_400_000 {
        push_decimal(&mut out, (diff / 3_600_000) as u64);
        push_str(&mut out, "h");
    } else {
        assert(diff / 86_400_000 <= u64::MAX) by (nonlinear_arith)
            requires diff <= 2 * 9223372036854775808int, diff >= 0;
        push_decimal(&mut out, (diff / 86_400_000) as u64);
        push_str(&mut out, "d");
    }
    out
}

/// The two digits of a number under a hundred.
pub open spec fn two_digits(n: int) -> Seq<char> {
    seq![crate::decimal::digit_char((n / 10) as nat), crate::decimal::digit_char((n % 10) as nat)]
}

/// The hour and minute, in UTC, of a time stamp in milliseconds since the epoch (`%H:%M`).
pub open spec fn clock_text(ts_ms: int) -> Seq<char> {
    let minute_of_day = ((ts_ms / 1000) / 60) % 1440;
    two_digits(minute_of_day / 60) + ":"@ + two_digits(minute_of_day % 60)
}

fn push_two_digits(out: &mut String, n: u64)
    requires
        n < 100,
    ensures
        final(out)@ == old(out)@ + two_digits(n as int),
{
    let d1 = n / 10;
    let d2 = n % 10;
    push_char(out, crate::decimal::digit_of(d1));
    push_char(out, crate::decimal::digit_of(d2));
}

/// Whole minutes are whole seconds taken sixty at a time, for times before the epoch too.
proof fn lemma_minutes(x: int)
    ensures
        (x / 1000) / 60 == x / 60000,
{
    let q = x / 60000;
    let r = x % 60000;
    vstd::arithmetic::div_mod::lemma_fundamental_div_mod(x, 60000);
    let a = r / 1000;
    let b = r % 1000;
    vstd::arithmetic::div_mod::lemma_fundamental_div_mod(r, 1000);
    assert(0 <= a < 60);
    assert(x == (60 * q + a) * 1000 + b) by (nonlinear_arith)
        requires x == 60000 * q + r, r == 1000 * a + b;
    vstd::arithmetic::div_mod::lemma_fundamental_div_mod_converse_div(x, 1000, 60 * q + a, b);
    vstd::arithmetic::div_mod::lemma_fundamental_div_mod_converse_div(60 * q + a, 60, q, a);
}

/// The hour and minute of a time stamp (see [`clock_text`]).
pub fn clock_hm(ts_ms: i64) -> (r: String)
    ensures
        r@ == clock_text(ts_ms as int),
{
    let q: i64 = ts_ms / 60000;
    let rem: i64 = ts_ms % 60000;
    let mins: i64 = if rem < 0 { q - 1 } else { q };
    let md0: i64 = mins % 1440;
    let mod_day: i64 = if md0 < 0 { md0 + 1440 } else { md0 };
    proof {
        assert(mins == (ts_ms as int) / 60000);
        lemma_minutes(ts_ms as int);
        assert(mod_day == (mins as int) % 1440);
    }
    let m = mod_day as u64;
    let mut out = String::new();
    push_two_digits(&mut out, m / 60);
    push_str(&mut out, ":");
    push_two_digits(&mut out, m % 60);
    out
}

/// A message mentions the user `my_id`: its text holds `<@` and the id, or `@everyone`, or
/// `@here`.
pub open spec fn mentions_user(content: Seq<char>, my_id: Option<u64>) -> bool {
    (match my_id {
        Some(id) => seq_contains(content, "<@"@ + dec(id as nat)),
        None => false,
    }) || seq_contains(content, "@everyone"@) || seq_contains(content, "@here"@)
}

/// Whether a message mentions the user (see [`mentions_user`]).
pub fn mentions_me(content: &str, my_id: Option<u64>) -> (r: bool)
    ensures
        r == mentions_user(content@, my_id),
{
    let direct = match my_id {
        Some(id) => {
            let mut needle = owned("<@");
            push_decimal(&mut needle, id);
            crate::text::contains(content, needle.as_str())
        },
        None => false,
    };
    direct || crate::text::contains(content, "@everyone") || crate::text::contains(content, "@here")
}

/// The messages that fit above (and at) position `k - 1`, walking up from it while the
/// rows used stay within `cap`: their positions, nearest first, and the rows used.
pub open spec fn fit_back(hs: Seq<int>, k: nat, used: int, cap: int) -> (Seq<int>, int)
    decreases k,
{
    if k == 0 || k > hs.len() || used + hs[k - 1] > cap {
        (Seq::empty(), used)
    } else {
        let r = fit_back(hs, (k - 1) as nat, used + hs[k - 1], cap);
        (seq![k - 1] + r.0, r.1)
    }
}

/// The messages that fit below, from position `i`, walking down while the rows used stay
/// within `cap`.
pub open spec fn fit_fwd(hs: Seq<int>, i: int, used: int, cap: int) -> Seq<int>
    decreases hs.len() - i,
{
    if i < 0 || i >= hs.len() || used + hs[i] > cap {
        Seq::empty()
    } else {
        seq![i] + fit_fwd(hs, i + 1, used + hs[i], cap)
    }
}

/// The messages shown in a pane of `cap` rows with message heights `hs`, around `anchor`:
/// as many as fit from the anchor upwards, then as many as still fit below it; in order.
pub open spec fn window(hs: Seq<int>, anchor: int, cap: int) -> Seq<int> {
    let b = fit_back(hs, (anchor + 1) as nat, 0, cap);
    b.0.reverse() + fit_fwd(hs, anchor + 1, b.1, cap)
}

/// The heights of messages in the pane.
pub open spec fn heights(ms: Seq<DisplayMessage>) -> Seq<int> {
    ms.map_values(|m: DisplayMessage| height_of(m))
}

/// The positions of the messages shown in a pane of `cap` rows around `anchor` (see
/// [`window`]).
pub fn visible_messages(ms: &[DisplayMessage], anchor: usize, cap: u16) -> (r: Vec<usize>)
    requires
        anchor < ms@.len(),
        forall|i: int| 0 <= i < ms@.len() ==> height_of(#[trigger] ms@[i]) <= u16::MAX,
    ensures
        r@.map_values(|i: usize| i as int) == window(heights(ms@), anchor as int, cap as int),
{
    let ghost hs = heights(ms@);
    let n = ms.len();
    let mut back: Vec<usize> = Vec::new();
    let mut used: u32 = 0;
    let mut k: usize = anchor + 1;
    let ghost full = fit_back(hs, k as nat, 0, cap as int);
    while k > 0 && used + message_height(&ms[k - 1]) as u32 <= cap as u32
        invariant
            k <= anchor + 1,
            anchor < ms@.len(),
            hs == heights(ms@),
            forall|i: int| 0 <= i < ms@.len() ==> height_of(#[trigger] ms@[i]) <= u16::MAX,
            used <= cap,
            (back@.map_values(|i: usize| i as int) + fit_back(hs, k as nat, used as int, cap as int).0,
                fit_back(hs, k as nat, used as int, cap as int).1) == full,
        decreases k,
    {
        let h = message_height(&ms[k - 1]);
        let ghost b0 = back@;
        back.push(k - 1);
        assert(back@.map_values(|i: usize| i as int) =~= b0.map_values(|i: usize| i as int).push(k - 1));
        used = used + h as u32;
        k -= 1;
        proof {
            let fb = fit_back(hs, (k + 1) as nat, (used - h) as int, cap as int);
            assert(fb.0 == seq![k as int] + fit_back(hs, k as nat, used as int, cap as int).0);
            assert(b0.map_values(|i: usize| i as int) + fb.0 =~= back@.map_values(|i: usize| i as int) + fit_back(hs, k as nat, used as int, cap as int).0);
        }
    }
    proof {
        assert(fit_back(hs, k as nat, used as int, cap as int).0 =~= Seq::<int>::empty());
    }
    let mut out: Vec<usize> = Vec::new();
    let mut j = back.len();
    while j > 0
        invariant
            j <= back.len(),
            out@ == back@.subrange(j as int, back@.len() as int).reverse(),
        decreases j,
    {
        out.push(back[j - 1]);
        assert(out@ =~= back@.subrange(j - 1, back@.len() as int).reverse());
        j -= 1;
    }
    assert(out@.map_values(|i: usize| i as int) =~= full.0.reverse());
    let ghost o0 = out@.map_values(|i: usize| i as int);
    let mut i: usize = anchor + 1;
    while i < ms.len() && used + message_height(&ms[i]) as u32 <= cap as u32
        invariant
            anchor + 1 <= i <= ms@.len(),
            hs == heights(ms@),
            forall|t: int| 0 <= t < ms@.len() ==> height_of(#[trigger] ms@[t]) <= u16::MAX,
            used <= cap,
            out@.map_values(|t: usize| t as int) + fit_fwd(hs, i as int, used as int, cap as int)
                == o0 + fit_fwd(hs, anchor + 1, full.1, cap as int),
        decreases ms.len() - i,
    {
        let h = message_height(&ms[i]);
        let ghost p0 = out@;
        out.push(i);
        assert(out@.map_values(|t: usize| t as int) =~= p0.map_values(|t: usize| t as int).push(i as int));
        used = used + h as u32;
        i += 1;
        proof {
            let ff = fit_fwd(hs, i - 1, (used - h) as int, cap as int);
            assert(ff == seq![(i - 1) as int] + fit_fwd(hs, i as int, used as int, cap as int));
            assert(p0.map_values(|t: usize| t as int) + ff =~= out@.map_values(|t: usize| t as int) + fit_fwd(hs, i as int, used as int, cap as int));
        }
    }
    proof {
        assert(fit_fwd(hs, i as int, used as int, cap as int) =~= Seq::<int>::empty());
    }
    out
}

/// The time piece of a message line: its hour and minute, and how long ago when relative
/// times are shown, then a space.
pub open spec fn stamp_text(m: DisplayMessage, show_relative: bool, now_ms: i64) -> Seq<char> {
    clock_text(m.timestamp_ms as int) + (if show_relative { " "@ + ago_text(now_ms - m.timestamp_ms) } else { Seq::empty() }) + " "@
}

/// The pieces of a message's line: time, the mention mark, author, its text with mentions
/// written out and markdown, the edit mark, and the count of images.
pub open spec fn line_pieces(m: DisplayMessage, mention: bool, show_relative: bool, now_ms: i64, dir: Map<u64, String>,
    chans: Map<u64, Vec<ChannelSummary>>) -> Seq<(Tone, Seq<char>)> {
    seq![(Tone::Dim, stamp_text(m, show_relative, now_ms))]
        + (if mention { seq![(Tone::Mention, "▎"@)] } else { Seq::empty() })
        + seq![(if m.is_self { Tone::SelfAuthor } else { Tone::OtherAuthor }, m.author@), (Tone::Plain, ": "@)]
        + markdown(resolved(m.content@, dir, chans), Seq::empty())
        + (if m.edited { seq![(Tone::Dim, " (edited)"@)] } else { Seq::empty() })
        + (if m.attachment_images@.len() > 0 {
            seq![(Tone::Images, "  ["@ + dec(m.attachment_images@.len()) + "🖼]"@)]
        } else {
            Seq::empty()
        })
}

/// The room left for a reply snippet in a pane `width` columns wide.
pub open spec fn snippet_room(width: int) -> int {
    if width >= 8 { width - 8 } else { 0 }
}

/// A reply line can be cut to the room of the pane: it has room, or nothing to cut.
pub open spec fn reply_fits(m: DisplayMessage, width: int) -> bool {
    m.reply_to matches Some(p) ==> (p.1@.len() <= snippet_room(width) || snippet_room(width) > 0)
}

/// The pieces of a message's reply line: an arrow, the replied-to author, the snippet cut
/// to the room of the pane; none without a reply.
pub open spec fn reply_pieces(m: DisplayMessage, width: int) -> Seq<(Tone, Seq<char>)> {
    match m.reply_to {
        Some(p) => seq![(Tone::Dim, "  ↪ "@), (Tone::ReplyAuthor, p.0@ + ": "@), (Tone::Dim, truncated(p.1@, snippet_room(width) as nat))],
        None => Seq::empty(),
    }
}

/// The chips of reactions: name and count, each followed by a space.
pub open spec fn chips(rs: Seq<(String, u32)>) -> Seq<(Tone, Seq<char>)>
    decreases rs.len(),
{
    if rs.len() == 0 {
        Seq::empty()
    } else {
        chips(rs.drop_last()) + seq![(Tone::Reaction, " "@ + rs.last().0@ + " "@ + dec(rs.last().1 as nat) + " "@), (Tone::Plain, " "@)]
    }
}

/// The pieces of a message's reactions line; none without reactions.
pub open spec fn reaction_pieces(m: DisplayMessage) -> Seq<(Tone, Seq<char>)> {
    if m.reactions@.len() > 0 { seq![(Tone::Plain, "   "@)] + chips(m.reactions@) } else { Seq::empty() }
}

/// A message as drawn in the pane: its position in the channel, its first row and height,
/// whether it is selected and whether it is highlighted as mentioning the user, its reply,
/// text and reactions lines (empty when absent), and the first row of each image thumbnail.
pub struct MessageRow {
    pub index: usize,
    pub top: u16,
    pub height: u16,
    pub selected: bool,
    pub highlighted: bool,
    pub reply: Vec<Piece>,
    pub line: Vec<Piece>,
    pub reactions: Vec<Piece>,
    pub thumbs: Vec<(SnowflakeID, u16)>,
}

/// The row under the lines of a message drawn from row `top`, where its thumbnails start.
pub open spec fn thumbs_top(m: DisplayMessage, top: int) -> int {
    top + (if m.reply_to is Some { 1int } else { 0 }) + 1 + (if m.reactions@.len() > 0 { 1int } else { 0 })
}

/// How many thumbnails from row `first` fit in a pane of `cap` rows.
pub open spec fn thumbs_fitting(first: int, cap: int) -> int {
    if first + 4 <= cap { (cap - first - 4) / 4 + 1 } else { 0 }
}

/// The first row of each thumbnail of a message drawn from row `top`, one thumbnail height
/// apart under its lines, as many as fit in a pane of `cap` rows.
pub open spec fn thumb_rows(m: DisplayMessage, top: int, cap: int) -> Seq<(u64, int)> {
    let n = m.attachment_images@.len() as int;
    let k = thumbs_fitting(thumbs_top(m, top), cap);
    Seq::new((if n < k { n } else { k }) as nat, |i: int| (m.attachment_images@[i].0.0, thumbs_top(m, top) + 4 * i))
}

/// `r` draws message `m` at position `index` from row `top`.
pub open spec fn row_ok(r: MessageRow, m: DisplayMessage, index: int, top: int, selected: bool, mention: bool, show_relative: bool,
    now_ms: i64, width: int, cap: int, dir: Map<u64, String>, chans: Map<u64, Vec<ChannelSummary>>) -> bool {
    &&& r.index == index
    &&& r.top == top
    &&& r.height == height_of(m)
    &&& r.selected == selected
    &&& r.highlighted == (mention && !selected)
    &&& pieces_view(r.reply@) == reply_pieces(m, width)
    &&& (channel_names_agree(chans) ==> pieces_view(r.line@) == line_pieces(m, mention, show_relative, now_ms, dir, chans))
    &&& pieces_view(r.reactions@) == reaction_pieces(m)
    &&& r.thumbs@.map_values(|t: (SnowflakeID, u16)| (t.0.0, t.1 as int)) == thumb_rows(m, top, cap)
}

fn chip_pieces(rs: &Vec<(String, u32)>) -> (r: Vec<Piece>)
    ensures
        pieces_view(r@) == (if rs@.len() > 0 { seq![(Tone::Plain, "   "@)] + chips(rs@) } else { Seq::empty() }),
{
    let mut out: Vec<Piece> = Vec::new();
    if rs.len() == 0 {
        assert(pieces_view(out@) =~= Seq::empty());
        return out;
    }
    push_piece(&mut out, Tone::Plain, owned("   "));
    let ghost o0 = pieces_view(out@);
    assert(o0 =~= seq![(Tone::Plain, "   "@)]);
    let mut i: usize = 0;
    while i < rs.len()
        invariant
            0 <= i <= rs.len(),
            pieces_view(out@) == o0 + chips(rs@.take(i as int)),
        decreases rs.len() - i,
    {
        assert(rs@.take(i + 1).drop_last() =~= rs@.take(i as int));
        let mut t = owned(" ");
        push_str(&mut t, rs[i].0.as_str());
        push_str(&mut t, " ");
        push_decimal(&mut t, rs[i].1 as u64);
        push_str(&mut t, " ");
        let ghost before = pieces_view(out@);
        push_piece(&mut out, Tone::Reaction, t);
        push_piece(&mut out, Tone::Plain, owned(" "));
        assert(pieces_view(out@) =~= before + seq![(Tone::Reaction, " "@ + rs@[i as int].0@ + " "@ + dec(rs@[i as int].1 as nat) + " "@), (Tone::Plain, " "@)]);
        i += 1;
    }
    assert(rs@.take(rs.len() as int) =~= rs@);
    out
}

fn append_pieces(out: &mut Vec<Piece>, more: Vec<Piece>)
    ensures
        pieces_view(final(out)@) == pieces_view(old(out)@) + pieces_view(more@),
{
    let ghost before = out@;
    let mut more = more;
    let ghost m = more@;
    out.append(&mut more);
    assert(pieces_view(out@) =~= pieces_view(before) + pieces_view(m));
}

fn line_of(m: &DisplayMessage, mention: bool, state: &AppState, now_ms: i64) -> (r: Vec<Piece>)
    ensures
        channel_names_agree(state.channels_by_guild@) ==> pieces_view(r@) == line_pieces(*m, mention, state.prefs.show_relative_time,
            now_ms, state.people.user_dir@, state.channels_by_guild@),
{
    let ghost dir = state.people.user_dir@;
    let ghost chans = state.channels_by_guild@;
    let mut ts = clock_hm(m.timestamp_ms);
    if state.prefs.show_relative_time {
        push_str(&mut ts, " ");
        let rel = rel_time(m.timestamp_ms, now_ms);
        push_str(&mut ts, rel.as_str());
    }
    push_str(&mut ts, " ");
    assert(ts@ =~= stamp_text(*m, state.prefs.show_relative_time, now_ms));
    let mut out: Vec<Piece> = Vec::new();
    push_piece(&mut out, Tone::Dim, ts);
    if mention {
        push_piece(&mut out, Tone::Mention, owned("▎"));
    }
    push_piece(&mut out, if m.is_self { Tone::SelfAuthor } else { Tone::OtherAuthor }, m.author.clone());
    push_piece(&mut out, Tone::Plain, owned(": "));
    let ghost head = pieces_view(out@);
    assert(head =~= seq![(Tone::Dim, stamp_text(*m, state.prefs.show_relative_time, now_ms))]
        + (if mention { seq![(Tone::Mention, "▎"@)] } else { Seq::empty() })
        + seq![(if m.is_self { Tone::SelfAuthor } else { Tone::OtherAuthor }, m.author@), (Tone::Plain, ": "@)]);
    let resolved_text = resolve_mentions(m.content.as_str(), state);
    let md = markdown_spans(resolved_text.as_str());
    let ghost mdv = pieces_view(md@);
    append_pieces(&mut out, md);
    let ghost mid = pieces_view(out@);
    if m.edited {
        push_piece(&mut out, Tone::Dim, owned(" (edited)"));
    }
    let ghost mid2 = pieces_view(out@);
    assert(mid2 =~= mid + (if m.edited { seq![(Tone::Dim, " (edited)"@)] } else { Seq::empty() }));
    if m.attachment_images.len() > 0 {
        let mut t = owned("  [");
        push_decimal(&mut t, m.attachment_images.len() as u64);
        push_str(&mut t, "🖼]");
        push_piece(&mut out, Tone::Images, t);
    }
    assert(pieces_view(out@) =~= mid2 + (if m.attachment_images@.len() > 0 {
        seq![(Tone::Images, "  ["@ + dec(m.attachment_images@.len()) + "🖼]"@)]
    } else {
        Seq::empty()
    }));
    proof {
        if channel_names_agree(state.channels_by_guild@) {
            assert(mdv == markdown(resolved(m.content@, dir, chans), Seq::empty()));
        }
    }
    out
}

fn reply_of(m: &DisplayMessage, width: u16) -> (r: Vec<Piece>)
    requires
        reply_fits(*m, width as int),
    ensures
        pieces_view(r@) == reply_pieces(*m, width as int),
{
    let mut out: Vec<Piece> = Vec::new();
    match &m.reply_to {
        Some(p) => {
            push_piece(&mut out, Tone::Dim, owned("  ↪ "));
            let mut who = p.0.clone();
            push_str(&mut who, ": ");
            push_piece(&mut out, Tone::ReplyAuthor, who);
            let room: usize = if width >= 8 { (width - 8) as usize } else { 0 };
            push_piece(&mut out, Tone::Dim, truncate(p.1.as_str(), room));
            assert(pieces_view(out@) =~= reply_pieces(*m, width as int));
        },
        None => {
            assert(pieces_view(out@) =~= Seq::empty());
        },
    }
    out
}

fn thumbs_of(m: &DisplayMessage, top: u16, cap: u16) -> (r: Vec<(SnowflakeID, u16)>)
    requires
        top <= cap,
    ensures
        r@.map_values(|t: (SnowflakeID, u16)| (t.0.0, t.1 as int)) == thumb_rows(*m, top as int, cap as int),
{
    let first: u32 = top as u32 + (if m.reply_to.is_some() { 1u32 } else { 0 }) + 1 + (if m.reactions.len() > 0 { 1u32 } else { 0 });
    let n = m.attachment_images.len();
    let ghost k = thumbs_fitting(first as int, cap as int);
    let mut out: Vec<(SnowflakeID, u16)> = Vec::new();
    let mut i: usize = 0;
    while i < n && first + 4 * (i as u32) + 4 <= cap as u32
        invariant
            0 <= i <= n,
            n == m.attachment_images@.len(),
            i <= k || i == 0,
            first as int == thumbs_top(*m, top as int),
            first <= cap as u32 + 3,
            i <= 16384,
            k == thumbs_fitting(first as int, cap as int),
            i == 0 || first + 4 * i <= cap as int,
            out@.len() == i,
            forall|j: int| 0 <= j < i ==> (#[trigger] out@[j]).0 == m.attachment_images@[j].0 && out@[j].1 == first + 4 * j,
        decreases n - i,
    {
        let y: u16 = (first + 4 * (i as u32)) as u16;
        assert(y == first + 4 * i);
        out.push((m.attachment_images[i].0, y));
        i += 1;
    }
    proof {
        let cnt: int = if (n as int) < k { n as int } else { k };
        if first as int + 4 <= cap as int {
            assert(k == (cap as int - first as int - 4) / 4 + 1);
            assert((i as int) < n as int ==> first as int + 4 * i + 4 > cap as int);
            assert(i as int == cnt) by (nonlinear_arith)
                requires
                    k == (cap as int - first as int - 4) / 4 + 1,
                    cnt == (if (n as int) < k { n as int } else { k }),
                    i == 0 || first + 4 * i <= cap as int,
                    (i as int) < n as int ==> first as int + 4 * i + 4 > cap as int,
                    i <= n,
                    first + 4 <= cap as int;
        } else {
            assert(i == 0);
        }
        assert(out@.map_values(|t: (SnowflakeID, u16)| (t.0.0, t.1 as int)) =~= thumb_rows(*m, top as int, cap as int));
    }
    out
}

/// The total height of the messages at positions `ix`.
pub open spec fn sum_at(hs: Seq<int>, ix: Seq<int>) -> int
    decreases ix.len(),
{
    if ix.len() == 0 { 0 } else { sum_at(hs, ix.drop_last()) + hs[ix.last()] }
}

pub proof fn lemma_sum_single(hs: Seq<int>, x: int)
    ensures
        sum_at(hs, seq![x]) == hs[x],
{
    let s = seq![x];
    assert(s.drop_last() =~= Seq::<int>::empty());
    assert(sum_at(hs, s.drop_last()) == 0);
    assert(s.last() == x);
}

pub proof fn lemma_sum_concat(hs: Seq<int>, a: Seq<int>, b: Seq<int>)
    ensures
        sum_at(hs, a + b) == sum_at(hs, a) + sum_at(hs, b),
    decreases b.len(),
{
    if b.len() == 0 {
        assert(a + b =~= a);
    } else {
        lemma_sum_concat(hs, a, b.drop_last());
        assert((a + b).drop_last() =~= a + b.drop_last());
    }
}

pub proof fn lemma_sum_reverse(hs: Seq<int>, a: Seq<int>)
    ensures
        sum_at(hs, a.reverse()) == sum_at(hs, a),
    decreases a.len(),
{
    if a.len() > 0 {
        lemma_sum_reverse(hs, a.drop_last());
        assert(a.reverse() =~= seq![a.last()] + a.drop_last().reverse());
        lemma_sum_concat(hs, seq![a.last()], a.drop_last().reverse());
        assert(seq![a.last()].drop_last() =~= Seq::<int>::empty());
        lemma_sum_single(hs, a.last());
    }
}

pub proof fn lemma_sum_prefix(hs: Seq<int>, a: Seq<int>, k: int)
    requires
        0 <= k <= a.len(),
        forall|j: int| 0 <= j < a.len() ==> hs[#[trigger] a[j]] >= 0,
    ensures
        sum_at(hs, a.take(k)) <= sum_at(hs, a),
    decreases a.len() - k,
{
    if k < a.len() {
        lemma_sum_prefix(hs, a, k + 1);
        assert(a.take(k + 1).drop_last() =~= a.take(k));
    } else {
        assert(a.take(k) =~= a);
    }
}

pub proof fn lemma_fit_back(hs: Seq<int>, k: nat, used: int, cap: int)
    requires
        used <= cap,
        k <= hs.len(),
    ensures
        fit_back(hs, k, used, cap).1 <= cap,
        fit_back(hs, k, used, cap).1 == used + sum_at(hs, fit_back(hs, k, used, cap).0),
        forall|j: int| 0 <= j < fit_back(hs, k, used, cap).0.len() ==> 0 <= #[trigger] fit_back(hs, k, used, cap).0[j] < k,
    decreases k,
{
    if !(k == 0 || used + hs[k - 1] > cap) {
        let r = fit_back(hs, (k - 1) as nat, used + hs[k - 1], cap);
        lemma_fit_back(hs, (k - 1) as nat, used + hs[k - 1], cap);
        lemma_sum_concat(hs, seq![k - 1], r.0);
        assert(seq![k - 1].drop_last() =~= Seq::<int>::empty());
        lemma_sum_single(hs, k - 1);
        assert forall|j: int| 0 <= j < (seq![k - 1] + r.0).len() implies 0 <= #[trigger] (seq![k - 1] + r.0)[j] < k by {
            if j > 0 {
                assert((seq![k - 1] + r.0)[j] == r.0[j - 1]);
            }
        }
    }
}

pub proof fn lemma_fit_fwd(hs: Seq<int>, i: int, used: int, cap: int)
    requires
        used <= cap,
        0 <= i,
    ensures
        used + sum_at(hs, fit_fwd(hs, i, used, cap)) <= cap,
        forall|j: int| 0 <= j < fit_fwd(hs, i, used, cap).len() ==> i <= #[trigger] fit_fwd(hs, i, used, cap)[j] < hs.len(),
    decreases hs.len() - i,
{
    if !(i < 0 || i >= hs.len() || used + hs[i] > cap) {
        let r = fit_fwd(hs, i + 1, used + hs[i], cap);
        lemma_fit_fwd(hs, i + 1, used + hs[i], cap);
        lemma_sum_concat(hs, seq![i], r);
        assert(seq![i].drop_last() =~= Seq::<int>::empty());
        lemma_sum_single(hs, i);
        assert forall|j: int| 0 <= j < (seq![i] + r).len() implies i <= #[trigger] (seq![i] + r)[j] < hs.len() by {
            if j > 0 {
                assert((seq![i] + r)[j] == r[j - 1]);
            }
        }
    }
}

/// The messages shown fit in the pane, and their positions are messages of the channel.
pub proof fn lemma_window(hs: Seq<int>, anchor: int, cap: int)
    requires
        0 <= anchor < hs.len(),
        0 <= cap,
    ensures
        sum_at(hs, window(hs, anchor, cap)) <= cap,
        forall|j: int| 0 <= j < window(hs, anchor, cap).len() ==> 0 <= #[trigger] window(hs, anchor, cap)[j] < hs.len(),
{
    let b = fit_back(hs, (anchor + 1) as nat, 0, cap);
    lemma_fit_back(hs, (anchor + 1) as nat, 0, cap);
    lemma_fit_fwd(hs, anchor + 1, b.1, cap);
    lemma_sum_reverse(hs, b.0);
    lemma_sum_concat(hs, b.0.reverse(), fit_fwd(hs, anchor + 1, b.1, cap));
    let w = window(hs, anchor, cap);
    assert forall|j: int| 0 <= j < w.len() implies 0 <= #[trigger] w[j] < hs.len() by {
        if j < b.0.len() {
            assert(w[j] == b.0[b.0.len() - 1 - j]);
        } else {
            assert(w[j] == fit_fwd(hs, anchor + 1, b.1, cap)[j - b.0.len()]);
        }
    }
}

/// The user id as a plain number, when known.
pub open spec fn my_id_of(state: AppState) -> Option<u64> {
    match state.people.my_user_id {
        Some(id) => Some(id.0),
        None => None,
    }
}

/// Draws message `m` at position `index` from row `top` of a pane `cap` rows high and
/// `width` columns wide (see [`row_ok`]).
pub fn message_row(m: &DisplayMessage, index: usize, top: u16, cap: u16, selected: bool, state: &AppState, width: u16, now_ms: i64)
    -> (r: MessageRow)
    requires
        top + height_of(*m) <= cap,
        reply_fits(*m, width as int),
    ensures
        row_ok(r, *m, index as int, top as int, selected, mentions_user(m.content@, my_id_of(*state)),
            state.prefs.show_relative_time, now_ms, width as int, cap as int, state.people.user_dir@, state.channels_by_guild@),
{
    let my_id: Option<u64> = match state.people.my_user_id {
        Some(id) => Some(id.0),
        None => None,
    };
    let mention = mentions_me(m.content.as_str(), my_id);
    MessageRow {
        index,
        top,
        height: message_height(m),
        selected,
        highlighted: mention && !selected,
        reply: reply_of(m, width),
        line: line_of(m, mention, state, now_ms),
        reactions: chip_pieces(&m.reactions),
        thumbs: thumbs_of(m, top, cap),
    }
}

/// The messages of the selected channel.
pub open spec fn shown_msgs(state: AppState) -> Seq<DisplayMessage> {
    match state.nav.current_channel {
        Some(c) => msgs_of(state.messages@, c.0),
        None => Seq::empty(),
    }
}

/// The message the pane is drawn around: the selected one when the message pane has the
/// focus, else the last.
pub open spec fn pane_anchor(state: AppState) -> int {
    let n = shown_msgs(state).len();
    let cursor = if state.nav.message_cursor < n - 1 { state.nav.message_cursor as int } else { n - 1 };
    if state.nav.focus == Focus::Messages { cursor } else { n - 1 }
}

/// The selected message (the cursor, kept within the channel).
pub open spec fn pane_cursor(state: AppState) -> int {
    let n = shown_msgs(state).len();
    if state.nav.message_cursor < n - 1 { state.nav.message_cursor as int } else { n - 1 }
}

/// The pane can be drawn: each message's height fits in 16 bits, and each message shown
/// with a reply snippet has room for it.
pub open spec fn pane_drawable(state: AppState, cap: int, width: int) -> bool {
    let ms = shown_msgs(state);
    &&& forall|i: int| 0 <= i < ms.len() ==> height_of(#[trigger] ms[i]) <= u16::MAX
    &&& ms.len() > 0 ==> forall|k: int| 0 <= k < window(heights(ms), pane_anchor(state), cap).len()
        ==> reply_fits(ms[#[trigger] window(heights(ms), pane_anchor(state), cap)[k]], width)
}

/// `rows` draws the messages of the selected channel in a pane `cap` rows high and `width`
/// columns wide: those of the window around the anchor (see [`window`]), stacked from the
/// top, the selected one marked when the pane has the focus.
pub open spec fn pane_rows(state: AppState, cap: int, width: int, now_ms: i64, rows: Seq<MessageRow>) -> bool {
    let ms = shown_msgs(state);
    if ms.len() == 0 || cap == 0 {
        rows.len() == 0
    } else {
        let hs = heights(ms);
        let w = window(hs, pane_anchor(state), cap);
        &&& rows.len() == w.len()
        &&& forall|k: int| 0 <= k < w.len() ==> row_ok(#[trigger] rows[k], ms[w[k]], w[k], sum_at(hs, w.take(k)),
            state.nav.focus == Focus::Messages && w[k] == pane_cursor(state), mentions_user(ms[w[k]].content@, my_id_of(state)),
            state.prefs.show_relative_time, now_ms, width, cap, state.people.user_dir@, state.channels_by_guild@)
    }
}

/// The name of a status as written in the pane title.
pub open spec fn presence_name(p: PresenceStatus) -> Seq<char> {
    match p {
        PresenceStatus::Online => "Online"@,
        PresenceStatus::Idle => "Idle"@,
        PresenceStatus::Dnd => "Dnd"@,
        PresenceStatus::Offline => "Offline"@,
    }
}

/// The status of user `uid`.
pub open spec fn presence_in(state: AppState, uid: u64) -> PresenceStatus {
    if state.people.presence@.contains_key(uid) { state.people.presence@[uid] } else { PresenceStatus::Offline }
}

/// The title of the message pane: the selected channel's name, with the status glyph and
/// name of the other user of a DM; `Messages` when no listed channel is selected.
pub open spec fn pane_title(state: AppState) -> Seq<char> {
    let chans = match state.nav.current_guild {
        Some(g) => chans_of(state.channels_by_guild@, g.0),
        None => Seq::empty(),
    };
    match state.nav.current_channel {
        Some(cid) => {
            let p = first_pos(chans, |c: ChannelSummary| c.id == cid);
            if p >= 0 {
                let c = chans[p];
                match c.recipient_id {
                    Some(uid) => {
                        let st = presence_in(state, uid.0);
                        "  "@ + glyph_of(st) + " "@ + c.name@ + " ("@ + presence_name(st) + ")  "@
                    },
                    None => "  "@ + c.name@ + "  "@,
                }
            } else {
                "Messages"@
            }
        },
        None => "Messages"@,
    }
}

fn presence_word(p: PresenceStatus) -> (r: &'static str)
    ensures
        r@ == presence_name(p),
{
    proof {
        reveal_strlit("Online");
        reveal_strlit("Idle");
        reveal_strlit("Dnd");
        reveal_strlit("Offline");
    }
    match p {
        PresenceStatus::Online => "Online",
        PresenceStatus::Idle => "Idle",
        PresenceStatus::Dnd => "Dnd",
        PresenceStatus::Offline => "Offline",
    }
}

/// The title of the message pane (see [`pane_title`]).
pub fn messages_title(state: &AppState) -> (r: String)
    ensures
        r@ == pane_title(*state),
{
    let chans = state.current_channels();
    match state.nav.current_channel {
        Some(cid) => {
            let mut i: usize = 0;
            while i < chans.len()
                invariant
                    0 <= i <= chans.len(),
                    chans@ == match state.nav.current_guild {
                        Some(g) => chans_of(state.channels_by_guild@, g.0),
                        None => Seq::empty(),
                    },
                    state.nav.current_channel == Some(cid),
                    forall|j: int| 0 <= j < i ==> chans@[j].id != cid,
                decreases chans.len() - i,
            {
                if chans[i].id.0 == cid.0 {
                    proof {
                        lemma_first_pos_at(chans@, |c: ChannelSummary| c.id == cid, i as int);
                    }
                    let c = &chans[i];
                    assert(chans@ == match state.nav.current_guild {
                        Some(g) => chans_of(state.channels_by_guild@, g.0),
                        None => Seq::empty(),
                    });
                    return match c.recipient_id {
                        Some(uid) => {
                            let st = state.presence_of(uid);
                            let mut t = owned("  ");
                            push_str(&mut t, st.glyph());
                            push_str(&mut t, " ");
                            push_str(&mut t, c.name.as_str());
                            push_str(&mut t, " (");
                            push_str(&mut t, presence_word(st));
                            push_str(&mut t, ")  ");
                            assert(t@ =~= "  "@ + glyph_of(st) + " "@ + c.name@ + " ("@ + presence_name(st) + ")  "@);
                            t
                        },
                        None => {
                            let mut t = owned("  ");
                            push_str(&mut t, c.name.as_str());
                            push_str(&mut t, "  ");
                            assert(t@ =~= "  "@ + c.name@ + "  "@);
                            t
                        },
                    };
                }
                i += 1;
            }
            proof {
                lemma_first_pos(chans@, |c: ChannelSummary| c.id == cid);
            }
            owned("Messages")
        },
        None => owned("Messages"),
    }
}

/// The message pane: its title and its rows.
pub struct Pane {
    pub title: String,
    pub rows: Vec<MessageRow>,
}

/// The message pane of a pane `cap` rows high and `width` columns wide at `now_ms` (see
/// [`pane_title`] and [`pane_rows`]).
pub fn message_pane(state: &AppState, cap: u16, width: u16, now_ms: i64) -> (r: Pane)
    requires
        pane_drawable(*state, cap as int, width as int),
    ensures
        r.title@ == pane_title(*state),
        pane_rows(*state, cap as int, width as int, now_ms, r.rows@),
{
    let title = messages_title(state);
    let ms = state.current_messages();
    assert(ms@ == shown_msgs(*state));
    let mut rows: Vec<MessageRow> = Vec::new();
    if ms.len() == 0 || cap == 0 {
        return Pane { title, rows };
    }
    let n = ms.len();
    let cursor = if state.nav.message_cursor < n - 1 { state.nav.message_cursor } else { n - 1 };
    let in_messages = state.nav.focus == Focus::Messages;
    let anchor = if in_messages { cursor } else { n - 1 };
    let ghost hs = heights(ms@);
    let w = visible_messages(ms, anchor, cap);
    let ghost wv = w@.map_values(|i: usize| i as int);
    proof {
        lemma_window(hs, anchor as int, cap as int);
        assert forall|j: int| 0 <= j < wv.len() implies hs[#[trigger] wv[j]] >= 0 by {}
    }
    let mut top: u32 = 0;
    let mut k: usize = 0;
    while k < w.len()
        invariant
            0 <= k <= w.len(),
            n == ms@.len(),
            hs == heights(ms@),
            wv == w@.map_values(|i: usize| i as int),
            wv == window(hs, anchor as int, cap as int),
            anchor as int == pane_anchor(*state),
            cursor as int == pane_cursor(*state),
            in_messages == (state.nav.focus == Focus::Messages),
            ms@ == shown_msgs(*state),
            pane_drawable(*state, cap as int, width as int),
            sum_at(hs, wv) <= cap,
            forall|j: int| 0 <= j < wv.len() ==> 0 <= #[trigger] wv[j] < hs.len(),
            forall|j: int| 0 <= j < wv.len() ==> hs[#[trigger] wv[j]] >= 0,
            top == sum_at(hs, wv.take(k as int)),
            rows@.len() == k,
            forall|j: int| 0 <= j < k ==> row_ok(#[trigger] rows@[j], ms@[wv[j]], wv[j], sum_at(hs, wv.take(j)),
                in_messages && wv[j] == cursor, mentions_user(ms@[wv[j]].content@, my_id_of(*state)),
                state.prefs.show_relative_time, now_ms, width as int, cap as int, state.people.user_dir@, state.channels_by_guild@),
        decreases w.len() - k,
    {
        let idx = w[k];
        proof {
            assert(wv[k as int] == idx);
            assert(wv.take(k + 1).drop_last() =~= wv.take(k as int));
            lemma_sum_prefix(hs, wv, k + 1);
            assert(sum_at(hs, wv.take(k + 1)) == top + hs[idx as int]);
            assert(hs[idx as int] == height_of(ms@[idx as int]));
        }
        let row = message_row(&ms[idx], idx, top as u16, cap, in_messages && idx == cursor, state, width, now_ms);
        rows.push(row);
        top = top + message_height(&ms[idx]) as u32;
        k += 1;
    }
    Pane { title, rows }
}


/// A cut text is at most `max` characters long, and a text that fits is not cut.
pub proof fn law_truncate_fits(s: Seq<char>, max: nat)
    requires
        s.len() <= max || max > 0,
    ensures
        truncated(s, max).len() <= max,
        s.len() <= max ==> truncated(s, max) == s,
        s.len() > max ==> truncated(s, max).last() == '…',
{
}

/// The anchor message is shown whenever it fits in the pane by itself.
pub proof fn law_anchor_shown(hs: Seq<int>, anchor: int, cap: int)
    requires
        0 <= anchor < hs.len(),
        0 <= hs[anchor] <= cap,
    ensures
        window(hs, anchor, cap).contains(anchor),
{
    let b = fit_back(hs, (anchor + 1) as nat, 0, cap);
    assert(b.0[0] == anchor);
    let w = window(hs, anchor, cap);
    assert(w[b.0.len() - 1] == b.0.reverse()[b.0.len() - 1]);
    assert(w[b.0.len() - 1] == anchor);
}

/// The time of a message reads `HH:MM`: five characters, the colon in the middle.
pub proof fn law_clock_format(ts_ms: int)
    ensures
        clock_text(ts_ms).len() == 5,
        clock_text(ts_ms)[2] == ':',
{
    reveal_strlit(":");
}

} // verus!
