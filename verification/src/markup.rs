use vstd::prelude::*;
use crate::appstate::{AppState, channel_name_in, channel_names_agree, display_name_of};
use crate::decimal::{all_digits, is_digit, parse_u64, parse_u64_spec};
use crate::events::{first_pos, lemma_first_pos, lemma_first_pos_at};
use crate::snowflake::SnowflakeID;
use crate::state::ChannelSummary;
use crate::text::{chars_of, owned, push_char, push_str, seq_starts_with, slice_vec, starts_with, string_from_chars};

verus! {

broadcast use vstd::seq_lib::group_seq_properties;

/// The digits of a user mention token (`@!` or `@` and digits only), if it is one.
pub open spec fn user_token(tok: Seq<char>) -> Option<Seq<char>> {
    let rest = if seq_starts_with(tok, "@!"@) {
        Some(tok.skip(2))
    } else if seq_starts_with(tok, "@"@) {
        Some(tok.skip(1))
    } else {
        None
    };
    match rest {
        Some(r) if all_digits(r) => Some(r),
        _ => None,
    }
}

/// `t` without its leading `a:` prefixes.
pub open spec fn strip_animated(t: Seq<char>) -> Seq<char>
    decreases t.len(),
{
    if t.len() >= 2 && t[0] == 'a' && t[1] == ':' { strip_animated(t.skip(2)) } else { t }
}

/// `t` without its leading colons.
pub open spec fn trim_start_colons(t: Seq<char>) -> Seq<char>
    decreases t.len(),
{
    if t.len() > 0 && t[0] == ':' { trim_start_colons(t.skip(1)) } else { t }
}

/// `t` without its trailing colons.
pub open spec fn trim_end_colons(t: Seq<char>) -> Seq<char>
    decreases t.len(),
{
    if t.len() > 0 && t.last() == ':' { trim_end_colons(t.drop_last()) } else { t }
}

/// `t` up to its first colon.
pub open spec fn before_colon(t: Seq<char>) -> Seq<char>
    decreases t.len(),
{
    if t.len() == 0 || t[0] == ':' { Seq::empty() } else { seq![t[0]] + before_colon(t.skip(1)) }
}

/// The name of a custom emoji token (`:name:id` or `a:name:id`).
pub open spec fn emoji_name(tok: Seq<char>) -> Seq<char> {
    before_colon(trim_end_colons(trim_start_colons(strip_animated(tok))))
}

/// What a token between `<` and `>` stands for: a user mention as `@` and the user's name,
/// a channel mention as `#` and the channel's name (`channel` when unknown), a role mention
/// as `@role`, a custom emoji as its name between colons; none for other tokens and for ids
/// that do not parse.
pub open spec fn token_text(tok: Seq<char>, dir: Map<u64, String>, chans: Map<u64, Vec<ChannelSummary>>) -> Option<Seq<char>> {
    match user_token(tok) {
        Some(r) => match parse_u64_spec(r) {
            Some(n) => Some("@"@ + display_name_of(dir, n)),
            None => None,
        },
        None => if seq_starts_with(tok, "#"@) {
            match parse_u64_spec(tok.skip(1)) {
                Some(n) => Some("#"@ + match channel_name_in(chans, n) {
                    Some(nm) => nm,
                    None => "channel"@,
                }),
                None => None,
            }
        } else if seq_starts_with(tok, "@&"@) {
            Some("@role"@)
        } else if seq_starts_with(tok, ":"@) || seq_starts_with(tok, "a:"@) {
            Some(":"@ + emoji_name(tok) + ":"@)
        } else {
            None
        },
    }
}

/// The position of the first `>` of `s`, or -1.
pub open spec fn gt_pos(s: Seq<char>) -> int {
    first_pos(s, |c: char| c == '>')
}

/// A message's text with its mention and emoji tokens written out (see [`token_text`]);
/// a `<` that opens no known token stays.
pub open spec fn resolved(s: Seq<char>, dir: Map<u64, String>, chans: Map<u64, Vec<ChannelSummary>>) -> Seq<char>
    decreases s.len(),
{
    if s.len() == 0 {
        Seq::empty()
    } else if s[0] == '<' && gt_pos(s) >= 1 && token_text(s.subrange(1, gt_pos(s)), dir, chans) is Some {
        proof {
            lemma_first_pos(s, |c: char| c == '>');
        }
        token_text(s.subrange(1, gt_pos(s)), dir, chans)->0 + resolved(s.skip(gt_pos(s) + 1), dir, chans)
    } else {
        seq![s[0]] + resolved(s.skip(1), dir, chans)
    }
}

fn digits_only(s: &[char]) -> (r: bool)
    ensures
        r == all_digits(s@),
{
    let mut i: usize = 0;
    while i < s.len()
        invariant
            0 <= i <= s.len(),
            forall|j: int| 0 <= j < i ==> is_digit(s@[j]),
        decreases s.len() - i,
    {
        if !('0' <= s[i] && s[i] <= '9') {
            return false;
        }
        i += 1;
    }
    true
}

fn skip_chars(s: &[char], n: usize) -> (r: Vec<char>)
    requires
        n <= s.len(),
    ensures
        r@ == s@.skip(n as int),
{
    let r = slice_vec(s, n, s.len());
    assert(r@ =~= s@.skip(n as int));
    r
}

fn animated_prefix(tok: &[char]) -> (a: usize)
    ensures
        a <= tok.len(),
        tok@.skip(a as int) == strip_animated(tok@),
{
    let mut a: usize = 0;
    assert(tok@.skip(0) =~= tok@);
    while tok.len() - a >= 2 && tok[a] == 'a' && tok[a + 1] == ':'
        invariant
            a <= tok.len(),
            strip_animated(tok@.skip(a as int)) == strip_animated(tok@),
        decreases tok.len() - a,
    {
        assert(tok@.skip(a as int).skip(2) =~= tok@.skip(a + 2));
        a += 2;
    }
    a
}

fn leading_colons(tok: &[char], a: usize) -> (b: usize)
    requires
        a <= tok.len(),
    ensures
        a <= b <= tok.len(),
        tok@.skip(b as int) == trim_start_colons(tok@.skip(a as int)),
{
    let mut b = a;
    while b < tok.len() && tok[b] == ':'
        invariant
            a <= b <= tok.len(),
            trim_start_colons(tok@.skip(b as int)) == trim_start_colons(tok@.skip(a as int)),
        decreases tok.len() - b,
    {
        assert(tok@.skip(b as int).skip(1) =~= tok@.skip(b + 1));
        b += 1;
    }
    b
}

fn trailing_colons(tok: &[char], b: usize) -> (e: usize)
    requires
        b <= tok.len(),
    ensures
        b <= e <= tok.len(),
        tok@.subrange(b as int, e as int) == trim_end_colons(tok@.skip(b as int)),
{
    let mut e = tok.len();
    assert(tok@.subrange(b as int, e as int) =~= tok@.skip(b as int));
    while e > b && tok[e - 1] == ':'
        invariant
            b <= e <= tok.len(),
            trim_end_colons(tok@.subrange(b as int, e as int)) == trim_end_colons(tok@.skip(b as int)),
        decreases e,
    {
        assert(tok@.subrange(b as int, e as int).drop_last() =~= tok@.subrange(b as int, e - 1));
        e -= 1;
    }
    e
}

fn up_to_colon(tok: &[char], b: usize, e: usize) -> (r: String)
    requires
        b <= e <= tok.len(),
    ensures
        r@ == before_colon(tok@.subrange(b as int, e as int)),
{
    let mut out = String::new();
    let mut k = b;
    while k < e && tok[k] != ':'
        invariant
            b <= k <= e,
            e <= tok.len(),
            out@ + before_colon(tok@.subrange(k as int, e as int)) == before_colon(tok@.subrange(b as int, e as int)),
        decreases e - k,
    {
        assert(tok@.subrange(k as int, e as int).skip(1) =~= tok@.subrange(k + 1, e as int));
        push_char(&mut out, tok[k]);
        k += 1;
    }
    out
}

fn emoji_name_of(tok: &[char]) -> (r: String)
    ensures
        r@ == emoji_name(tok@),
{
    let a = animated_prefix(tok);
    let b = leading_colons(tok, a);
    let e = trailing_colons(tok, b);
    up_to_colon(tok, b, e)
}

fn to_string(cs: &[char]) -> (r: String)
    ensures
        r@ == cs@,
{
    string_from_chars(cs)
}

/// What a mention token stands for (see [`token_text`]), when every channel id has one name
/// in the guilds' channel lists; else a channel mention names one of the channels that have
/// its id.
pub fn token_text_of(tok: &[char], state: &AppState) -> (r: Option<String>)
    ensures
        channel_names_agree(state.channels_by_guild@) ==> (match r {
            Some(t) => Some(t@),
            None => None,
        }) == token_text(tok@, state.people.user_dir@, state.channels_by_guild@),
{
    let t = to_string(tok);
    let ts = t.as_str();
    proof {
        reveal_strlit("@!");
        reveal_strlit("@");
        reveal_strlit("#");
        reveal_strlit("@&");
        reveal_strlit(":");
        reveal_strlit("a:");
    }
    let rest: Option<Vec<char>> = if starts_with(ts, "@!") {
        Some(skip_chars(tok, 2))
    } else if starts_with(ts, "@") {
        Some(skip_chars(tok, 1))
    } else {
        None
    };
    let user: Option<Vec<char>> = match rest {
        Some(r) => if digits_only(r.as_slice()) { Some(r) } else { None },
        None => None,
    };
    match user {
        Some(r) => {
            let rs = to_string(r.as_slice());
            match parse_u64(rs.as_str()) {
                Some(n) => {
                    let mut out = owned("@");
                    let nm = state.display_name(SnowflakeID(n));
                    push_str(&mut out, nm.as_str());
                    Some(out)
                },
                None => None,
            }
        },
        None => {
            if starts_with(ts, "#") {
                let rest = to_string(skip_chars(tok, 1).as_slice());
                match parse_u64(rest.as_str()) {
                    Some(n) => {
                        let mut out = owned("#");
                        match state.channel_name(SnowflakeID(n)) {
                            Some(nm) => push_str(&mut out, nm.as_str()),
                            None => push_str(&mut out, "channel"),
                        }
                        Some(out)
                    },
                    None => None,
                }
            } else if starts_with(ts, "@&") {
                Some(owned("@role"))
            } else if starts_with(ts, ":") || starts_with(ts, "a:") {
                let mut out = owned(":");
                let nm = emoji_name_of(tok);
                push_str(&mut out, nm.as_str());
                push_str(&mut out, ":");
                Some(out)
            } else {
                None
            }
        },
    }
}

fn find_gt(cs: &[char], from: usize) -> (r: Option<usize>)
    requires
        from <= cs.len(),
    ensures
        match r {
            Some(k) => from <= k < cs.len() && gt_pos(cs@.skip(from as int)) == k - from,
            None => gt_pos(cs@.skip(from as int)) == -1,
        },
{
    let mut k = from;
    while k < cs.len()
        invariant
            from <= k <= cs.len(),
            forall|j: int| from <= j < k ==> cs@[j] != '>',
        decreases cs.len() - k,
    {
        if cs[k] == '>' {
            proof {
                lemma_first_pos_at(cs@.skip(from as int), |c: char| c == '>', k - from);
            }
            return Some(k);
        }
        k += 1;
    }
    proof {
        lemma_first_pos(cs@.skip(from as int), |c: char| c == '>');
    }
    None
}

/// A message's text with its mention and emoji tokens written out (see [`resolved`]), when
/// every channel id has one name in the guilds' channel lists.
pub fn resolve_mentions(content: &str, state: &AppState) -> (r: String)
    ensures
        channel_names_agree(state.channels_by_guild@) ==> r@ == resolved(content@, state.people.user_dir@, state.channels_by_guild@),
{
    let cs = chars_of(content);
    let ghost ok = channel_names_agree(state.channels_by_guild@);
    let ghost dir = state.people.user_dir@;
    let ghost chans = state.channels_by_guild@;
    let mut out = String::new();
    let mut i: usize = 0;
    assert(cs@.skip(0) =~= cs@);
    while i < cs.len()
        invariant
            0 <= i <= cs.len(),
            cs@ == content@,
            ok == channel_names_agree(state.channels_by_guild@),
            dir == state.people.user_dir@,
            chans == state.channels_by_guild@,
            ok ==> out@ + resolved(cs@.skip(i as int), dir, chans) == resolved(cs@, dir, chans),
        decreases cs.len() - i,
    {
        let ghost rest = cs@.skip(i as int);
        if cs[i] == '<' {
            match find_gt(cs.as_slice(), i) {
                Some(k) => {
                    if k >= i + 1 {
                        let tok = slice_vec(cs.as_slice(), i + 1, k);
                        proof {
                            assert(tok@ =~= rest.subrange(1, gt_pos(rest)));
                        }
                        match token_text_of(tok.as_slice(), state) {
                            Some(t) => {
                                push_str(&mut out, t.as_str());
                                proof {
                                    assert(rest.skip(gt_pos(rest) + 1) =~= cs@.skip(k + 1));
                                }
                                i = k + 1;
                                continue;
                            },
                            None => {},
                        }
                    }
                },
                None => {},
            }
        }
        push_char(&mut out, cs[i]);
        proof {
            assert(rest.skip(1) =~= cs@.skip(i + 1));
        }
        i += 1;
    }
    out
}

/// How a piece of a message pane line is drawn.
#[derive(Clone, Copy, Debug, PartialEq, Eq, Structural)]
pub enum Tone {
    /// Plain text.
    Plain,
    /// Dimmed text: times, the reply arrow and snippet, the edit mark.
    Dim,
    /// The author of a replied-to message.
    ReplyAuthor,
    /// The mark of a message that mentions the user.
    Mention,
    /// The user's own name as author.
    SelfAuthor,
    /// Another author's name.
    OtherAuthor,
    /// Inline code.
    Code,
    /// Bold text.
    Bold,
    /// Italic text.
    Italic,
    /// The count of images.
    Images,
    /// A reaction chip.
    Reaction,
}

/// A piece of a line.
pub struct Piece {
    pub tone: Tone,
    pub text: String,
}

/// Pieces by their plain values.
pub open spec fn pieces_view(v: Seq<Piece>) -> Seq<(Tone, Seq<char>)> {
    v.map_values(|p: Piece| (p.tone, p.text@))
}

/// The text of `s` up to the first `d`, and what follows that `d` (nothing when there is
/// none).
pub open spec fn take_until(s: Seq<char>, d: char) -> (Seq<char>, Seq<char>)
    decreases s.len(),
{
    if s.len() == 0 {
        (Seq::empty(), Seq::empty())
    } else if s[0] == d {
        (Seq::empty(), s.skip(1))
    } else {
        let r = take_until(s.skip(1), d);
        (seq![s[0]] + r.0, r.1)
    }
}

/// The text of `s` up to the first `**`, and what follows it (nothing when there is none).
pub open spec fn take_until_double(s: Seq<char>) -> (Seq<char>, Seq<char>)
    decreases s.len(),
{
    if s.len() == 0 {
        (Seq::empty(), Seq::empty())
    } else if s[0] == '*' && s.len() > 1 && s[1] == '*' {
        (Seq::empty(), s.skip(2))
    } else {
        let r = take_until_double(s.skip(1));
        (seq![s[0]] + r.0, r.1)
    }
}

pub proof fn lemma_take_until_len(s: Seq<char>, d: char)
    ensures
        take_until(s, d).1.len() <= s.len(),
    decreases s.len(),
{
    if s.len() > 0 && s[0] != d {
        lemma_take_until_len(s.skip(1), d);
    }
}

pub proof fn lemma_take_until_double_len(s: Seq<char>)
    ensures
        take_until_double(s).1.len() <= s.len(),
    decreases s.len(),
{
    if s.len() > 0 && !(s[0] == '*' && s.len() > 1 && s[1] == '*') {
        lemma_take_until_double_len(s.skip(1));
    }
}

/// The pending plain text as a piece, when there is any.
pub open spec fn flushed(buf: Seq<char>) -> Seq<(Tone, Seq<char>)> {
    if buf.len() > 0 { seq![(Tone::Plain, buf)] } else { Seq::empty() }
}

/// The pieces of a message's text with its markdown: `` `code` ``, `**bold**`, `*italic*`
/// and `_italic_` (an unclosed one runs to the end), plain text between them; `buf` is the
/// plain text gathered so far.
pub open spec fn markdown(s: Seq<char>, buf: Seq<char>) -> Seq<(Tone, Seq<char>)>
    decreases s.len(),
{
    if s.len() == 0 {
        flushed(buf)
    } else if s[0] == '`' {
        proof {
            lemma_take_until_len(s.skip(1), '`');
        }
        let r = take_until(s.skip(1), '`');
        flushed(buf) + seq![(Tone::Code, r.0)] + markdown(r.1, Seq::empty())
    } else if s[0] == '*' && s.len() > 1 && s[1] == '*' {
        proof {
            lemma_take_until_double_len(s.skip(2));
        }
        let r = take_until_double(s.skip(2));
        flushed(buf) + seq![(Tone::Bold, r.0)] + markdown(r.1, Seq::empty())
    } else if s[0] == '*' || s[0] == '_' {
        proof {
            lemma_take_until_len(s.skip(1), s[0]);
        }
        let r = take_until(s.skip(1), s[0]);
        flushed(buf) + seq![(Tone::Italic, r.0)] + markdown(r.1, Seq::empty())
    } else {
        markdown(s.skip(1), buf.push(s[0]))
    }
}

fn until_char(cs: &[char], from: usize, d: char) -> (r: (String, usize))
    requires
        from <= cs.len(),
    ensures
        from <= r.1 <= cs.len(),
        (r.0@, cs@.skip(r.1 as int)) == take_until(cs@.skip(from as int), d),
{
    let mut out = String::new();
    let mut k = from;
    while k < cs.len() && cs[k] != d
        invariant
            from <= k <= cs.len(),
            (out@ + take_until(cs@.skip(k as int), d).0, take_until(cs@.skip(k as int), d).1) == take_until(cs@.skip(from as int), d),
        decreases cs.len() - k,
    {
        assert(cs@.skip(k as int).skip(1) =~= cs@.skip(k + 1));
        push_char(&mut out, cs[k]);
        k += 1;
    }
    if k < cs.len() {
        assert(cs@.skip(k as int).skip(1) =~= cs@.skip(k + 1));
        (out, k + 1)
    } else {
        assert(cs@.skip(k as int).len() == 0);
        (out, k)
    }
}

fn until_double(cs: &[char], from: usize) -> (r: (String, usize))
    requires
        from <= cs.len(),
    ensures
        from <= r.1 <= cs.len(),
        (r.0@, cs@.skip(r.1 as int)) == take_until_double(cs@.skip(from as int)),
{
    let mut out = String::new();
    let mut k = from;
    while k < cs.len() && !(cs[k] == '*' && k + 1 < cs.len() && cs[k + 1] == '*')
        invariant
            from <= k <= cs.len(),
            (out@ + take_until_double(cs@.skip(k as int)).0, take_until_double(cs@.skip(k as int)).1)
                == take_until_double(cs@.skip(from as int)),
        decreases cs.len() - k,
    {
        assert(cs@.skip(k as int).skip(1) =~= cs@.skip(k + 1));
        push_char(&mut out, cs[k]);
        k += 1;
    }
    if k < cs.len() {
        assert(cs@.skip(k as int).skip(2) =~= cs@.skip(k + 2));
        (out, k + 2)
    } else {
        assert(cs@.skip(k as int).len() == 0);
        (out, k)
    }
}

fn flush(out: &mut Vec<Piece>, buf: String)
    ensures
        pieces_view(final(out)@) == pieces_view(old(out)@) + flushed(buf@),
{
    let ghost before = out@;
    let ghost b = buf@;
    if !buf.as_str().is_empty() {
        out.push(Piece { tone: Tone::Plain, text: buf });
    }
    assert(pieces_view(out@) =~= pieces_view(before) + flushed(b));
}

pub(crate) fn push_piece(out: &mut Vec<Piece>, tone: Tone, text: String)
    ensures
        pieces_view(final(out)@) == pieces_view(old(out)@).push((tone, text@)),
{
    let ghost before = out@;
    let ghost t = text@;
    out.push(Piece { tone, text });
    assert(pieces_view(out@) =~= pieces_view(before).push((tone, t)));
}

fn emit_delimited(out: &mut Vec<Piece>, buf: &mut String, tone: Tone, text: String)
    ensures
        pieces_view(final(out)@) == pieces_view(old(out)@) + flushed(old(buf)@) + seq![(tone, text@)],
        final(buf)@ == Seq::<char>::empty(),
{
    let mut b = String::new();
    std::mem::swap(&mut b, buf);
    flush(out, b);
    push_piece(out, tone, text);
}

fn md_step(cs: &Vec<char>, i: usize, out: &mut Vec<Piece>, buf: &mut String) -> (next: usize)
    requires
        i < cs.len(),
    ensures
        i < next <= cs.len(),
        pieces_view(final(out)@) + markdown(cs@.skip(next as int), final(buf)@)
            == pieces_view(old(out)@) + markdown(cs@.skip(i as int), old(buf)@),
{
    let ghost rest = cs@.skip(i as int);
    let ghost o0 = pieces_view(out@);
    let ghost b0 = buf@;
    let c = cs[i];
    if c == '`' {
        assert(rest.skip(1) =~= cs@.skip(i + 1));
        let (code, next) = until_char(cs.as_slice(), i + 1, '`');
        let ghost t = code@;
        emit_delimited(out, buf, Tone::Code, code);
        proof {
            assert(markdown(rest, b0) == flushed(b0) + seq![(Tone::Code, t)] + markdown(cs@.skip(next as int), Seq::empty()));
            vstd::seq_lib::lemma_concat_associative(o0, flushed(b0) + seq![(Tone::Code, t)], markdown(cs@.skip(next as int), Seq::empty()));
            vstd::seq_lib::lemma_concat_associative(o0, flushed(b0), seq![(Tone::Code, t)]);
        }
        next
    } else if c == '*' && i + 1 < cs.len() && cs[i + 1] == '*' {
        assert(rest.skip(2) =~= cs@.skip(i + 2));
        let (bold, next) = until_double(cs.as_slice(), i + 2);
        let ghost t = bold@;
        emit_delimited(out, buf, Tone::Bold, bold);
        proof {
            assert(markdown(rest, b0) == flushed(b0) + seq![(Tone::Bold, t)] + markdown(cs@.skip(next as int), Seq::empty()));
            vstd::seq_lib::lemma_concat_associative(o0, flushed(b0) + seq![(Tone::Bold, t)], markdown(cs@.skip(next as int), Seq::empty()));
            vstd::seq_lib::lemma_concat_associative(o0, flushed(b0), seq![(Tone::Bold, t)]);
        }
        next
    } else if c == '*' || c == '_' {
        assert(rest.skip(1) =~= cs@.skip(i + 1));
        let (it, next) = until_char(cs.as_slice(), i + 1, c);
        let ghost t = it@;
        emit_delimited(out, buf, Tone::Italic, it);
        proof {
            assert(markdown(rest, b0) == flushed(b0) + seq![(Tone::Italic, t)] + markdown(cs@.skip(next as int), Seq::empty()));
            vstd::seq_lib::lemma_concat_associative(o0, flushed(b0) + seq![(Tone::Italic, t)], markdown(cs@.skip(next as int), Seq::empty()));
            vstd::seq_lib::lemma_concat_associative(o0, flushed(b0), seq![(Tone::Italic, t)]);
        }
        next
    } else {
        assert(rest.skip(1) =~= cs@.skip(i + 1));
        push_char(buf, c);
        i + 1
    }
}

/// The pieces of a message's text with its markdown (see [`markdown`]).
pub fn markdown_spans(text: &str) -> (r: Vec<Piece>)
    ensures
        pieces_view(r@) == markdown(text@, Seq::empty()),
{
    let cs = chars_of(text);
    let mut out: Vec<Piece> = Vec::new();
    let mut buf = String::new();
    let mut i: usize = 0;
    assert(cs@.skip(0) =~= cs@);
    assert(pieces_view(out@) =~= Seq::empty());
    while i < cs.len()
        invariant
            0 <= i <= cs.len(),
            cs@ == text@,
            pieces_view(out@) + markdown(cs@.skip(i as int), buf@) == markdown(text@, Seq::empty()),
        decreases cs.len() - i,
    {
        i = md_step(&cs, i, &mut out, &mut buf);
    }
    assert(cs@.skip(i as int).len() == 0);
    flush(&mut out, buf);
    out
}


/// `s` holds none of the markdown markers.
pub open spec fn no_markers(s: Seq<char>) -> bool {
    forall|i: int| 0 <= i < s.len() ==> s[i] != '`' && s[i] != '*' && s[i] != '_'
}

/// Text without markers is one plain piece (nothing for empty text).
pub proof fn law_plain_text_is_one_piece(s: Seq<char>)
    requires
        no_markers(s),
    ensures
        markdown(s, Seq::empty()) == flushed(s),
{
    lemma_plain_markdown(s, Seq::empty());
    assert(Seq::<char>::empty() + s =~= s);
}

pub proof fn lemma_plain_markdown(s: Seq<char>, buf: Seq<char>)
    requires
        no_markers(s),
    ensures
        markdown(s, buf) == flushed(buf + s),
    decreases s.len(),
{
    if s.len() == 0 {
        assert(buf + s =~= buf);
    } else {
        assert(no_markers(s.skip(1)));
        lemma_plain_markdown(s.skip(1), buf.push(s[0]));
        assert(buf.push(s[0]) + s.skip(1) =~= buf + s);
    }
}

/// Text without `<` has no tokens to write out.
pub proof fn law_text_without_tokens_stays(s: Seq<char>, dir: Map<u64, String>, chans: Map<u64, Vec<ChannelSummary>>)
    requires
        forall|i: int| 0 <= i < s.len() ==> s[i] != '<',
    ensures
        resolved(s, dir, chans) == s,
    decreases s.len(),
{
    if s.len() > 0 {
        assert(forall|i: int| 0 <= i < s.skip(1).len() ==> s.skip(1)[i] == s[i + 1]);
        law_text_without_tokens_stays(s.skip(1), dir, chans);
        assert(seq![s[0]] + s.skip(1) =~= s);
    }
}

} // verus!
