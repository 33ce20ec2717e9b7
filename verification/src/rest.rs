use vstd::prelude::*;
use crate::decimal::{dec, push_decimal};
use crate::markup::take_until;
use crate::snowflake::SnowflakeID;
use crate::text::{chars_of, owned, push_str, string_from_chars, slice_vec, trim, trim_spec};

verus! {

broadcast use vstd::seq_lib::group_seq_properties;

/// The address of the HTTP interface.
pub open spec fn api_base() -> Seq<char> {
    "https://discord.com/api/v9"@
}

/// The address of a channel's messages.
pub open spec fn channel_messages_text(channel: u64) -> Seq<char> {
    api_base() + "/channels/"@ + dec(channel as nat) + "/messages"@
}

/// The address of a channel's messages (where messages are posted).
pub fn channel_messages_url(channel: SnowflakeID) -> (r: String)
    ensures
        r@ == channel_messages_text(channel.0),
{
    let mut u = owned("https://discord.com/api/v9");
    push_str(&mut u, "/channels/");
    push_decimal(&mut u, channel.0);
    push_str(&mut u, "/messages");
    u
}

/// The address that lists the last `limit` messages of a channel.
pub fn history_url(channel: SnowflakeID, limit: u16) -> (r: String)
    ensures
        r@ == channel_messages_text(channel.0) + "?limit="@ + dec(limit as nat),
{
    let mut u = channel_messages_url(channel);
    push_str(&mut u, "?limit=");
    push_decimal(&mut u, limit as u64);
    u
}

/// The address of one message (to edit or delete it).
pub fn message_url(channel: SnowflakeID, message: SnowflakeID) -> (r: String)
    ensures
        r@ == channel_messages_text(channel.0) + "/"@ + dec(message.0 as nat),
{
    let mut u = channel_messages_url(channel);
    push_str(&mut u, "/");
    push_decimal(&mut u, message.0);
    u
}

/// The address that marks a message as read.
pub fn ack_url(channel: SnowflakeID, message: SnowflakeID) -> (r: String)
    ensures
        r@ == channel_messages_text(channel.0) + "/"@ + dec(message.0 as nat) + "/ack"@,
{
    let mut u = message_url(channel, message);
    push_str(&mut u, "/ack");
    u
}

/// The address that leaves a guild.
pub fn leave_guild_url(guild: SnowflakeID) -> (r: String)
    ensures
        r@ == api_base() + "/users/@me/guilds/"@ + dec(guild.0 as nat),
{
    let mut u = owned("https://discord.com/api/v9");
    push_str(&mut u, "/users/@me/guilds/");
    push_decimal(&mut u, guild.0);
    u
}

/// The address that opens a direct-message channel.
pub fn create_dm_url() -> (r: String)
    ensures
        r@ == api_base() + "/users/@me/channels"@,
{
    let mut u = owned("https://discord.com/api/v9");
    push_str(&mut u, "/users/@me/channels");
    u
}

/// What follows the last `c` of `s` (all of `s` when it has none).
pub open spec fn after_last(s: Seq<char>, c: char) -> Seq<char>
    decreases s.len(),
{
    if s.len() == 0 {
        Seq::empty()
    } else if s.last() == c {
        Seq::empty()
    } else {
        after_last(s.drop_last(), c).push(s.last())
    }
}

/// The code of an invite given as a code or a link: after the last `/`, before the first
/// `?`, without surrounding white space.
pub open spec fn invite_code_text(raw: Seq<char>) -> Seq<char> {
    trim_spec(take_until(after_last(trim_spec(raw), '/'), '?').0)
}

proof fn lemma_after_last_at(s: Seq<char>, c: char, k: int)
    requires
        0 <= k <= s.len(),
        k == 0 || s[k - 1] == c,
        forall|j: int| k <= j < s.len() ==> s[j] != c,
    ensures
        after_last(s, c) == s.skip(k),
    decreases s.len(),
{
    if s.len() > 0 && k < s.len() {
        lemma_after_last_at(s.drop_last(), c, k);
        assert(s.skip(k) =~= s.drop_last().skip(k).push(s.last()));
    } else if s.len() > 0 {
        assert(s.skip(k) =~= Seq::<char>::empty());
    }
}

proof fn lemma_take_until_at(s: Seq<char>, c: char, k: int)
    requires
        0 <= k <= s.len(),
        k == s.len() || s[k] == c,
        forall|j: int| 0 <= j < k ==> s[j] != c,
    ensures
        take_until(s, c).0 == s.take(k),
    decreases s.len(),
{
    if s.len() > 0 && k > 0 {
        lemma_take_until_at(s.skip(1), c, k - 1);
        assert(s.take(k) =~= seq![s[0]] + s.skip(1).take(k - 1));
    } else if s.len() > 0 {
        assert(s.take(k) =~= Seq::<char>::empty());
    } else {
        assert(s.take(k) =~= Seq::<char>::empty());
    }
}

/// The code of an invite (see [`invite_code_text`]).
pub fn invite_code(raw: &str) -> (r: String)
    ensures
        r@ == invite_code_text(raw@),
{
    let t = trim(raw);
    let cs = chars_of(t.as_str());
    let mut k = cs.len();
    while k > 0 && cs[k - 1] != '/'
        invariant
            k <= cs.len(),
            forall|j: int| k <= j < cs.len() ==> cs@[j] != '/',
        decreases k,
    {
        k -= 1;
    }
    proof {
        lemma_after_last_at(cs@, '/', k as int);
    }
    let tail = slice_vec(cs.as_slice(), k, cs.len());
    assert(tail@ =~= cs@.skip(k as int));
    let mut q: usize = 0;
    while q < tail.len() && tail[q] != '?'
        invariant
            q <= tail.len(),
            forall|j: int| 0 <= j < q ==> tail@[j] != '?',
        decreases tail.len() - q,
    {
        q += 1;
    }
    proof {
        lemma_take_until_at(tail@, '?', q as int);
    }
    let head = slice_vec(tail.as_slice(), 0, q);
    assert(head@ =~= tail@.take(q as int));
    let code = string_from_chars(head.as_slice());
    trim(code.as_str())
}

/// The address that accepts an invite (see [`invite_code_text`]).
pub fn invite_url(raw: &str) -> (r: String)
    ensures
        r@ == api_base() + "/invites/"@ + invite_code_text(raw@),
{
    let mut u = owned("https://discord.com/api/v9");
    push_str(&mut u, "/invites/");
    let code = invite_code(raw);
    push_str(&mut u, code.as_str());
    u
}

/// The error of a refused request: its method and address, the status and the reply.
pub open spec fn refusal_text(method: Seq<char>, url: Seq<char>, status: Seq<char>, body: Seq<char>) -> Seq<char> {
    method + " "@ + url + " returned "@ + status + ": "@ + body
}

/// The error of a refused request (see [`refusal_text`]).
pub fn refusal(method: &str, url: &str, status: &str, body: &str) -> (r: String)
    ensures
        r@ == refusal_text(method@, url@, status@, body@),
{
    let mut e = owned(method);
    push_str(&mut e, " ");
    push_str(&mut e, url);
    push_str(&mut e, " returned ");
    push_str(&mut e, status);
    push_str(&mut e, ": ");
    push_str(&mut e, body);
    e
}

/// A bare invite code (no `/`, no `?`, no surrounding white space) is its own code.
pub proof fn law_bare_code_kept(code: Seq<char>)
    requires
        forall|i: int| 0 <= i < code.len() ==> code[i] != '/' && code[i] != '?',
        trim_spec(code) == code,
    ensures
        invite_code_text(code) == code,
{
    lemma_after_last_at(code, '/', 0);
    assert(code.skip(0) =~= code);
    lemma_take_until_at(code, '?', code.len() as int);
    assert(code.take(code.len() as int) =~= code);
}

} // verus!
