use vstd::prelude::*;

verus! {

/// What a member request asks for.
#[derive(Clone, Debug)]
pub struct RequestGuildD {
    pub guild_id: String,
    pub query: String,
    pub limit: i64,
}

/// The gateway command (opcode 8) that asks for the members of a guild.
#[derive(Clone, Debug)]
pub struct RequestGuildMembers {
    pub op: i64,
    pub d: RequestGuildD,
}

impl RequestGuildMembers {
    /// Asks for up to `limit` members of guild `guild_id` whose name starts with `query`
    /// (all of them for an empty query and a zero limit).
    pub fn new(guild_id: &str, query: &str, limit: i64) -> (r: Self)
        ensures
            r.op == 8,
            r.d.guild_id@ == guild_id@,
            r.d.query@ == query@,
            r.d.limit == limit,
    {
        RequestGuildMembers {
            op: 8,
            d: RequestGuildD { guild_id: crate::text::owned(guild_id), query: crate::text::owned(query), limit },
        }
    }
}

} // verus!
