use vstd::prelude::*;

verus! {

/// The voice state sent to join a voice channel of a guild.
#[derive(Clone, Debug)]
pub struct ForceJoinD {
    pub guild_id: String,
    pub channel_id: String,
    pub self_mute: bool,
    pub self_deaf: bool,
}

/// The gateway command (opcode 4) that joins a voice channel.
#[derive(Clone, Debug)]
pub struct ForceJoinVocal {
    pub op: i64,
    pub d: ForceJoinD,
}

impl ForceJoinVocal {
    /// Joins voice channel `channel_id` of guild `guild_id`, neither muted nor deafened.
    pub fn new(guild_id: &str, channel_id: &str) -> (r: Self)
        ensures
            r.op == 4,
            r.d.guild_id@ == guild_id@,
            r.d.channel_id@ == channel_id@,
            !r.d.self_mute && !r.d.self_deaf,
    {
        ForceJoinVocal {
            op: 4,
            d: ForceJoinD {
                guild_id: crate::text::owned(guild_id),
                channel_id: crate::text::owned(channel_id),
                self_mute: false,
                self_deaf: false,
            },
        }
    }
}

} // verus!
