use vstd::prelude::*;
use crate::text::owned;

verus! {

/// An activity of a presence.
#[derive(Clone, Debug)]
pub struct Struct {
    pub name: String,
    pub kind: i64,
    pub state: String,
    pub id: String,
    pub emoji: Emoji,
    pub created_at: i64,
}

/// The emoji of a custom status.
#[derive(Clone, Debug)]
pub struct Emoji {
    pub name: String,
}

/// What a presence update carries.
#[derive(Clone, Debug)]
pub struct D {
    pub since: i64,
    pub activities: Vec<Struct>,
    pub status: String,
    pub afk: bool,
}

/// The gateway command (opcode 3) that sets the presence.
#[derive(Clone, Debug)]
pub struct PresenceUpdate {
    pub op: i64,
    pub d: D,
}

impl PresenceUpdate {
    /// Online, not away, with the custom status `FOXY` and a crab emoji.
    pub fn custom_status() -> (r: Self)
        ensures
            r.op == 3,
            r.d.since == 0,
            r.d.status@ == "online"@,
            !r.d.afk,
            r.d.activities@.len() == 1,
            r.d.activities@[0].name@ == "Custom Status"@,
            r.d.activities@[0].kind == 4,
            r.d.activities@[0].state@ == "FOXY"@,
            r.d.activities@[0].id@ == "custom"@,
            r.d.activities@[0].emoji.name@ == "🦀"@,
            r.d.activities@[0].created_at == 1707067454519,
    {
        let mut activities: Vec<Struct> = Vec::new();
        activities.push(Struct {
            name: owned("Custom Status"),
            kind: 4,
            state: owned("FOXY"),
            id: owned("custom"),
            emoji: Emoji { name: owned("🦀") },
            created_at: 1707067454519,
        });
        PresenceUpdate { op: 3, d: D { since: 0, activities, status: owned("online"), afk: false } }
    }
}

} // verus!
