use vstd::prelude::*;
#[allow(unused_imports)]
use crate::snowflake::SnowflakeID;

verus! {

/// Gateway payload `ClientInfo` (session replace), as the fields the client reads.
#[derive(Clone, Debug)]
pub struct ClientInfo {
    pub version: i64,
    pub os: String,
    pub client: String,
}

/// Gateway payload `SessionReplaceData` (session replace), as the fields the client reads.
#[derive(Clone, Debug)]
pub struct SessionReplaceData {
    pub status: String,
    pub session_id: String,
    pub client_info: ClientInfo,
    pub activities: Vec<Activities>,
    pub active: Option<bool>,
}

/// Gateway payload `Activities` (session replace), as the fields the client reads.
#[derive(Clone, Debug)]
pub struct Activities {
    pub a_type: i64,
    pub state: String,
    pub name: String,
    pub id: String,
    pub emoji: Option<Emoji>,
    pub created_at: i64,
}

/// Gateway payload `Emoji` (session replace), as the fields the client reads.
#[derive(Clone, Debug)]
pub struct Emoji {
    pub name: String,
}

} // verus!
