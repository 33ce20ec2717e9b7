use vstd::prelude::*;
#[allow(unused_imports)]
use crate::snowflake::SnowflakeID;

verus! {

/// Gateway payload `PresenceData` (presence update), as the fields the client reads.
#[derive(Clone, Debug)]
pub struct PresenceData {
    pub user: User,
    pub status: String,
    pub processed_at_timestamp: i64,
    pub guild_id: Option<String>,
    pub client_status: ClientStatus,
    pub activities: Vec<Activity>,
}

/// Gateway payload `User` (presence update), as the fields the client reads.
#[derive(Clone, Debug)]
pub struct User {
    pub id: SnowflakeID,
    pub username: Option<String>,
    pub primary_guild: Option<PrimaryGuild>,
    pub global_name: Option<String>,
    pub display_name_styles: Option<DisplayNameStyles>,
    pub discriminator: Option<String>,
    pub collectibles: Option<Collectibles>,
    pub clan: Option<Clan>,
    pub bot: Option<bool>,
    pub avatar_decoration_data: Option<AvatarDecorationData>,
    pub avatar: Option<String>,
    pub public_flags: Option<i64>,
}

/// Gateway payload `PrimaryGuild` (presence update), as the fields the client reads.
#[derive(Clone, Debug)]
pub struct PrimaryGuild {
    pub tag: Option<String>,
    pub identity_guild_id: Option<String>,
    pub identity_enabled: bool,
    pub badge: Option<String>,
}

/// Gateway payload `DisplayNameStyles` (presence update), as the fields the client reads.
#[derive(Clone, Debug)]
pub struct DisplayNameStyles {
    pub font_id: i64,
    pub effect_id: i64,
    pub colors: Vec<i64>,
}

/// Gateway payload `Collectibles` (presence update), as the fields the client reads.
#[derive(Clone, Debug)]
pub struct Collectibles {
    pub nameplate: Nameplate,
}

/// Gateway payload `Nameplate` (presence update), as the fields the client reads.
#[derive(Clone, Debug)]
pub struct Nameplate {
    pub sku_id: String,
    pub palette: String,
    pub label: String,
    pub asset: String,
}

/// Gateway payload `Clan` (presence update), as the fields the client reads.
#[derive(Clone, Debug)]
pub struct Clan {
    pub tag: Option<String>,
    pub identity_guild_id: Option<String>,
    pub identity_enabled: bool,
    pub badge: Option<String>,
}

/// Gateway payload `AvatarDecorationData` (presence update), as the fields the client reads.
#[derive(Clone, Debug)]
pub struct AvatarDecorationData {
    pub sku_id: String,
    pub asset: String,
}

/// Gateway payload `ClientStatus` (presence update), as the fields the client reads.
#[derive(Clone, Debug)]
pub struct ClientStatus {
    pub desktop: Option<String>,
    pub mobile: Option<String>,
}

/// Gateway payload `Activity` (presence update), as the fields the client reads.
#[derive(Clone, Debug)]
pub struct Activity {
    pub type_field: i64,
    pub timestamps: Option<Timestamps>,
    pub session_id: Option<String>,
    pub name: String,
    pub id: String,
    pub created_at: i64,
    pub application_id: Option<String>,
    pub state: Option<String>,
    pub platform: Option<String>,
    pub assets: Option<Assets>,
}

/// Gateway payload `Timestamps` (presence update), as the fields the client reads.
#[derive(Clone, Debug)]
pub struct Timestamps {
    pub start: i64,
}

/// Gateway payload `Assets` (presence update), as the fields the client reads.
#[derive(Clone, Debug)]
pub struct Assets {
    pub small_text: Option<String>,
    pub small_image: Option<String>,
    pub large_text: Option<String>,
    pub large_image: Option<String>,
}

} // verus!
