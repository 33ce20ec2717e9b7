use vstd::prelude::*;
#[allow(unused_imports)]
use crate::snowflake::SnowflakeID;

verus! {

/// Gateway payload `MessageRef` (message create), as the fields the client reads.
#[derive(Clone, Debug)]
pub struct MessageRef {
    pub message_id: SnowflakeID,
    pub guild_id: SnowflakeID,
    pub channel_id: SnowflakeID,
}

/// Gateway payload `RefMessage` (message create), as the fields the client reads.
#[derive(Clone, Debug)]
pub struct RefMessage {
    pub type_field: u8,
    pub tts: bool,
    pub timestamp: String,
    pub pinned: bool,
    pub content: String,
    pub author: Author,
}

/// Gateway payload `MessageCreateData` (message create), as the fields the client reads.
#[derive(Clone, Debug)]
pub struct MessageCreateData {
    /// Whether the message carries a poll.
    pub has_poll: bool,
    pub type_field: u8,
    pub tts: bool,
    pub timestamp: String,
    pub sticker_items: Option<Vec<Stickers>>,
    pub referenced_message: Option<RefMessage>,
    pub pinned: bool,
    pub mentions: Vec<Mentions>,
    pub mention_roles: Vec<String>,
    pub mention_everyone: bool,
    pub mention_channels: Option<Vec<MentionChannel>>,
    pub reactions: Option<Vec<Reactions>>,
    pub webhook_id: Option<SnowflakeID>,
    pub application_id: Option<SnowflakeID>,
    pub interaction_metadata: Option<InteractionMetadata>,
    pub interaction: Option<Interaction>,
    pub position: Option<u32>,
    pub member: Option<Member>,
    pub id: SnowflakeID,
    pub flags: i64,
    pub embeds: Vec<Embed>,
    pub edited_timestamp: Option<String>,
    pub content: String,
    pub channel_id: SnowflakeID,
    pub call: Option<CallState>,
    pub author: Author,
    pub attachments: Vec<Attachments>,
    pub guild_id: Option<SnowflakeID>,
    pub message_reference: Option<MessageReference>,
}

/// Gateway payload `InteractionMetadata` (message create), as the fields the client reads.
#[derive(Clone, Debug)]
pub struct InteractionMetadata {
    pub user: User,
    pub type_field: i64,
    pub name: Option<String>,
    pub id: SnowflakeID,
    pub authorizing_integration_owners: AuthorizingIntegrationOwners,
}

/// Gateway payload `User` (message create), as the fields the client reads.
#[derive(Clone, Debug)]
pub struct User {
    pub username: String,
    pub public_flags: i64,
    pub id: SnowflakeID,
    pub global_name: String,
    pub discriminator: String,
    pub avatar: String,
}

/// Gateway payload `AuthorizingIntegrationOwners` (message create), as the fields the client reads.
#[derive(Clone, Debug)]
pub struct AuthorizingIntegrationOwners {
    pub n0: String,
}

/// Gateway payload `Interaction` (message create), as the fields the client reads.
#[derive(Clone, Debug)]
pub struct Interaction {
    pub user: User2,
    pub type_field: i64,
    pub name: String,
    pub member: Members,
    pub id: SnowflakeID,
}

/// Gateway payload `User2` (message create), as the fields the client reads.
#[derive(Clone, Debug)]
pub struct User2 {
    pub username: String,
    pub public_flags: i64,
    pub id: SnowflakeID,
    pub global_name: String,
    pub discriminator: String,
    pub avatar: String,
}

/// Gateway payload `Members` (message create), as the fields the client reads.
#[derive(Clone, Debug)]
pub struct Members {
    pub roles: Vec<SnowflakeID>,
    pub pending: bool,
    pub nick: Option<String>,
    pub mute: bool,
    pub joined_at: String,
    pub flags: i64,
    pub deaf: bool,
}

/// Gateway payload `Reactions` (message create), as the fields the client reads.
#[derive(Clone, Debug)]
pub struct Reactions {
    pub count: u16,
    pub guild_id: SnowflakeID,
    pub type_field: u8,
    pub name: String,
}

/// Gateway payload `MentionChannel` (message create), as the fields the client reads.
#[derive(Clone, Debug)]
pub struct MentionChannel {
    pub id: SnowflakeID,
    pub count_details: CountDetails,
    pub me: bool,
    pub me_burst: bool,
}

/// Gateway payload `CountDetails` (message create), as the fields the client reads.
#[derive(Clone, Debug)]
pub struct CountDetails {
    pub burst: u16,
    pub normal: u16,
}

/// Gateway payload `MessageReference` (message create), as the fields the client reads.
#[derive(Clone, Debug)]
pub struct MessageReference {
    pub channel_id: SnowflakeID,
    pub message_id: SnowflakeID,
}

/// Gateway payload `CallState` (message create), as the fields the client reads.
#[derive(Clone, Debug)]
pub struct CallState {
    pub participants: Vec<SnowflakeID>,
    pub ended_timestamp: Option<String>,
}

/// Gateway payload `Stickers` (message create), as the fields the client reads.
#[derive(Clone, Debug)]
pub struct Stickers {
    pub name: String,
    pub id: SnowflakeID,
    pub format_type: i8,
}

/// Gateway payload `Attachments` (message create), as the fields the client reads.
#[derive(Clone, Debug)]
pub struct Attachments {
    pub width: Option<i64>,
    pub url: Option<String>,
    pub size: i64,
    pub proxy_url: Option<String>,
    pub placeholder_version: Option<i64>,
    pub placeholder: Option<String>,
    pub id: String,
    pub height: Option<i64>,
    pub filename: String,
    pub content_type: Option<String>,
    pub content_scan_version: Option<i64>,
}

/// Gateway payload `Mentions` (message create), as the fields the client reads.
#[derive(Clone, Debug)]
pub struct Mentions {
    pub username: String,
    pub public_flags: Option<i64>,
    pub id: String,
    pub global_name: Option<String>,
    pub discriminator: String,
    pub avatar_decoration_data: Option<AvatarDecoration>,
    pub avatar: Option<String>,
}

/// Gateway payload `Member` (message create), as the fields the client reads.
#[derive(Clone, Debug)]
pub struct Member {
    pub roles: Vec<String>,
    pub premium_since: Option<String>,
    pub pending: bool,
    pub nick: Option<String>,
    pub mute: bool,
    pub joined_at: String,
    pub flags: i64,
    pub deaf: bool,
    pub banner: Option<String>,
    pub avatar: Option<String>,
}

/// Gateway payload `AvatarDecoration` (message create), as the fields the client reads.
#[derive(Clone, Debug)]
pub struct AvatarDecoration {
    pub sku_id: String,
    pub asset: String,
}

/// Gateway payload `Author` (message create), as the fields the client reads.
#[derive(Clone, Debug)]
pub struct Author {
    pub username: String,
    pub public_flags: Option<i64>,
    pub premium_type: Option<i64>,
    pub id: SnowflakeID,
    pub global_name: Option<String>,
    pub discriminator: String,
    pub clan: Option<Clan>,
    pub bot: Option<bool>,
    pub avatar_decoration_data: Option<AvatarDecoration>,
    pub avatar: Option<String>,
}

/// Gateway payload `Clan` (message create), as the fields the client reads.
#[derive(Clone, Debug)]
pub struct Clan {
    pub tag: Option<String>,
    pub identity_guild_id: Option<String>,
    pub identity_enabled: bool,
    pub badge: Option<String>,
}

/// Gateway payload `Embed` (message create), as the fields the client reads.
#[derive(Clone, Debug)]
pub struct Embed {
    pub type_field: Option<String>,
    pub title: Option<String>,
    pub thumbnail: Option<Thumbnail>,
    pub image: Option<Image>,
    pub video: Option<Video>,
    pub fields: Option<Vec<Fields>>,
    pub description: Option<String>,
    pub color: Option<i64>,
    pub provider: Option<Provider>,
}

/// Gateway payload `Provider` (message create), as the fields the client reads.
#[derive(Clone, Debug)]
pub struct Provider {
    pub url: Option<String>,
    pub name: String,
}

/// Gateway payload `Video` (message create), as the fields the client reads.
#[derive(Clone, Debug)]
pub struct Video {
    pub width: i64,
    pub url: Option<String>,
    pub proxy_url: Option<String>,
    pub placeholder_version: i8,
    pub placeholder: String,
    pub height: i64,
}

/// Gateway payload `Fields` (message create), as the fields the client reads.
#[derive(Clone, Debug)]
pub struct Fields {
    pub value: String,
    pub name: String,
    pub inline: bool,
}

/// Gateway payload `Thumbnail` (message create), as the fields the client reads.
#[derive(Clone, Debug)]
pub struct Thumbnail {
    pub width: i64,
    pub url: Option<String>,
    pub proxy_url: Option<String>,
    pub height: i64,
}

/// Gateway payload `Image` (message create), as the fields the client reads.
#[derive(Clone, Debug)]
pub struct Image {
    pub width: i64,
    pub url: Option<String>,
    pub proxy_url: Option<String>,
    pub height: i64,
}

} // verus!
