use vstd::prelude::*;
#[allow(unused_imports)]
use crate::snowflake::SnowflakeID;

verus! {

/// Gateway payload `ResumedData` (gateway events), as the fields the client reads.
#[derive(Clone, Debug)]
pub struct ResumedData {
}

/// Gateway payload `ReadySupplementalData` (gateway events), as the fields the client reads.
#[derive(Clone, Debug)]
pub struct ReadySupplementalData {
}

/// Gateway payload `PassiveUpdateV1Data` (gateway events), as the fields the client reads.
#[derive(Clone, Debug)]
pub struct PassiveUpdateV1Data {
    pub guild_id: SnowflakeID,
}

/// Gateway payload `MessageReactionAdd` (gateway events), as the fields the client reads.
#[derive(Clone, Debug)]
pub struct MessageReactionAdd {
    pub user_id: SnowflakeID,
    pub message_id: SnowflakeID,
    pub channel_id: SnowflakeID,
    pub guild_id: Option<SnowflakeID>,
    pub emoji: ReactionEmoji,
    pub burst: bool,
    pub message_author_id: Option<SnowflakeID>,
}

/// Gateway payload `MessageReactionRemove` (gateway events), as the fields the client reads.
#[derive(Clone, Debug)]
pub struct MessageReactionRemove {
    pub user_id: SnowflakeID,
    pub message_id: SnowflakeID,
    pub channel_id: SnowflakeID,
    pub guild_id: Option<SnowflakeID>,
    pub emoji: ReactionEmoji,
    pub burst: bool,
}

/// Gateway payload `MessageReactionRemoveAll` (gateway events), as the fields the client reads.
#[derive(Clone, Debug)]
pub struct MessageReactionRemoveAll {
    pub message_id: SnowflakeID,
    pub channel_id: SnowflakeID,
    pub guild_id: Option<SnowflakeID>,
}

/// Gateway payload `MessageReactionRemoveEmoji` (gateway events), as the fields the client reads.
#[derive(Clone, Debug)]
pub struct MessageReactionRemoveEmoji {
    pub message_id: SnowflakeID,
    pub channel_id: SnowflakeID,
    pub guild_id: Option<SnowflakeID>,
    pub emoji: ReactionEmoji,
}

/// Gateway payload `ReactionEmoji` (gateway events), as the fields the client reads.
#[derive(Clone, Debug)]
pub struct ReactionEmoji {
    pub id: Option<String>,
    pub name: Option<String>,
    pub animated: bool,
}

/// Gateway payload `MessageDeleteBulk` (gateway events), as the fields the client reads.
#[derive(Clone, Debug)]
pub struct MessageDeleteBulk {
    pub ids: Vec<SnowflakeID>,
    pub channel_id: SnowflakeID,
    pub guild_id: Option<SnowflakeID>,
}

/// Gateway payload `MessagePollVote` (gateway events), as the fields the client reads.
#[derive(Clone, Debug)]
pub struct MessagePollVote {
    pub user_id: SnowflakeID,
    pub channel_id: SnowflakeID,
    pub message_id: SnowflakeID,
    pub guild_id: Option<SnowflakeID>,
    pub answer_id: i64,
}

/// Gateway payload `GuildCreate` (gateway events), as the fields the client reads.
#[derive(Clone, Debug)]
pub struct GuildCreate {
    pub id: SnowflakeID,
    pub name: Option<String>,
    pub properties: Option<crate::receive_struct::ready::GuildProperties>,
    pub member_count: Option<i64>,
    pub unavailable: bool,
}

/// Gateway payload `GuildUpdate` (gateway events), as the fields the client reads.
#[derive(Clone, Debug)]
pub struct GuildUpdate {
    pub id: SnowflakeID,
    pub name: Option<String>,
    pub properties: Option<crate::receive_struct::ready::GuildProperties>,
}

/// Gateway payload `GuildBanAdd` (gateway events), as the fields the client reads.
#[derive(Clone, Debug)]
pub struct GuildBanAdd {
    pub guild_id: SnowflakeID,
    pub user: UserStub,
}

/// Gateway payload `UserStub` (gateway events), as the fields the client reads.
#[derive(Clone, Debug)]
pub struct UserStub {
    pub id: SnowflakeID,
    pub username: Option<String>,
    pub global_name: Option<String>,
    pub discriminator: Option<String>,
    pub bot: bool,
    pub avatar: Option<String>,
}

/// Gateway payload `GuildRoleUpsert` (gateway events), as the fields the client reads.
#[derive(Clone, Debug)]
pub struct GuildRoleUpsert {
    pub guild_id: SnowflakeID,
    pub role: Role,
}

/// Gateway payload `Role` (gateway events), as the fields the client reads.
#[derive(Clone, Debug)]
pub struct Role {
    pub id: SnowflakeID,
    pub name: Option<String>,
    pub color: Option<i64>,
    pub managed: bool,
    pub mentionable: bool,
    pub permissions: Option<String>,
    pub position: Option<i64>,
}

/// Gateway payload `GuildRoleDelete` (gateway events), as the fields the client reads.
#[derive(Clone, Debug)]
pub struct GuildRoleDelete {
    pub guild_id: SnowflakeID,
    pub role_id: SnowflakeID,
}

/// Gateway payload `GuildEmojisUpdate` (gateway events), as the fields the client reads.
#[derive(Clone, Debug)]
pub struct GuildEmojisUpdate {
    pub guild_id: SnowflakeID,
}

/// Gateway payload `GuildStickersUpdate` (gateway events), as the fields the client reads.
#[derive(Clone, Debug)]
pub struct GuildStickersUpdate {
    pub guild_id: SnowflakeID,
}

/// Gateway payload `GuildApplicationCommandIndexUpdate` (gateway events), as the fields the client reads.
#[derive(Clone, Debug)]
pub struct GuildApplicationCommandIndexUpdate {
    pub guild_id: SnowflakeID,
}

/// Gateway payload `GuildAuditLogEntryCreate` (gateway events), as the fields the client reads.
#[derive(Clone, Debug)]
pub struct GuildAuditLogEntryCreate {
    pub id: SnowflakeID,
    pub guild_id: SnowflakeID,
    pub user_id: Option<SnowflakeID>,
    pub target_id: Option<String>,
    pub action_type: i64,
    pub reason: Option<String>,
}

/// Gateway payload `GuildMemberAdd` (gateway events), as the fields the client reads.
#[derive(Clone, Debug)]
pub struct GuildMemberAdd {
    pub guild_id: SnowflakeID,
    pub user: UserStub,
    pub nick: Option<String>,
    pub joined_at: Option<String>,
    pub premium_since: Option<String>,
    pub roles: Vec<String>,
    pub pending: Option<bool>,
}

/// Gateway payload `GuildMemberUpdate` (gateway events), as the fields the client reads.
#[derive(Clone, Debug)]
pub struct GuildMemberUpdate {
    pub guild_id: SnowflakeID,
    pub user: UserStub,
    pub nick: Option<String>,
    pub avatar: Option<String>,
    pub joined_at: Option<String>,
    pub premium_since: Option<String>,
    pub roles: Vec<String>,
    pub pending: Option<bool>,
    pub communication_disabled_until: Option<String>,
}

/// Gateway payload `GuildMemberChunk` (gateway events), as the fields the client reads.
#[derive(Clone, Debug)]
pub struct GuildMemberChunk {
    pub members: Vec<ChunkMember>,
    pub presences: Vec<ChunkPresence>,
    pub guild_id: SnowflakeID,
    pub chunk_index: Option<i64>,
    pub chunk_count: Option<i64>,
    pub nonce: Option<String>,
}

/// Gateway payload `ThreadEvent` (gateway events), as the fields the client reads.
#[derive(Clone, Debug)]
pub struct ThreadEvent {
    pub id: SnowflakeID,
    pub guild_id: Option<SnowflakeID>,
    pub parent_id: Option<SnowflakeID>,
    pub owner_id: Option<SnowflakeID>,
    pub name: Option<String>,
    pub type_field: i64,
    pub message_count: Option<i64>,
    pub member_count: Option<i64>,
    pub rate_limit_per_user: Option<i64>,
    pub last_message_id: Option<SnowflakeID>,
    pub applied_tags: Vec<String>,
}

/// Gateway payload `ThreadListSync` (gateway events), as the fields the client reads.
#[derive(Clone, Debug)]
pub struct ThreadListSync {
    pub guild_id: SnowflakeID,
    pub channel_ids: Vec<SnowflakeID>,
}

/// Gateway payload `ThreadMembersUpdate` (gateway events), as the fields the client reads.
#[derive(Clone, Debug)]
pub struct ThreadMembersUpdate {
    pub id: SnowflakeID,
    pub guild_id: Option<SnowflakeID>,
    pub member_count: Option<i64>,
    pub removed_member_ids: Vec<SnowflakeID>,
}

/// Gateway payload `InviteCreate` (gateway events), as the fields the client reads.
#[derive(Clone, Debug)]
pub struct InviteCreate {
    pub channel_id: SnowflakeID,
    pub guild_id: Option<SnowflakeID>,
    pub code: String,
    pub created_at: Option<String>,
    pub inviter: Option<UserStub>,
    pub max_age: Option<i64>,
    pub max_uses: Option<i64>,
    pub temporary: bool,
    pub uses: Option<i64>,
    pub target_type: Option<i64>,
    pub target_user: Option<UserStub>,
}

/// Gateway payload `InviteDelete` (gateway events), as the fields the client reads.
#[derive(Clone, Debug)]
pub struct InviteDelete {
    pub channel_id: SnowflakeID,
    pub guild_id: Option<SnowflakeID>,
    pub code: String,
}

/// Gateway payload `WebhooksUpdate` (gateway events), as the fields the client reads.
#[derive(Clone, Debug)]
pub struct WebhooksUpdate {
    pub guild_id: SnowflakeID,
    pub channel_id: SnowflakeID,
}

/// Gateway payload `UserUpdate` (gateway events), as the fields the client reads.
#[derive(Clone, Debug)]
pub struct UserUpdate {
    pub id: SnowflakeID,
    pub username: Option<String>,
    pub global_name: Option<String>,
    pub discriminator: Option<String>,
    pub email: Option<String>,
    pub avatar: Option<String>,
    pub bio: Option<String>,
    pub mfa_enabled: bool,
    pub verified: bool,
    pub phone: Option<String>,
    pub flags: Option<i64>,
    pub premium_type: Option<i64>,
}

/// Gateway payload `UserNoteUpdate` (gateway events), as the fields the client reads.
#[derive(Clone, Debug)]
pub struct UserNoteUpdate {
    pub id: SnowflakeID,
    pub note: Option<String>,
}

/// Gateway payload `UserNonChannelAck` (gateway events), as the fields the client reads.
#[derive(Clone, Debug)]
pub struct UserNonChannelAck {
    pub entity_id: Option<SnowflakeID>,
    pub ack_type: Option<i64>,
    pub version: Option<i64>,
}

/// Gateway payload `UserApplicationUpdate` (gateway events), as the fields the client reads.
#[derive(Clone, Debug)]
pub struct UserApplicationUpdate {
    pub application_id: SnowflakeID,
}

/// Gateway payload `UserConnectionsUpdate` (gateway events), as the fields the client reads.
#[derive(Clone, Debug)]
pub struct UserConnectionsUpdate {
}

/// Gateway payload `UserSettingsProtoUpdate` (gateway events), as the fields the client reads.
#[derive(Clone, Debug)]
pub struct UserSettingsProtoUpdate {
    pub partial: bool,
}

/// Gateway payload `RelationshipAdd` (gateway events), as the fields the client reads.
#[derive(Clone, Debug)]
pub struct RelationshipAdd {
    pub id: SnowflakeID,
    pub type_field: i64,
    pub user: Option<UserStub>,
    pub nickname: Option<String>,
    pub since: Option<String>,
    pub should_notify: bool,
}

/// Gateway payload `RelationshipRemove` (gateway events), as the fields the client reads.
#[derive(Clone, Debug)]
pub struct RelationshipRemove {
    pub id: SnowflakeID,
    pub type_field: Option<i64>,
    pub nickname: Option<String>,
}

/// Gateway payload `InteractionCreate` (gateway events), as the fields the client reads.
#[derive(Clone, Debug)]
pub struct InteractionCreate {
    pub id: SnowflakeID,
    pub nonce: Option<String>,
}

/// Gateway payload `InteractionSuccess` (gateway events), as the fields the client reads.
#[derive(Clone, Debug)]
pub struct InteractionSuccess {
    pub id: SnowflakeID,
    pub nonce: Option<String>,
}

/// Gateway payload `GuildScheduledEvent` (gateway events), as the fields the client reads.
#[derive(Clone, Debug)]
pub struct GuildScheduledEvent {
    pub id: SnowflakeID,
    pub guild_id: SnowflakeID,
    pub channel_id: Option<SnowflakeID>,
    pub creator_id: Option<SnowflakeID>,
    pub name: Option<String>,
    pub description: Option<String>,
    pub scheduled_start_time: Option<String>,
    pub scheduled_end_time: Option<String>,
    pub privacy_level: i64,
    pub status: Option<i64>,
    pub entity_type: Option<i64>,
    pub entity_id: Option<SnowflakeID>,
    pub user_count: Option<i64>,
    pub image: Option<String>,
}

/// Gateway payload `GuildScheduledEventUser` (gateway events), as the fields the client reads.
#[derive(Clone, Debug)]
pub struct GuildScheduledEventUser {
    pub guild_scheduled_event_id: SnowflakeID,
    pub user_id: SnowflakeID,
    pub guild_id: SnowflakeID,
}

/// Gateway payload `GuildSoundboardSound` (gateway events), as the fields the client reads.
#[derive(Clone, Debug)]
pub struct GuildSoundboardSound {
    pub sound_id: SnowflakeID,
    pub guild_id: Option<SnowflakeID>,
    pub name: Option<String>,
    pub emoji_id: Option<String>,
    pub emoji_name: Option<String>,
    pub user_id: Option<SnowflakeID>,
    pub available: Option<bool>,
}

/// Gateway payload `GuildSoundboardSoundsUpdate` (gateway events), as the fields the client reads.
#[derive(Clone, Debug)]
pub struct GuildSoundboardSoundsUpdate {
    pub guild_id: SnowflakeID,
}

/// Gateway payload `SoundboardSounds` (gateway events), as the fields the client reads.
#[derive(Clone, Debug)]
pub struct SoundboardSounds {
    pub guild_id: SnowflakeID,
}

/// Gateway payload `StageInstance` (gateway events), as the fields the client reads.
#[derive(Clone, Debug)]
pub struct StageInstance {
    pub id: SnowflakeID,
    pub guild_id: SnowflakeID,
    pub channel_id: SnowflakeID,
    pub topic: Option<String>,
    pub privacy_level: Option<i64>,
    pub discoverable_disabled: Option<bool>,
}

/// Gateway payload `Entitlement` (gateway events), as the fields the client reads.
#[derive(Clone, Debug)]
pub struct Entitlement {
    pub id: SnowflakeID,
    pub sku_id: Option<SnowflakeID>,
    pub user_id: Option<SnowflakeID>,
    pub guild_id: Option<SnowflakeID>,
    pub application_id: Option<SnowflakeID>,
    pub type_field: Option<i64>,
    pub deleted: Option<bool>,
    pub starts_at: Option<String>,
    pub ends_at: Option<String>,
}

/// Gateway payload `Subscription` (gateway events), as the fields the client reads.
#[derive(Clone, Debug)]
pub struct Subscription {
    pub id: SnowflakeID,
    pub user_id: Option<SnowflakeID>,
    pub status: Option<i64>,
    pub current_period_start: Option<String>,
    pub current_period_end: Option<String>,
}

/// Gateway payload `GuildJoinRequest` (gateway events), as the fields the client reads.
#[derive(Clone, Debug)]
pub struct GuildJoinRequest {
    pub guild_id: SnowflakeID,
    pub status: Option<String>,
}

/// Gateway payload `AutoModerationRule` (gateway events), as the fields the client reads.
#[derive(Clone, Debug)]
pub struct AutoModerationRule {
    pub id: SnowflakeID,
    pub guild_id: SnowflakeID,
    pub name: Option<String>,
    pub creator_id: Option<SnowflakeID>,
    pub event_type: Option<i64>,
    pub trigger_type: Option<i64>,
    pub enabled: bool,
}

/// Gateway payload `AutoModerationExecution` (gateway events), as the fields the client reads.
#[derive(Clone, Debug)]
pub struct AutoModerationExecution {
    pub guild_id: SnowflakeID,
    pub rule_id: Option<SnowflakeID>,
    pub user_id: Option<SnowflakeID>,
    pub channel_id: Option<SnowflakeID>,
    pub message_id: Option<SnowflakeID>,
    pub matched_keyword: Option<String>,
    pub content: Option<String>,
}

/// Gateway payload `ApplicationCommandPermissionsUpdate` (gateway events), as the fields the client reads.
#[derive(Clone, Debug)]
pub struct ApplicationCommandPermissionsUpdate {
    pub id: SnowflakeID,
    pub application_id: SnowflakeID,
    pub guild_id: SnowflakeID,
}

/// Gateway payload `ChannelPinsUpdate` (gateway events), as the fields the client reads.
#[derive(Clone, Debug)]
pub struct ChannelPinsUpdate {
    pub channel_id: SnowflakeID,
    pub guild_id: Option<SnowflakeID>,
    pub last_pin_timestamp: Option<String>,
}

/// Gateway payload `ChannelPinsAck` (gateway events), as the fields the client reads.
#[derive(Clone, Debug)]
pub struct ChannelPinsAck {
    pub channel_id: SnowflakeID,
    pub timestamp: Option<String>,
    pub version: Option<i64>,
}

/// Gateway payload `ChannelTopicUpdate` (gateway events), as the fields the client reads.
#[derive(Clone, Debug)]
pub struct ChannelTopicUpdate {
    pub channel_id: SnowflakeID,
    pub guild_id: Option<SnowflakeID>,
    pub topic: Option<String>,
}

/// Gateway payload `VoiceChannelEffectSend` (gateway events), as the fields the client reads.
#[derive(Clone, Debug)]
pub struct VoiceChannelEffectSend {
    pub channel_id: SnowflakeID,
    pub guild_id: Option<SnowflakeID>,
    pub user_id: Option<SnowflakeID>,
    pub emoji: Option<ReactionEmoji>,
    pub animation_type: Option<i64>,
    pub animation_id: Option<i64>,
    pub sound_id: Option<SnowflakeID>,
}

/// Gateway payload `IntegrationDelete` (gateway events), as the fields the client reads.
#[derive(Clone, Debug)]
pub struct IntegrationDelete {
    pub id: SnowflakeID,
    pub guild_id: SnowflakeID,
    pub application_id: Option<SnowflakeID>,
}

/// Gateway payload `EmbeddedActivityUpdateV2` (gateway events), as the fields the client reads.
#[derive(Clone, Debug)]
pub struct EmbeddedActivityUpdateV2 {
    pub guild_id: Option<SnowflakeID>,
    pub instance_id: Option<String>,
    pub launch_id: Option<String>,
    pub application_id: Option<SnowflakeID>,
    pub composite_instance_id: Option<String>,
}

/// Gateway payload `ConversationSummaryUpdate` (gateway events), as the fields the client reads.
#[derive(Clone, Debug)]
pub struct ConversationSummaryUpdate {
    pub channel_id: SnowflakeID,
    pub guild_id: Option<SnowflakeID>,
}

/// Gateway payload `NotificationCenterItem` (gateway events), as the fields the client reads.
#[derive(Clone, Debug)]
pub struct NotificationCenterItem {
    pub id: Option<String>,
    pub user_id: Option<SnowflakeID>,
    pub type_field: Option<String>,
    pub completed: Option<bool>,
    pub viewed: Option<bool>,
    pub other_user: Option<UserStub>,
    pub created_at: Option<String>,
}

/// Gateway payload `RecentMentionDelete` (gateway events), as the fields the client reads.
#[derive(Clone, Debug)]
pub struct RecentMentionDelete {
    pub message_id: SnowflakeID,
}

/// Gateway payload `ContentInventoryInboxStale` (gateway events), as the fields the client reads.
#[derive(Clone, Debug)]
pub struct ContentInventoryInboxStale {
    pub user_id: Option<SnowflakeID>,
}

/// Gateway payload `Oauth2TokenCreate` (gateway events), as the fields the client reads.
#[derive(Clone, Debug)]
pub struct Oauth2TokenCreate {
    pub id: SnowflakeID,
    pub scopes: Vec<String>,
}

/// A member of a member chunk: its user's raw id and names, when present.
#[derive(Clone, Debug)]
pub struct ChunkMember {
    pub user: Option<ChunkUser>,
}

/// The user of a member chunk entry.
#[derive(Clone, Debug)]
pub struct ChunkUser {
    pub id: Option<String>,
    pub username: Option<String>,
    pub global_name: Option<String>,
}

/// A presence of a member chunk: the raw user id and status string, when present.
#[derive(Clone, Debug)]
pub struct ChunkPresence {
    pub user_id: Option<String>,
    pub status: Option<String>,
}

/// The string fields of a stream event payload that the client reads.
#[derive(Clone, Debug)]
pub struct StreamEvent {
    pub stream_key: Option<String>,
    pub rtc_server_id: Option<String>,
    pub token: Option<String>,
    pub endpoint: Option<String>,
    pub guild_id: Option<String>,
}

} // verus!
