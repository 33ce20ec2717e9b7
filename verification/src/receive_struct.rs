pub mod call_create;
pub mod call_delete;
pub mod channel_create;
pub mod channel_unread_update;
pub mod channel_update;
pub mod gateway_events;
pub mod guild_delete;
pub mod guild_integration_update;
pub mod guild_member_remove;
pub mod hello;
pub mod integration_update;
pub mod message_ack;
pub mod message_create;
pub mod message_delete;
pub mod presence_update;
pub mod ready;
pub mod session_replace;
pub mod typing_start;
pub mod user_application_identity_update;
pub mod user_guild_settings_update;
pub mod user_settings_update;
pub mod voice_channel_start_time_update;
pub mod voice_channel_status_update;
pub mod voice_server_update;
pub mod voice_state_update;
