pub mod force_join_vocal;
pub mod login_payload;
pub mod payload;
pub mod presence;
pub mod request_guild_members;
pub mod resume;
pub mod start_video;
