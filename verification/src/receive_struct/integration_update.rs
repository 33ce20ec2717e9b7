use vstd::prelude::*;
#[allow(unused_imports)]
use crate::snowflake::SnowflakeID;

verus! {

/// Gateway payload `IntegrationUpdate` (integration update), as the fields the client reads.
#[derive(Clone, Debug)]
pub struct IntegrationUpdate {
    pub id: SnowflakeID,
    pub guild_id: SnowflakeID,
    pub name: Option<String>,
    pub type_field: Option<String>,
    pub enabled: Option<bool>,
    pub syncing: Option<bool>,
    pub role_id: Option<SnowflakeID>,
    pub enable_emoticons: Option<bool>,
    pub expire_behavior: Option<i64>,
    pub expire_grace_period: Option<i64>,
    pub account: Option<Account>,
    pub synced_at: Option<String>,
    pub subscriber_count: Option<i64>,
    pub revoked: Option<bool>,
    pub scopes: Vec<String>,
}

/// Gateway payload `Account` (integration update), as the fields the client reads.
#[derive(Clone, Debug)]
pub struct Account {
    pub id: String,
    pub name: String,
}

} // verus!
