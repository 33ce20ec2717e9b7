use vstd::prelude::*;
use crate::text::owned;

verus! {

/// A JSON value, carried through unread.
#[verifier::external_type_specification]
#[verifier::external_body]
pub struct ExJsonValue(serde_json::Value);

/// A JSON object, carried through unread.
#[verifier::external_type_specification]
#[verifier::external_body]
#[verifier::reject_recursive_types(K)]
#[verifier::reject_recursive_types(V)]
pub struct ExJsonMap<K, V>(serde_json::Map<K, V>);

/// An empty JSON object (`serde_json::Map::new`). Its contents are not modelled, so
/// nothing is claimed of it.
#[verifier::external_body]
fn empty_json_object() -> serde_json::Map<String, serde_json::Value> {
    serde_json::Map::new()
}

/// How the client describes itself when it identifies.
pub struct Properties {
    pub os: String,
    pub browser: String,
    pub device: String,
    pub system_locale: String,
    pub browser_user_agent: String,
    pub browser_version: String,
    pub os_version: String,
    pub referrer: String,
    pub referring_domain: String,
    pub referrer_current: String,
    pub referring_domain_current: String,
    pub release_channel: String,
    pub client_build_number: u32,
    pub client_event_source: Option<serde_json::Value>,
}

impl Properties {
    /// A desktop Chrome on macOS, stable channel.
    pub fn default_mac() -> (r: Self)
        ensures
            r.os@ == "Mac OS X"@,
            r.browser@ == "Chrome"@,
            r.device@.len() == 0,
            r.system_locale@ == "en-US"@,
            r.browser_user_agent@ == "Mozilla/5.0 (Macintosh; Intel Mac OS X 10_15_7) AppleWebKit/537.36 (KHTML, like Gecko) Chrome/131.0.0.0 Safari/537.36"@,
            r.browser_version@ == "131.0.0.0"@,
            r.os_version@ == "10.15.7"@,
            r.referrer@.len() == 0,
            r.referring_domain@.len() == 0,
            r.referrer_current@.len() == 0,
            r.referring_domain_current@.len() == 0,
            r.release_channel@ == "stable"@,
            r.client_build_number == 350_000,
            r.client_event_source is None,
    {
        Properties {
            os: owned("Mac OS X"),
            browser: owned("Chrome"),
            device: String::new(),
            system_locale: owned("en-US"),
            browser_user_agent: owned("Mozilla/5.0 (Macintosh; Intel Mac OS X 10_15_7) AppleWebKit/537.36 (KHTML, like Gecko) Chrome/131.0.0.0 Safari/537.36"),
            browser_version: owned("131.0.0.0"),
            os_version: owned("10.15.7"),
            referrer: String::new(),
            referring_domain: String::new(),
            referrer_current: String::new(),
            referring_domain_current: String::new(),
            release_channel: owned("stable"),
            client_build_number: 350_000,
            client_event_source: None,
        }
    }
}

/// The presence announced when identifying.
pub struct Presence {
    pub activities: Vec<serde_json::Value>,
    pub status: String,
    pub since: i64,
    pub afk: bool,
}

/// The cached guild versions announced when identifying.
pub struct ClientState {
    pub guild_versions: serde_json::Map<String, serde_json::Value>,
}

/// What an identification carries.
pub struct D {
    pub token: String,
    pub properties: Properties,
    pub presence: Presence,
    pub compress: bool,
    pub client_state: ClientState,
}

/// The gateway command (opcode 2) that identifies a new session.
pub struct PayloadLogin {
    pub op: u8,
    pub d: D,
}

impl PayloadLogin {
    /// Identifies with `token` as a desktop Chrome on macOS (see
    /// [`Properties::default_mac`]), invisible, not away, uncompressed, with no cached guilds.
    pub fn identify(token: &str) -> (r: Self)
        ensures
            r.op == 2,
            r.d.token@ == token@,
            r.d.properties.os@ == "Mac OS X"@,
            r.d.properties.release_channel@ == "stable"@,
            r.d.properties.client_build_number == 350_000,
            r.d.presence.activities@.len() == 0,
            r.d.presence.status@ == "invisible"@,
            r.d.presence.since == 0,
            !r.d.presence.afk,
            !r.d.compress,
    {
        PayloadLogin {
            op: 2,
            d: D {
                token: owned(token),
                properties: Properties::default_mac(),
                presence: Presence { activities: Vec::new(), status: owned("invisible"), since: 0, afk: false },
                compress: false,
                client_state: ClientState { guild_versions: empty_json_object() },
            },
        }
    }
}

} // verus!
