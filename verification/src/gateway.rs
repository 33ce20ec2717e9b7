use vstd::prelude::*;
use crate::appstate::AppState;
use crate::events::{
    apply_channel_delete, apply_channel_upsert, apply_member_chunk, apply_message_delete, apply_presence_update,
    apply_reaction_add, apply_reaction_remove, apply_typing_start, channel_delete_rel, channel_upsert_rel,
    member_chunk_rel, message_delete_rel, presence_rel, reaction_add_rel, reaction_label, reaction_remove_rel,
    reaction_room, typing_rel,
};
use crate::message_flow::{apply_message, message_rel};
use crate::ready_state::ready_rel;
use crate::receive_struct::call_create::CallCreateData;
use crate::receive_struct::call_delete::CallDeleteData;
use crate::receive_struct::channel_create::ChannelCreateData;
use crate::receive_struct::channel_unread_update::ChannelUnreadUpdate;
use crate::receive_struct::gateway_events::{GuildMemberChunk, MessageReactionAdd, MessageReactionRemove, StreamEvent};
use crate::receive_struct::guild_delete::GuildDelete;
use crate::receive_struct::guild_integration_update::GuildIntegrationsUpdate;
use crate::receive_struct::guild_member_remove::GuildMemberRemove;
use crate::receive_struct::integration_update::IntegrationUpdate;
use crate::receive_struct::message_ack::MessageAck;
use crate::receive_struct::message_create::MessageCreateData;
use crate::receive_struct::message_delete::MessageDeleteData;
use crate::receive_struct::presence_update::PresenceData;
use crate::receive_struct::ready::ReadyData;
use crate::receive_struct::session_replace::SessionReplaceData;
use crate::receive_struct::typing_start::TypingData;
use crate::receive_struct::user_guild_settings_update::UserGuildSettingsUpdateData;
use crate::receive_struct::user_settings_update::UserSettingsUpdateData;
use crate::receive_struct::voice_channel_start_time_update::VoiceChannelStartTimeUpdateData;
use crate::receive_struct::voice_server_update::VoiceServerUpdateData;
use crate::receive_struct::voice_state_update::VoiceStateUpdateData;
use crate::snowflake::SnowflakeID;
use crate::streams::{
    StreamStart, apply_stream_create, apply_stream_delete, apply_stream_server, keys_unique, stream_create_rel,
    stream_delete_rel, stream_server_rel,
};
use crate::voice_events::{VoiceStart, apply_voice_server, apply_voice_state, voice_server_rel, voice_state_rel};

verus! {

/// A request from the interface to the gateway task.
#[derive(Clone, Debug)]
pub enum GatewayAction {
    JoinVoice { guild: SnowflakeID, channel: SnowflakeID },
    JoinDmCall { channel: SnowflakeID },
    LeaveVoice { guild: SnowflakeID },
    RequestMembers { guild: SnowflakeID },
    WatchStream { stream_key: String, user: SnowflakeID },
    StopStream,
    StopOneStream { uid: u64 },
    GoLive,
    StopGoLive,
    SetVoiceState { mute: bool, deaf: bool },
}

/// A gateway dispatch event, by the payloads the client reads. `Other` stands for the
/// remaining event types: `listed` tells those that the console logger knows and ignores
/// from those it does not know.
#[derive(Clone, Debug)]
pub enum DiscordEventMessage {
    Ready { d: Box<ReadyData> },
    ReadySupplemental,
    Resumed,
    MessageCreate { d: MessageCreateData },
    MessageUpdate { d: MessageCreateData },
    MessageDelete { d: MessageDeleteData },
    MessageAck { d: MessageAck },
    MessageReactionAdd { d: MessageReactionAdd },
    MessageReactionRemove { d: MessageReactionRemove },
    SessionsReplace { d: Vec<SessionReplaceData> },
    PresenceUpdate { d: PresenceData },
    UserSettingsUpdate { d: UserSettingsUpdateData },
    UserGuildSettingsUpdate { d: UserGuildSettingsUpdateData },
    CallCreate { d: CallCreateData },
    CallDelete { d: CallDeleteData },
    TypingStart { d: TypingData },
    VoiceStateUpdate { d: VoiceStateUpdateData },
    VoiceServerUpdate { d: VoiceServerUpdateData },
    VoiceChannelStartTimeUpdate { d: VoiceChannelStartTimeUpdateData },
    ChannelCreate { d: ChannelCreateData },
    ChannelUpdate { d: ChannelCreateData },
    ChannelDelete { d: ChannelCreateData },
    ChannelUnreadUpdate { d: ChannelUnreadUpdate },
    GuildDelete { d: GuildDelete },
    GuildMemberRemove { d: GuildMemberRemove },
    GuildIntegrationsUpdate { d: GuildIntegrationsUpdate },
    IntegrationCreate { d: IntegrationUpdate },
    IntegrationUpdate { d: IntegrationUpdate },
    GuildMemberChunk { d: GuildMemberChunk },
    StreamCreate { d: StreamEvent },
    StreamServerUpdate { d: StreamEvent },
    StreamUpdate { d: StreamEvent },
    StreamDelete { d: StreamEvent },
    Other { listed: bool },
}

/// What the caller does after an event: fetch the guild icons and DM avatars, fetch a
/// message's images, open the call connection, open a stream connection, or disconnect
/// the watch connection of a user.
#[derive(Clone, Debug)]
pub enum EventFollowUp {
    Nothing,
    FetchThumbnails,
    FetchImages(Vec<(SnowflakeID, String)>),
    StartVoice(VoiceStart),
    StartStream(StreamStart),
    StopStream(u64),
}

/// What the state needs for event `ev` to apply without overflow: room for one more unread
/// message in a message's channel, and for one more reaction of an added kind.
pub open spec fn event_fits(ev: DiscordEventMessage, s: AppState) -> bool {
    match ev {
        DiscordEventMessage::MessageCreate { d } | DiscordEventMessage::MessageUpdate { d } => (if s.unread.unread_count@.contains_key(
            d.channel_id.0,
        ) {
            s.unread.unread_count@[d.channel_id.0]
        } else {
            0u32
        }) < u32::MAX,
        DiscordEventMessage::MessageReactionAdd { d } => reaction_room(
            s.messages@,
            d.channel_id.0,
            d.message_id.0,
            reaction_label(d.emoji),
        ),
        _ => true,
    }
}

/// The result of an optional call connection start.
pub open spec fn voice_follow(v: Option<VoiceStart>) -> EventFollowUp {
    match v {
        Some(x) => EventFollowUp::StartVoice(x),
        None => EventFollowUp::Nothing,
    }
}

/// Applies a gateway event to the client state; the ready payload also sets the session id
/// and the resume URL when it carries them. Gives what the caller does next.
pub fn apply_event(
    ev: DiscordEventMessage,
    state: &mut AppState,
    session_id: &mut String,
    resume_gateway: &mut String,
    now_ms: u64,
) -> (r: EventFollowUp)
    requires
        keys_unique(old(state).streams.pending_streams@),
        event_fits(ev, *old(state)),
    ensures
        keys_unique(final(state).streams.pending_streams@),
        match ev {
            DiscordEventMessage::Ready { d } => {
                &&& ready_rel(*old(state), *final(state), *d)
                &&& *final(session_id) == (match d.session_id { Some(x) => x, None => *old(session_id) })
                &&& *final(resume_gateway) == (match d.resume_gateway_url { Some(x) => x, None => *old(resume_gateway) })
                &&& r == EventFollowUp::FetchThumbnails
            },
            DiscordEventMessage::MessageCreate { d } | DiscordEventMessage::MessageUpdate { d } => {
                &&& r matches EventFollowUp::FetchImages(v)
                &&& message_rel(*old(state), *final(state), d, now_ms, r->FetchImages_0)
            },
            DiscordEventMessage::MessageDelete { d } => message_delete_rel(*old(state), *final(state), d) && r == EventFollowUp::Nothing,
            DiscordEventMessage::VoiceStateUpdate { d } => exists|v: Option<VoiceStart>| {
                &&& #[trigger] voice_state_rel(*old(state), *final(state), d, v)
                &&& r == voice_follow(v)
            },
            DiscordEventMessage::VoiceServerUpdate { d } => exists|v: Option<VoiceStart>| {
                &&& #[trigger] voice_server_rel(*old(state), *final(state), d, v)
                &&& r == voice_follow(v)
            },
            DiscordEventMessage::StreamCreate { d } => stream_create_rel(*old(state), *final(state), d) && r == EventFollowUp::Nothing,
            DiscordEventMessage::StreamServerUpdate { d } => exists|v: Option<StreamStart>| {
                &&& #[trigger] stream_server_rel(*old(state), *final(state), d, old(session_id)@, v)
                &&& r == (match v {
                    Some(x) => EventFollowUp::StartStream(x),
                    None => EventFollowUp::Nothing,
                })
            },
            DiscordEventMessage::StreamDelete { d } => exists|v: Option<u64>| {
                &&& #[trigger] stream_delete_rel(*old(state), *final(state), d, v)
                &&& r == (match v {
                    Some(u) => EventFollowUp::StopStream(u),
                    None => EventFollowUp::Nothing,
                })
            },
            DiscordEventMessage::PresenceUpdate { d } => presence_rel(*old(state), *final(state), d) && r == EventFollowUp::Nothing,
            DiscordEventMessage::TypingStart { d } => typing_rel(*old(state), *final(state), d, now_ms) && r == EventFollowUp::Nothing,
            DiscordEventMessage::MessageReactionAdd { d } => reaction_add_rel(*old(state), *final(state), d) && r == EventFollowUp::Nothing,
            DiscordEventMessage::MessageReactionRemove { d } => reaction_remove_rel(*old(state), *final(state), d) && r == EventFollowUp::Nothing,
            DiscordEventMessage::ChannelCreate { d } | DiscordEventMessage::ChannelUpdate { d } => channel_upsert_rel(*old(state), *final(state), d) && r == EventFollowUp::Nothing,
            DiscordEventMessage::ChannelDelete { d } => channel_delete_rel(*old(state), *final(state), d.id) && r == EventFollowUp::Nothing,
            DiscordEventMessage::GuildMemberChunk { d } => member_chunk_rel(*old(state), *final(state), d) && r == EventFollowUp::Nothing,
            _ => *final(state) == *old(state) && r == EventFollowUp::Nothing,
        },
        !(ev is Ready) ==> *final(session_id) == *old(session_id) && *final(resume_gateway) == *old(resume_gateway),
{
    match ev {
        DiscordEventMessage::Ready { d } => {
            match &d.resume_gateway_url {
                Some(rg) => {
                    *resume_gateway = rg.clone();
                },
                None => {},
            }
            match &d.session_id {
                Some(sid) => {
                    *session_id = sid.clone();
                },
                None => {},
            }
            state.apply_ready(&d);
            EventFollowUp::FetchThumbnails
        },
        DiscordEventMessage::MessageCreate { d } | DiscordEventMessage::MessageUpdate { d } => {
            let imgs = apply_message(&d, state, now_ms);
            EventFollowUp::FetchImages(imgs)
        },
        DiscordEventMessage::MessageDelete { d } => {
            apply_message_delete(&d, state);
            EventFollowUp::Nothing
        },
        DiscordEventMessage::VoiceStateUpdate { d } => {
            let v = apply_voice_state(&d, state);
            match v {
                Some(x) => EventFollowUp::StartVoice(x),
                None => EventFollowUp::Nothing,
            }
        },
        DiscordEventMessage::VoiceServerUpdate { d } => {
            let v = apply_voice_server(&d, state);
            match v {
                Some(x) => EventFollowUp::StartVoice(x),
                None => EventFollowUp::Nothing,
            }
        },
        DiscordEventMessage::StreamCreate { d } => {
            apply_stream_create(&d, state);
            EventFollowUp::Nothing
        },
        DiscordEventMessage::StreamServerUpdate { d } => {
            let v = apply_stream_server(&d, state, session_id.as_str());
            match v {
                Some(x) => EventFollowUp::StartStream(x),
                None => EventFollowUp::Nothing,
            }
        },
        DiscordEventMessage::StreamDelete { d } => {
            let v = apply_stream_delete(&d, state);
            match v {
                Some(u) => EventFollowUp::StopStream(u),
                None => EventFollowUp::Nothing,
            }
        },
        DiscordEventMessage::PresenceUpdate { d } => {
            apply_presence_update(&d, state);
            EventFollowUp::Nothing
        },
        DiscordEventMessage::TypingStart { d } => {
            apply_typing_start(&d, state, now_ms);
            EventFollowUp::Nothing
        },
        DiscordEventMessage::MessageReactionAdd { d } => {
            apply_reaction_add(&d, state);
            EventFollowUp::Nothing
        },
        DiscordEventMessage::MessageReactionRemove { d } => {
            apply_reaction_remove(&d, state);
            EventFollowUp::Nothing
        },
        DiscordEventMessage::ChannelCreate { d } | DiscordEventMessage::ChannelUpdate { d } => {
            apply_channel_upsert(&d, state);
            EventFollowUp::Nothing
        },
        DiscordEventMessage::ChannelDelete { d } => {
            apply_channel_delete(d.id, state);
            EventFollowUp::Nothing
        },
        DiscordEventMessage::GuildMemberChunk { d } => {
            apply_member_chunk(&d, state);
            EventFollowUp::Nothing
        },
        _ => EventFollowUp::Nothing,
    }
}

} // verus!
