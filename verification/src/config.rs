use vstd::prelude::*;
use crate::snowflake::SnowflakeID;

verus! {

/// Which gateway events the console logger reports.
#[derive(Clone, Copy, Debug)]
pub struct Event {
    pub message_create: bool,
    pub message_delete: bool,
    pub session_replace: bool,
    pub presence_update: bool,
    pub user_settings_update: bool,
    pub call_dm_create: bool,
    pub call_dm_delete: bool,
    pub typing_start: bool,
    pub voice_state_update: bool,
    pub channel_update: bool,
}

impl Default for Event {
    /// Messages, deletions, sessions, presences, settings and calls are reported; typing,
    /// voice states and channel updates are not.
    fn default() -> (r: Self)
        ensures
            r.message_create && r.message_delete && r.session_replace && r.presence_update,
            r.user_settings_update && r.call_dm_create && r.call_dm_delete,
            !r.typing_start && !r.voice_state_update && !r.channel_update,
    {
        Event {
            message_create: true,
            message_delete: true,
            session_replace: true,
            presence_update: true,
            user_settings_update: true,
            call_dm_create: true,
            call_dm_delete: true,
            typing_start: false,
            voice_state_update: false,
            channel_update: false,
        }
    }
}

/// Which dumps the console logger writes to files.
#[derive(Clone, Copy, Debug)]
pub struct WriteFile {
    pub ready: bool,
    pub server_channel: bool,
    pub dm_channel: bool,
    pub todo_dump: bool,
    pub tracking: bool,
}

impl Default for WriteFile {
    /// No dump is written.
    fn default() -> (r: Self)
        ensures
            !r.ready && !r.server_channel && !r.dm_channel && !r.todo_dump && !r.tracking,
    {
        WriteFile { ready: false, server_channel: false, dm_channel: false, todo_dump: false, tracking: false }
    }
}

/// The settings of the client, as read from `config.json`.
#[derive(Clone, Debug)]
pub struct Config {
    pub dm_track: bool,
    pub server_track: bool,
    pub print_muted_dm: bool,
    pub message_buffer_size: usize,
    pub token: String,
    pub dm_channel_id_tracking: Vec<SnowflakeID>,
    pub track_myself: bool,
    pub event: Event,
    pub download_media: bool,
    pub write_file: WriteFile,
    pub debug: bool,
    pub voice_input_device: Option<String>,
    pub voice_output_device: Option<String>,
}

impl Default for Config {
    /// Direct and server messages followed, muted DMs printed, 500 messages kept, no token,
    /// no DM filter, own messages followed, default events, no media saved, no dumps, no
    /// debug output, default audio devices.
    fn default() -> (r: Self)
        ensures
            r.dm_track && r.server_track && r.print_muted_dm,
            r.message_buffer_size == 500,
            r.token@.len() == 0,
            r.dm_channel_id_tracking@.len() == 0,
            r.track_myself,
            r.event.message_create && r.event.message_delete && r.event.session_replace,
            r.event.presence_update && r.event.user_settings_update,
            r.event.call_dm_create && r.event.call_dm_delete,
            !r.event.typing_start && !r.event.voice_state_update && !r.event.channel_update,
            !r.download_media,
            !r.write_file.ready && !r.write_file.server_channel && !r.write_file.dm_channel,
            !r.write_file.todo_dump && !r.write_file.tracking,
            !r.debug,
            r.voice_input_device is None && r.voice_output_device is None,
    {
        Config {
            dm_track: true,
            server_track: true,
            print_muted_dm: true,
            message_buffer_size: 500,
            token: String::new(),
            dm_channel_id_tracking: Vec::new(),
            track_myself: true,
            event: Event::default(),
            download_media: false,
            write_file: WriteFile::default(),
            debug: false,
            voice_input_device: None,
            voice_output_device: None,
        }
    }
}

} // verus!
