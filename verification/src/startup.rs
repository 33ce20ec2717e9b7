use vstd::prelude::*;
use crate::appstate::AppState;
use crate::config::Config;
use crate::state::{EditCfg, UiPrefs, copy_opt};

verus! {

/// The display preferences saved in the configuration file, each when present there with
/// the right type.
#[derive(Clone, Copy, Debug)]
pub struct UiPatch {
    pub toast_enabled: Option<bool>,
    pub toast_secs: Option<u64>,
    pub notify_mentions: Option<bool>,
    pub show_relative_time: Option<bool>,
    pub show_typing: Option<bool>,
    pub dsp_rx: Option<bool>,
    pub dsp_tx: Option<bool>,
    pub self_mute: Option<bool>,
    pub self_deaf: Option<bool>,
}

/// A saved switch, else the current one.
pub open spec fn or_keep(o: Option<bool>, b: bool) -> bool {
    match o {
        Some(v) => v,
        None => b,
    }
}

/// The preferences `p` with the saved ones of `u`: each saved value replaces the current
/// one, a saved toast duration kept within 1..=60 seconds.
pub open spec fn patched(p: UiPrefs, u: UiPatch) -> UiPrefs {
    UiPrefs {
        toast_enabled: or_keep(u.toast_enabled, p.toast_enabled),
        toast_secs: match u.toast_secs {
            Some(n) => if n < 1 { 1 } else if n > 60 { 60 } else { n },
            None => p.toast_secs,
        },
        notify_mentions: or_keep(u.notify_mentions, p.notify_mentions),
        show_relative_time: or_keep(u.show_relative_time, p.show_relative_time),
        show_typing: or_keep(u.show_typing, p.show_typing),
        dsp_rx: or_keep(u.dsp_rx, p.dsp_rx),
        dsp_tx: or_keep(u.dsp_tx, p.dsp_tx),
        self_mute: or_keep(u.self_mute, p.self_mute),
        self_deaf: or_keep(u.self_deaf, p.self_deaf),
    }
}

fn keep(o: Option<bool>, b: bool) -> (r: bool)
    ensures
        r == or_keep(o, b),
{
    match o {
        Some(v) => v,
        None => b,
    }
}

/// The preferences with the saved ones (see [`patched`]).
pub fn apply_ui_patch(p: UiPrefs, u: &UiPatch) -> (r: UiPrefs)
    ensures
        r == patched(p, *u),
{
    UiPrefs {
        toast_enabled: keep(u.toast_enabled, p.toast_enabled),
        toast_secs: match u.toast_secs {
            Some(n) => if n < 1 { 1 } else if n > 60 { 60 } else { n },
            None => p.toast_secs,
        },
        notify_mentions: keep(u.notify_mentions, p.notify_mentions),
        show_relative_time: keep(u.show_relative_time, p.show_relative_time),
        show_typing: keep(u.show_typing, p.show_typing),
        dsp_rx: keep(u.dsp_rx, p.dsp_rx),
        dsp_tx: keep(u.dsp_tx, p.dsp_tx),
        self_mute: keep(u.self_mute, p.self_mute),
        self_deaf: keep(u.self_deaf, p.self_deaf),
    }
}

/// The editable settings as the configuration has them.
pub open spec fn edit_cfg_of(c: Config) -> EditCfg {
    EditCfg {
        download_media: c.download_media,
        debug: c.debug,
        print_muted_dm: c.print_muted_dm,
        dm_track: c.dm_track,
        server_track: c.server_track,
        track_myself: c.track_myself,
        message_buffer_size: c.message_buffer_size,
        voice_input_device: c.voice_input_device,
        voice_output_device: c.voice_output_device,
    }
}

impl AppState {
    /// Takes the settings of the configuration read at `config_path`: the audio devices,
    /// the path, and the editable settings; nothing else changes.
    pub fn configure(&mut self, cfg: &Config, config_path: String)
        ensures
            final(self).voice.voice_input_device == cfg.voice_input_device,
            final(self).voice.voice_output_device == cfg.voice_output_device,
            final(self).config_path == config_path,
            final(self).edit_cfg == edit_cfg_of(*cfg),
            *final(self) == (AppState {
                voice: final(self).voice,
                config_path: final(self).config_path,
                edit_cfg: final(self).edit_cfg,
                ..*old(self)
            }),
            final(self).voice == (crate::appstate::Voice {
                voice_input_device: final(self).voice.voice_input_device,
                voice_output_device: final(self).voice.voice_output_device,
                ..old(self).voice
            }),
    {
        self.voice.voice_input_device = copy_opt(&cfg.voice_input_device);
        self.voice.voice_output_device = copy_opt(&cfg.voice_output_device);
        self.config_path = config_path;
        self.edit_cfg = EditCfg {
            download_media: cfg.download_media,
            debug: cfg.debug,
            print_muted_dm: cfg.print_muted_dm,
            dm_track: cfg.dm_track,
            server_track: cfg.server_track,
            track_myself: cfg.track_myself,
            message_buffer_size: cfg.message_buffer_size,
            voice_input_device: copy_opt(&cfg.voice_input_device),
            voice_output_device: copy_opt(&cfg.voice_output_device),
        };
    }

    /// Takes the preferences of a configuration file that could be read: its saved display
    /// preferences when it has a `ui` entry (see [`patched`]), then the microphone and
    /// sound mutes of the preferences.
    pub fn adopt_saved_prefs(&mut self, patch: Option<UiPatch>)
        ensures
            final(self).prefs == (match patch {
                Some(u) => patched(old(self).prefs, u),
                None => old(self).prefs,
            }),
            final(self).voice.self_mute == final(self).prefs.self_mute,
            final(self).voice.self_deaf == final(self).prefs.self_deaf,
            final(self).voice == (crate::appstate::Voice {
                self_mute: final(self).voice.self_mute,
                self_deaf: final(self).voice.self_deaf,
                ..old(self).voice
            }),
            *final(self) == (AppState { prefs: final(self).prefs, voice: final(self).voice, ..*old(self) }),
    {
        match patch {
            Some(u) => {
                self.prefs = apply_ui_patch(self.prefs, &u);
            },
            None => {},
        }
        self.voice.self_mute = self.prefs.self_mute;
        self.voice.self_deaf = self.prefs.self_deaf;
    }
}

} // verus!
