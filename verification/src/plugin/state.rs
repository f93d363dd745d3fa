//! The load states of the plugin's components, as shown in the settings
//! view.

use vstd::prelude::*;

verus! {

/// Whether the squad extras interface was loaded.
#[derive(Debug)]
pub enum ExtrasState {
    Loaded,
    Incompatible,
    Unknown,
}

/// Whether the notification component was loaded.
#[derive(Debug)]
pub enum NotificationsState {
    Loaded,
    Errored,
    Unknown,
}

/// Whether the shared-memory link was loaded, and under which name.
#[derive(Debug)]
pub enum MumbleLinkState {
    Loaded(String),
    Errored,
    Unknown,
}

/// Whether the text-to-speech component was loaded.
#[derive(Debug)]
pub enum TtsState {
    Loaded,
    Errored,
    Unknown,
}

/// What the settings view shows about the plugin's components.
#[derive(Debug)]
pub struct UiState {
    pub extras_state: ExtrasState,
    pub notifications_state: NotificationsState,
    pub mumblelink_state: MumbleLinkState,
    pub tts_state: TtsState,
    /// The output devices found by the last refresh.
    pub audio_devices: Vec<String>,
    /// Whether a device refresh is under way.
    pub refreshing_audio_devices: bool,
}

impl UiState {
    /// Everything unknown, no devices listed.
    pub fn new() -> (r: Self)
        ensures
            r.extras_state is Unknown,
            r.notifications_state is Unknown,
            r.mumblelink_state is Unknown,
            r.tts_state is Unknown,
            r.audio_devices@.len() == 0,
            !r.refreshing_audio_devices,
    {
        UiState {
            extras_state: ExtrasState::Unknown,
            notifications_state: NotificationsState::Unknown,
            mumblelink_state: MumbleLinkState::Unknown,
            tts_state: TtsState::Unknown,
            audio_devices: Vec::new(),
            refreshing_audio_devices: false,
        }
    }
}

} // verus!
