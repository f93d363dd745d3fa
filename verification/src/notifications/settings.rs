//! Settings for message ping notifications.

use vstd::prelude::*;

verus! {

/// When and how loudly to ping on incoming messages.
#[derive(Clone, Debug)]
pub struct NotificationsSettings {
    pub ping_volume: i32,
    pub ping_sound_path: String,
    pub ping_on_all_new_messages: bool,
    pub ping_on_self_message: bool,
    pub ping_in_combat: bool,
    pub ping_out_of_combat: bool,
}

impl NotificationsSettings {
    /// The defaults: full volume, the built-in sound, pings off until
    /// switched on, and no pings for one's own messages.
    pub fn new() -> (r: Self)
        ensures
            r.ping_volume == 100,
            r.ping_sound_path@.len() == 0,
            !r.ping_on_all_new_messages,
            !r.ping_on_self_message,
            r.ping_in_combat,
            r.ping_out_of_combat,
    {
        NotificationsSettings {
            ping_volume: 100,
            ping_sound_path: String::new(),
            ping_on_all_new_messages: false,
            ping_on_self_message: false,
            ping_in_combat: true,
            ping_out_of_combat: true,
        }
    }
}

/// A field-for-field copy of the settings.
pub fn copy_settings(s: &NotificationsSettings) -> (r: NotificationsSettings)
    ensures
        r == *s,
{
    NotificationsSettings {
        ping_volume: s.ping_volume,
        ping_sound_path: s.ping_sound_path.clone(),
        ping_on_all_new_messages: s.ping_on_all_new_messages,
        ping_on_self_message: s.ping_on_self_message,
        ping_in_combat: s.ping_in_combat,
        ping_out_of_combat: s.ping_out_of_combat,
    }
}

} // verus!
