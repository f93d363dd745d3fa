//! Message ping notifications: the settings, the loaded ping track, and the
//! decision whether an incoming message should ping. Loading sound files and
//! playing them is I/O and belongs to the deployment.

pub mod audio;
pub mod events;
pub mod settings;

use vstd::prelude::*;

use self::audio::AudioTrack;
use self::settings::NotificationsSettings;

verus! {

/// The notification component: its settings and the ping sound.
#[derive(Debug)]
pub struct Notifications {
    pub settings: NotificationsSettings,
    pub ping_track: AudioTrack,
}

impl Notifications {
    /// Default settings and an empty ping track.
    pub fn new() -> (r: Self)
        ensures
            r.settings.ping_volume == 100,
            !r.settings.ping_on_all_new_messages,
            !r.settings.ping_on_self_message,
            r.settings.ping_in_combat,
            r.settings.ping_out_of_combat,
            r.ping_track.data is None,
    {
        Notifications { settings: NotificationsSettings::new(), ping_track: AudioTrack::new() }
    }

    /// Whether an incoming message should ping, given who sent it and
    /// whether the player is in combat (`None` when that is unknown): own
    /// messages and all messages are gated by the settings, and an unknown
    /// combat state never pings.
    pub fn should_ping(
        &self,
        message_account: &str,
        self_account: &str,
        in_combat: Option<bool>,
    ) -> (r: bool)
        ensures
            r == ({
                if !self.settings.ping_on_self_message && message_account@ == self_account@ {
                    false
                } else if !self.settings.ping_on_all_new_messages {
                    false
                } else {
                    match in_combat {
                        None => false,
                        Some(true) => self.settings.ping_in_combat,
                        Some(false) => self.settings.ping_out_of_combat,
                    }
                }
            }),
    {
        let msg: String = message_account.to_owned();
        let own: String = self_account.to_owned();
        if !self.settings.ping_on_self_message && msg == own {
            return false;
        }
        if !self.settings.ping_on_all_new_messages {
            return false;
        }
        match in_combat {
            None => false,
            Some(true) => self.settings.ping_in_combat,
            Some(false) => self.settings.ping_out_of_combat,
        }
    }
}

} // verus!
