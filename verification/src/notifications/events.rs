//! The ping decision for a single incoming message.

use vstd::prelude::*;

use super::settings::NotificationsSettings;

verus! {

/// Decides pings from the settings alone.
pub struct NotificationEvents {
    pub settings: NotificationsSettings,
}

impl NotificationEvents {
    /// A decision maker over the given settings.
    pub fn new(settings: NotificationsSettings) -> (r: Self)
        ensures
            r.settings == settings,
    {
        NotificationEvents { settings }
    }

    /// Whether a message should raise a notification at all: one's own
    /// messages are dropped unless self-pings are on.
    pub fn process_message(&self, message_account: &str, self_account: &str) -> (r: bool)
        ensures
            r == (self.settings.ping_on_self_message || message_account@ != self_account@),
    {
        let msg: String = message_account.to_owned();
        let own: String = self_account.to_owned();
        if !self.settings.ping_on_self_message && msg == own {
            return false;
        }
        true
    }
}

} // verus!
