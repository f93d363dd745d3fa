//! Unit tests for the view-state and notification components.

use chatlog_store::audio::player::{AudioPlayer, AudioSignal};
use chatlog_store::db::query::{
    channel_label, ChannelKind, SearchResults, SearchState,
};
use chatlog_store::logui::buffer::{line_type_allowed, LogType};
use chatlog_store::logui::settings::FilterSettings;
use chatlog_store::logui::{channel_filter_for_index, SearchUiState};
use chatlog_store::notifications::audio::{AudioTrack, SoundData};
use chatlog_store::notifications::events::NotificationEvents;
use chatlog_store::notifications::settings::NotificationsSettings;
use chatlog_store::notifications::Notifications;
use chatlog_store::plugin::state::{
    ExtrasState, MumbleLinkState, NotificationsState, TtsState, UiState,
};

#[test]
fn channel_labels() {
    assert_eq!(channel_label(ChannelKind::Party), "Party");
    assert_eq!(channel_label(ChannelKind::Squad), "Squad");
    assert_eq!(channel_label(ChannelKind::Reserved), "Reserved");
    assert_eq!(channel_label(ChannelKind::Invalid), "Invalid");
}

#[test]
fn channel_dropdown_indices() {
    assert_eq!(channel_filter_for_index(0), None);
    assert_eq!(channel_filter_for_index(1), Some(String::from("Squad")));
    assert_eq!(channel_filter_for_index(2), Some(String::from("Party")));
    assert_eq!(channel_filter_for_index(7), None);
}

#[test]
fn search_ui_state_lifecycle() {
    let mut s = SearchUiState::new();
    assert_eq!(s.search_id_counter, 0);
    assert!(!s.window_open);
    assert_eq!(s.next_search_id(), 1);
    assert_eq!(s.next_search_id(), 2);
    s.has_more = true;
    s.current_offset = 40;
    s.error_message = Some(String::from("old error"));
    s.clear_for_new_search();
    assert!(!s.has_more);
    assert_eq!(s.current_offset, 0);
    assert_eq!(s.error_message, None);
    assert_eq!(s.search_id_counter, 2);
}

#[test]
fn begin_search_builds_the_query() {
    let mut s = SearchUiState::new();
    s.search_text = String::from("dragon");
    s.account_filter = String::from("alice");
    s.channel_type_index = 1;
    let q = s.begin_search(false, 25);
    assert_eq!(q.search_text, "dragon");
    assert_eq!(q.search_id, 1);
    assert_eq!(q.batch_size, 25);
    assert_eq!(q.offset, 0);
    assert_eq!(q.channel_type, Some(String::from("Squad")));
    assert_eq!(q.account_name, Some(String::from("alice")));
    assert_eq!(q.timestamp_min, None);
    assert_eq!(q.timestamp_max, None);
    assert!(s.is_searching);
    assert_eq!(s.cached_search_id, 1);
}

#[test]
fn load_more_advances_the_offset() {
    let mut s = SearchUiState::new();
    s.search_text = String::from("dragon");
    let _ = s.begin_search(false, 10);
    let q = s.load_more(10);
    assert_eq!(q.offset, 10);
    assert_eq!(q.search_id, 2);
    assert_eq!(s.current_offset, 10);
}

#[test]
fn polling_takes_only_the_awaited_results() {
    let mut s = SearchUiState::new();
    s.search_text = String::from("x");
    let _ = s.begin_search(false, 10);
    assert_eq!(s.cached_search_id, 1);

    // A result for another search changes nothing.
    let stale = SearchState::Results(SearchResults {
        search_id: 9,
        messages: Vec::new(),
        has_more: true,
        total_count: None,
        offset: 0,
    });
    s.poll_search_results(&stale);
    assert!(s.is_searching);
    assert!(!s.has_more);

    // The awaited result is taken.
    let current = SearchState::Results(SearchResults {
        search_id: 1,
        messages: Vec::new(),
        has_more: false,
        total_count: None,
        offset: 0,
    });
    s.poll_search_results(&current);
    assert!(!s.is_searching);

    // An error while searching is shown and stops the waiting.
    let _ = s.begin_search(false, 10);
    s.poll_search_results(&SearchState::Error(String::from("store broke")));
    assert_eq!(s.error_message, Some(String::from("store broke")));
    assert!(!s.is_searching);

    // A session taken over by someone else's search stops the waiting.
    let _ = s.begin_search(false, 10);
    s.poll_search_results(&SearchState::Searching(99));
    assert!(!s.is_searching);
}

#[test]
fn filter_settings_default_to_everything() {
    let f = FilterSettings::new();
    assert!(f.hover_char_name_for_account_name);
    assert!(f.squad_message && f.party_message && f.squad_updates && f.combat_updates && f.others);
}

#[test]
fn line_types_follow_their_switch() {
    let mut f = FilterSettings::new();
    f.squad_message = false;
    f.others = false;
    assert!(!line_type_allowed(LogType::SquadMessage, &f));
    assert!(!line_type_allowed(LogType::Generic, &f));
    assert!(line_type_allowed(LogType::PartyMessage, &f));
    assert!(line_type_allowed(LogType::SquadUpdate, &f));
    assert!(line_type_allowed(LogType::Combat, &f));
}

#[test]
fn notifications_defaults() {
    let s = NotificationsSettings::new();
    assert_eq!(s.ping_volume, 100);
    assert_eq!(s.ping_sound_path, "");
    assert!(!s.ping_on_all_new_messages);
    assert!(!s.ping_on_self_message);
    assert!(s.ping_in_combat);
    assert!(s.ping_out_of_combat);
    let n = Notifications::new();
    assert!(!n.ping_track.is_valid());
}

#[test]
fn ping_decision_table() {
    let mut n = Notifications::new();
    n.settings.ping_on_all_new_messages = true;
    // Own message, self-pings off.
    assert!(!n.should_ping("me.1", "me.1", Some(false)));
    // Unknown combat state never pings.
    assert!(!n.should_ping("other.2", "me.1", None));
    // Combat gates.
    assert!(n.should_ping("other.2", "me.1", Some(true)));
    assert!(n.should_ping("other.2", "me.1", Some(false)));
    n.settings.ping_in_combat = false;
    assert!(!n.should_ping("other.2", "me.1", Some(true)));
    n.settings.ping_out_of_combat = false;
    assert!(!n.should_ping("other.2", "me.1", Some(false)));
    // Master switch off.
    n.settings.ping_on_all_new_messages = false;
    assert!(!n.should_ping("other.2", "me.1", Some(true)));
    // Self-pings on let own messages through to the other gates.
    n.settings.ping_on_all_new_messages = true;
    n.settings.ping_on_self_message = true;
    n.settings.ping_in_combat = true;
    assert!(n.should_ping("me.1", "me.1", Some(true)));
}

#[test]
fn notification_events_drop_own_messages() {
    let mut settings = NotificationsSettings::new();
    settings.ping_on_self_message = false;
    let e = NotificationEvents::new(settings);
    assert!(!e.process_message("me.1", "me.1"));
    assert!(e.process_message("other.2", "me.1"));
}

#[test]
fn sound_data_keeps_its_bytes() {
    let d = SoundData::from_bytes(&[1, 2, 3, 250]);
    assert_eq!(d.0, vec![1, 2, 3, 250]);
    let t = AudioTrack::new();
    assert!(!t.is_valid());
    assert_eq!(t.status_message, "");
    let loaded = AudioTrack { data: Some(d), status_message: String::from("ok") };
    assert!(loaded.is_valid());
}

#[test]
fn ui_state_starts_unknown() {
    let u = UiState::new();
    assert!(matches!(u.extras_state, ExtrasState::Unknown));
    assert!(matches!(u.notifications_state, NotificationsState::Unknown));
    assert!(matches!(u.mumblelink_state, MumbleLinkState::Unknown));
    assert!(matches!(u.tts_state, TtsState::Unknown));
    assert!(u.audio_devices.is_empty());
    assert!(!u.refreshing_audio_devices);
}

#[test]
fn audio_player_queues_in_call_order() {
    let mut p = AudioPlayer::new();
    let track = AudioTrack { data: Some(SoundData::from_bytes(&[9, 9])), status_message: String::new() };
    p.play_track(&track);
    p.set_device(Some(String::from("Speakers")));
    p.release();
    // Drained in FIFO order.
    match p.next_signal() {
        Some(AudioSignal::PlayTrack(t)) => {
            assert!(t.is_valid());
            match t.data {
                Some(d) => assert_eq!(d.0, vec![9, 9]),
                None => panic!("track lost its data"),
            }
        }
        other => panic!("expected the track first, got {:?}", other),
    }
    assert!(matches!(p.next_signal(), Some(AudioSignal::SetDevice(Some(_)))));
    assert!(matches!(p.next_signal(), Some(AudioSignal::Terminate)));
    assert!(p.next_signal().is_none());
    // Further commands after release are dropped.
    p.play_track(&track);
    assert!(p.next_signal().is_none());
}
