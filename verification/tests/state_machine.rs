use voice_notify::command::handle_message;
use voice_notify::command::is_trigger;
use voice_notify::session::SessionState;
use voice_notify::voice::Announcement;
use voice_notify::voice::VoiceObservation;
use voice_notify::voice::handle_voice_event;
use voice_notify::voice::run_voice_events;

fn obs(voice_channel: u64, occupancy: usize) -> Option<VoiceObservation> {
    Some(VoiceObservation {
        voice_channel,
        occupancy,
    })
}

fn occupancies(channel: u64, counts: &[usize]) -> Vec<Option<VoiceObservation>> {
    counts.iter().map(|&c| obs(channel, c)).collect()
}

#[test]
fn unarmed_session_ignores_occupancy() {
    let mut state = SessionState::new();
    let events = occupancies(42, &[3, 5, 0]);
    let anns = run_voice_events(&mut state, &events);
    assert_eq!(anns.len(), 0);
    assert!(!state.voice_active);
    assert_eq!(state.announce_channel, None);
}

#[test]
fn armed_session_announces_on_empty_to_occupied_step() {
    let mut state = SessionState::new();
    state.set_announce_channel(9);
    let events = occupancies(42, &[0, 1, 2, 0]);
    let anns = run_voice_events(&mut state, &events);
    assert_eq!(
        anns,
        vec![Announcement {
            text_channel: 9,
            voice_channel: 42,
        }]
    );
    assert!(!state.voice_active);

    // Step by step, the one announcement comes exactly on the 0 -> 1 step.
    let mut replay = SessionState::new();
    replay.set_announce_channel(9);
    let per_step: Vec<bool> = [0, 1, 2, 0]
        .iter()
        .map(|&c| handle_voice_event(&mut replay, obs(42, c)).is_some())
        .collect();
    assert_eq!(per_step, vec![false, true, false, false]);
}

#[test]
fn armed_session_announces_once_without_intervening_zero() {
    let mut state = SessionState::new();
    state.set_announce_channel(9);
    let mut announced: Vec<Announcement> = Vec::new();
    for count in [1, 2, 3] {
        announced.extend(handle_voice_event(&mut state, obs(42, count)));
    }
    assert_eq!(
        announced,
        vec![Announcement {
            text_channel: 9,
            voice_channel: 42,
        }]
    );
    assert!(state.voice_active);
}

#[test]
fn one_announcement_per_occupied_run() {
    let mut state = SessionState::new();
    state.set_announce_channel(9);
    let events = occupancies(42, &[1, 0, 2, 0, 3]);
    let anns = run_voice_events(&mut state, &events);
    assert_eq!(anns.len(), 3);
    assert!(state.voice_active);
}

#[test]
fn repeated_joins_while_active_add_nothing() {
    let mut state = SessionState::new();
    state.set_announce_channel(9);
    let first = handle_voice_event(&mut state, obs(42, 1));
    assert!(first.is_some());
    let repeats = occupancies(42, &[2, 5, 7, 1]);
    let anns = run_voice_events(&mut state, &repeats);
    assert_eq!(anns.len(), 0);
    assert!(state.voice_active);
    assert_eq!(state.announce_channel, Some(9));
}

#[test]
fn voice_events_before_arming_leave_state_untouched() {
    let mut state = SessionState::new();
    for lookup in [obs(42, 4), None, obs(7, 1), obs(7, 0)] {
        let ann = handle_voice_event(&mut state, lookup);
        assert!(ann.is_none());
        assert!(!state.voice_active);
        assert_eq!(state.announce_channel, None);
    }
}

#[test]
fn near_miss_command_changes_nothing() {
    let mut state = SessionState::new();
    assert!(!is_trigger("~voice_notify2"));
    let reply = handle_message(&mut state, "~voice_notify2", 9);
    assert!(!reply);
    assert!(!state.voice_active);
    assert_eq!(state.announce_channel, None);
}

#[test]
fn trigger_command_arms_and_replies() {
    let mut state = SessionState::new();
    assert!(is_trigger("~voice_notify"));
    let reply = handle_message(&mut state, "~voice_notify", 9);
    assert!(reply);
    assert!(state.is_armed());
    assert_eq!(state.announce_channel, Some(9));
    assert!(!state.voice_active);
}

#[test]
fn failed_lookup_acts_as_zero_occupancy() {
    let mut with_failure = SessionState::new();
    with_failure.set_announce_channel(9);
    let mut with_zero = with_failure;

    let join = obs(42, 2);
    assert!(handle_voice_event(&mut with_failure, join).is_some());
    assert!(handle_voice_event(&mut with_zero, join).is_some());

    let on_failure = handle_voice_event(&mut with_failure, None);
    let on_zero = handle_voice_event(&mut with_zero, obs(42, 0));
    assert_eq!(on_failure, None);
    assert_eq!(on_zero, None);
    assert_eq!(with_failure.voice_active, with_zero.voice_active);
    assert!(!with_failure.voice_active);
}

#[test]
fn second_arming_redirects_announcements() {
    let mut state = SessionState::new();
    assert!(handle_message(&mut state, "~voice_notify", 1));
    assert!(handle_message(&mut state, "~voice_notify", 2));
    assert_eq!(state.announce_channel, Some(2));
    let ann = handle_voice_event(&mut state, obs(42, 1)).unwrap();
    assert_eq!(ann.text_channel, 2);
}
