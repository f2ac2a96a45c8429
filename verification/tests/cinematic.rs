use mc_app::cinematic::{
    report_game_session_started, report_note, report_step, resolution_for, CADENCE_MS,
    EVENT_PROGRESS,
};
use mc_app::cinematique::EVENEMENT_AVANCEMENT;
use mc_app::game_session::{running_pid, GameSession};
use mc_app::phase::{Phase, Step};
use mc_app::tracker::{DownloadProgress, Tracker};

#[test]
fn an_mc_pack_step_becomes_the_matching_phase() {
    let mut tracker = Tracker::default();

    report_step(&mut tracker, Step::Mods);

    assert_eq!(tracker.snapshot(0, None).phase, Phase::Mods);
}

#[test]
fn a_note_is_stripped_of_its_terminal_indentation() {
    let mut tracker = Tracker::default();

    report_note(&mut tracker, "  128 mods, 43 of them added by resolution");

    assert_eq!(
        tracker.snapshot(0, None).note.as_deref(),
        Some("128 mods, 43 of them added by resolution")
    );
}

#[test]
fn downloads_feed_the_same_counter() {
    let mut tracker = Tracker::default();

    tracker.download(DownloadProgress::Batch {
        files: 4,
        bytes: 8_000,
    });
    tracker.download(DownloadProgress::Received(2_000));

    let snapshot = tracker.snapshot(0, None);
    assert_eq!(snapshot.bytes, 2_000);
    assert_eq!(snapshot.total, 8_000);
}

#[test]
fn the_cadence_stays_readable_without_drowning_the_bridge() {
    assert!(CADENCE_MS >= 100, "{CADENCE_MS:?}");
    assert!(CADENCE_MS <= 500, "{CADENCE_MS:?}");
}

#[test]
fn cinematic_test_the_event_name_does_not_move() {
    assert_eq!(EVENT_PROGRESS, "cinematic://progress");
}

#[test]
fn the_event_name_does_not_move() {
    // The interface listens for this exact string.
    assert_eq!(EVENT_PROGRESS, "cinematic://progress");
}

#[test]
fn the_french_event_name_does_not_move() {
    assert_eq!(EVENEMENT_AVANCEMENT, "cinematique://avancement");
}

#[test]
fn the_game_running_moves_the_path_to_the_launch() {
    let mut tracker = Tracker::default();
    let mut session = GameSession::new();

    report_game_session_started(&mut tracker, &mut session, 4242);

    assert_eq!(running_pid(&session), Some(4242));
    let snapshot = tracker.snapshot(0, None);
    assert_eq!(snapshot.phase, Phase::Launch);
    assert!(!snapshot.done);
}

#[test]
fn only_a_windowed_game_is_given_a_size() {
    assert_eq!(resolution_for(true, 1280, 720), Some((1280, 720)));
    assert_eq!(resolution_for(false, 1280, 720), None);
}
