use mc_app::phase::Phase;
use mc_app::tracker::{in_progress, DownloadProgress, Fetched, Progress, Tracker};

fn tracker() -> Tracker {
    Tracker::default()
}

fn snapshot(tracker: &Tracker) -> Progress {
    tracker.snapshot(0, None)
}

#[test]
fn received_bytes_add_up() {
    let mut tracker = tracker();
    tracker.download(DownloadProgress::Received(1_000));
    tracker.download(DownloadProgress::Received(2_500));

    assert_eq!(snapshot(&tracker).bytes, 3_500);
}

#[test]
fn a_retry_does_not_overflow_the_bar() {
    let mut tracker = tracker();
    tracker.download(DownloadProgress::Received(800));
    tracker.download(DownloadProgress::Lost(800));
    tracker.download(DownloadProgress::Received(1_000));

    assert_eq!(snapshot(&tracker).bytes, 1_000);
}

#[test]
fn subtracting_more_than_counted_does_not_wrap_around_zero() {
    let mut tracker = tracker();
    tracker.download(DownloadProgress::Received(100));
    tracker.download(DownloadProgress::Lost(5_000));

    assert_eq!(snapshot(&tracker).bytes, 0);
}

#[test]
fn a_file_already_present_moves_the_bar_without_downloading_anything() {
    let mut tracker = tracker();
    tracker.download(DownloadProgress::Finished {
        file: "jei.jar".to_string(),
        state: Fetched::AlreadyPresent,
        bytes: 4_000,
    });

    let snapshot = snapshot(&tracker);
    assert_eq!(snapshot.bytes, 4_000);
    assert_eq!(snapshot.files, 1);
}

#[test]
fn a_downloaded_file_is_not_counted_twice() {
    let mut tracker = tracker();
    tracker.download(DownloadProgress::Received(4_000));
    tracker.download(DownloadProgress::Finished {
        file: "jei.jar".to_string(),
        state: Fetched::Downloaded,
        bytes: 4_000,
    });

    let snapshot = snapshot(&tracker);
    assert_eq!(snapshot.bytes, 4_000);
    assert_eq!(snapshot.files, 1);
}

#[test]
fn a_new_batch_starts_over_from_zero() {
    let mut tracker = tracker();
    tracker.download(DownloadProgress::Batch {
        files: 10,
        bytes: 1_000,
    });
    tracker.download(DownloadProgress::Received(1_000));
    tracker.download(DownloadProgress::Batch {
        files: 2_500,
        bytes: 830_000_000,
    });

    let snapshot = snapshot(&tracker);
    assert_eq!(snapshot.bytes, 0);
    assert_eq!(snapshot.total, 830_000_000);
    assert_eq!(snapshot.files, 0);
    assert_eq!(snapshot.files_total, 2_500);
}

#[test]
fn the_current_file_is_the_one_that_just_started() {
    let mut tracker = tracker();
    tracker.download(DownloadProgress::Started {
        file: "lwjgl.jar".to_string(),
        bytes: Some(900),
    });
    tracker.download(DownloadProgress::Started {
        file: "jei-1.21.1.jar".to_string(),
        bytes: None,
    });

    assert_eq!(snapshot(&tracker).file.as_deref(), Some("jei-1.21.1.jar"));
}

#[test]
fn phase_and_note_pass_through_unchanged() {
    let mut tracker = tracker();
    tracker.phase(Phase::Mods);
    tracker.note("128 mods, 43 of them added by resolution");

    let snapshot = snapshot(&tracker);
    assert_eq!(snapshot.phase, Phase::Mods);
    assert_eq!(
        snapshot.note.as_deref(),
        Some("128 mods, 43 of them added by resolution")
    );
}

#[test]
fn a_complete_batch_no_longer_counts_as_a_download_in_progress() {
    let mut tracker = tracker();
    tracker.download(DownloadProgress::Batch { files: 2, bytes: 200 });
    assert!(snapshot(&tracker).active, "the batch just started");

    for _ in 0..2 {
        tracker.download(DownloadProgress::Finished {
            file: "jei.jar".to_string(),
            state: Fetched::Downloaded,
            bytes: 100,
        });
    }

    assert!(!snapshot(&tracker).active, "all files are settled");
}

#[test]
fn without_an_announced_batch_nothing_is_in_progress() {
    assert!(!in_progress(0, 0));
    assert!(in_progress(0, 10));
    assert!(!in_progress(10, 10));
    assert!(!in_progress(11, 10));
}

#[test]
fn a_done_phase_is_distinct_from_a_phase_still_working() {
    let mut tracker = tracker();

    tracker.phase(Phase::Mods);
    assert!(!snapshot(&tracker).done);

    tracker.finish(Phase::Ready);
    let snapshot = snapshot(&tracker);
    assert_eq!(snapshot.phase, Phase::Ready);
    assert!(snapshot.done);
}

#[test]
fn finishing_clears_the_batch_and_the_current_file() {
    let mut tracker = tracker();
    tracker.download(DownloadProgress::Batch { files: 3, bytes: 300 });
    tracker.download(DownloadProgress::Started {
        file: "jei.jar".to_string(),
        bytes: Some(100),
    });
    tracker.download(DownloadProgress::Received(300));

    tracker.finish(Phase::Ready);

    let snapshot = snapshot(&tracker);
    assert_eq!(snapshot.total, 0);
    assert_eq!(snapshot.bytes, 0);
    assert_eq!(snapshot.files_total, 0);
    assert_eq!(snapshot.file, None);
    assert!(!snapshot.active);
}

#[test]
fn resuming_a_phase_cancels_the_done_state() {
    let mut tracker = tracker();
    tracker.finish(Phase::Ready);

    tracker.phase(Phase::Minecraft);

    assert!(!snapshot(&tracker).done);
}

#[test]
fn resolution_advances_through_the_request_count() {
    let mut tracker = Tracker::default();

    tracker.resolution(12, 51);
    let seen = snapshot(&tracker);

    assert_eq!((seen.files, seen.files_total), (12, 51));
    assert!(seen.active, "there are still requests to settle");
    assert_eq!(seen.total, 0);
}

#[test]
fn the_download_batch_takes_back_control_from_resolution() {
    let mut tracker = Tracker::default();
    tracker.resolution(51, 51);

    tracker.download(DownloadProgress::Batch {
        files: 8,
        bytes: 840_000,
    });
    let seen = snapshot(&tracker);

    assert_eq!((seen.files, seen.files_total), (0, 8));
    assert_eq!(seen.total, 840_000);
}

#[test]
fn the_rate_and_the_remaining_time_pass_through_the_snapshot() {
    let tracker = Tracker::new();
    let seen = tracker.snapshot(8_400_000, Some(63));
    assert_eq!(seen.rate, 8_400_000);
    assert_eq!(seen.remaining, Some(63));
    assert_eq!(seen.phase, Phase::SignIn);
    assert_eq!(tracker.acquired(), Some(0));
}
