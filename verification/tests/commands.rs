use mc_app::commands::pack::{installed, played, UpdateSummary};
use mc_app::commands::{
    path, verdict, Error, LaunchOutcome, LaunchReport, OperationLock, DEVICE_CODE_EVENT,
};
use mc_app::phase::Phase;

#[test]
fn the_error_keeps_its_whole_chain() {
    let error = Error::from_chain(&vec![
        "Microsoft sign-in".to_string(),
        "the code has expired".to_string(),
    ]);

    assert_eq!(error, Error("Microsoft sign-in : the code has expired".to_string()));
}

#[test]
fn an_error_without_context_stays_its_message() {
    let error = Error::from_chain(&vec!["keyring locked".to_string()]);

    assert_eq!(error, Error("keyring locked".to_string()));
}

#[test]
fn the_path_is_complete_and_ordered() {
    let path = path();

    assert_eq!(path.len(), Phase::ALL.len());
    let ranks: Vec<usize> = path.iter().map(|step| step.rank).collect();
    assert_eq!(ranks, (0..Phase::ALL.len()).collect::<Vec<_>>());
    assert!(path.iter().all(|step| !step.label.is_empty()));
    assert_eq!(path[0].phase, Phase::SignIn);
    assert_eq!(path[0].label, "Microsoft account");
}

#[test]
fn closing_the_game_is_not_a_crash() {
    let report = LaunchReport {
        outcome: LaunchOutcome::Normal,
        errors: Vec::new(),
    };
    assert_eq!(verdict(&report), "Session ended.");

    let interrupted = LaunchReport {
        outcome: LaunchOutcome::Interrupted { signal: 15 },
        errors: Vec::new(),
    };
    assert_eq!(verdict(&interrupted), "Game closed.");
}

#[test]
fn a_crash_is_named_with_its_code() {
    let report = LaunchReport {
        outcome: LaunchOutcome::Failed { code: 1 },
        errors: Vec::new(),
    };

    let said = verdict(&report);
    assert!(said.contains("error"), "{said}");
    assert!(said.contains('1'), "{said}");
}

#[test]
fn a_crash_names_its_first_exception_and_a_negative_code() {
    let report = LaunchReport {
        outcome: LaunchOutcome::Failed { code: -1073741819 },
        errors: vec![
            "java.lang.OutOfMemoryError".to_string(),
            "java.lang.IllegalStateException".to_string(),
        ],
    };

    assert_eq!(
        verdict(&report),
        "The game stopped on an error (code -1073741819) — java.lang.OutOfMemoryError"
    );
}

#[test]
fn commands_test_the_event_name_does_not_move() {
    assert_eq!(DEVICE_CODE_EVENT, "auth://code");
}

#[test]
fn a_second_operation_is_refused_until_the_first_gives_the_lock_back() {
    let mut lock = OperationLock::new();
    assert!(lock.reserve().is_ok());
    assert_eq!(
        lock.reserve(),
        Err(Error("an operation is already in progress".to_string()))
    );
    lock.release();
    assert!(!lock.busy());
    assert!(lock.reserve().is_ok());
}

fn summary(installation: Option<Vec<String>>) -> UpdateSummary {
    UpdateSummary {
        installation,
        missing: vec!["journeymap".to_string()],
        drifts: Vec::new(),
        offline: false,
    }
}

#[test]
fn installing_says_whether_anything_was_placed() {
    let placed = installed(summary(Some(vec!["old.jar".to_string()])));
    assert_eq!(placed.verdict, "The pack is installed.");
    assert!(placed.caught_up);
    assert_eq!(placed.purge, vec!["old.jar".to_string()]);
    assert_eq!(placed.missing, vec!["journeymap".to_string()]);

    let nothing = installed(summary(None));
    assert_eq!(nothing.verdict, "The pack was already up to date: nothing to place.");
    assert!(!nothing.caught_up);
    assert!(nothing.purge.is_empty());
}

#[test]
fn playing_reports_the_session_s_own_verdict() {
    let crashed = LaunchReport {
        outcome: LaunchOutcome::Failed { code: 2 },
        errors: Vec::new(),
    };
    assert_eq!(
        played(summary(None), &Some(crashed)).verdict,
        "The game stopped on an error (code 2)"
    );
    assert_eq!(played(summary(None), &None).verdict, "Session ended.");
}
