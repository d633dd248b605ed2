use app_bootstrap::bootstrap::bootstrap;
use app_bootstrap::bootstrap::conclude;
use app_bootstrap::bootstrap::fatal_message;
use app_bootstrap::bootstrap::run_result;
use app_bootstrap::bootstrap::setup_result;
use app_bootstrap::bootstrap::should_attach_logging;
use app_bootstrap::bootstrap::BuildMode;
use app_bootstrap::bootstrap::Event;
use app_bootstrap::bootstrap::Outcome;
use app_bootstrap::level::emits;
use app_bootstrap::level::shell_log_filter;
use app_bootstrap::level::Level;
use app_bootstrap::level::LevelFilter;

/// The build-mode flag is always defined: every mode is one of the two.
#[test]
fn test_debug_assertions_flag() {
    let modes = [BuildMode::Debug, BuildMode::Release];
    for mode in modes {
        assert!(
            matches!(mode, BuildMode::Debug | BuildMode::Release),
            "debug_assertions flag should be defined"
        );
    }
}

/// The log level used in debug mode is Info.
#[test]
fn test_log_level_in_debug() {
    assert_eq!(
        log::LevelFilter::Info,
        log::LevelFilter::Info,
        "Log level should be set to Info"
    );
}

#[test]
fn shell_filter_is_info() {
    assert_eq!(shell_log_filter(), LevelFilter::Info);
}

#[test]
fn attach_exactly_in_debug() {
    assert!(should_attach_logging(BuildMode::Debug));
    assert!(!should_attach_logging(BuildMode::Release));
}

#[test]
fn info_filter_emits_info_and_above() {
    assert!(emits(LevelFilter::Info, Level::Error));
    assert!(emits(LevelFilter::Info, Level::Warn));
    assert!(emits(LevelFilter::Info, Level::Info));
    assert!(!emits(LevelFilter::Info, Level::Debug));
    assert!(!emits(LevelFilter::Info, Level::Trace));
    assert!(!emits(LevelFilter::Off, Level::Error));
}

#[test]
fn fatal_message_exact() {
    let m = fatal_message("window creation denied");
    assert_eq!(m, "error while running tauri application: window creation denied");
}

#[test]
fn setup_propagates_attach_outcome_in_debug() {
    assert_eq!(setup_result(BuildMode::Debug, Some(Ok(()))), Ok(()));
    assert_eq!(
        setup_result(BuildMode::Debug, Some(Err(String::from("sink unavailable")))),
        Err(String::from("sink unavailable"))
    );
}

#[test]
fn setup_succeeds_in_release_whatever_the_sink() {
    assert_eq!(setup_result(BuildMode::Release, None), Ok(()));
    assert_eq!(
        setup_result(BuildMode::Release, Some(Err(String::from("sink unavailable")))),
        Ok(())
    );
}

#[test]
fn setup_failure_takes_precedence_in_run() {
    assert_eq!(
        run_result(Err(String::from("a")), Err(String::from("b"))),
        Err(String::from("a"))
    );
    assert_eq!(run_result(Ok(()), Err(String::from("b"))), Err(String::from("b")));
    assert_eq!(run_result(Ok(()), Ok(())), Ok(()));
}

#[test]
fn conclude_applies_fatal_policy() {
    assert!(matches!(conclude(Ok(())), Outcome::Running));
    match conclude(Err(String::from("boom"))) {
        Outcome::Crashed(m) => {
            assert_eq!(m, "error while running tauri application: boom")
        }
        Outcome::Running => panic!("a failed run must abort the process"),
    }
}

/// Debug build, logging attaches successfully: setup succeeds, the run
/// loop proceeds, no crash message is printed.
#[test]
fn debug_attach_ok_runs() {
    let (outcome, trace) = bootstrap(BuildMode::Debug, Some(Ok(())), Ok(()));
    assert!(matches!(outcome, Outcome::Running));
    assert_eq!(
        trace,
        vec![
            Event::SetupStarted,
            Event::AttachAttempted(LevelFilter::Info),
            Event::SetupCompleted(true),
            Event::RunStarted,
        ]
    );
}

/// Debug build, logging attachment fails: setup fails with the same text
/// and the process aborts with a message containing it; the run loop never
/// starts.
#[test]
fn debug_attach_failure_aborts() {
    let (outcome, trace) =
        bootstrap(BuildMode::Debug, Some(Err(String::from("sink unavailable"))), Ok(()));
    match outcome {
        Outcome::Crashed(m) => {
            assert!(m.contains("sink unavailable"));
            assert_eq!(m, "error while running tauri application: sink unavailable");
        }
        Outcome::Running => panic!("a failed setup must abort the process"),
    }
    assert_eq!(
        trace,
        vec![
            Event::SetupStarted,
            Event::AttachAttempted(LevelFilter::Info),
            Event::SetupCompleted(false),
        ]
    );
}

/// Release build: no attachment attempt occurs and the run proceeds
/// normally regardless of any logging-sink state.
#[test]
fn release_runs_regardless_of_sink() {
    let (outcome, trace) = bootstrap(BuildMode::Release, None, Ok(()));
    assert!(matches!(outcome, Outcome::Running));
    assert!(!trace.iter().any(|e| matches!(e, Event::AttachAttempted(_))));
    let (outcome2, trace2) =
        bootstrap(BuildMode::Release, Some(Err(String::from("sink unavailable"))), Ok(()));
    assert!(matches!(outcome2, Outcome::Running));
    assert!(!trace2.iter().any(|e| matches!(e, Event::AttachAttempted(_))));
}

/// Any build: the run call itself fails and the process aborts with the
/// fatal message carrying the error text.
#[test]
fn run_failure_aborts_with_message() {
    for (mode, attach) in [
        (BuildMode::Release, None),
        (BuildMode::Debug, Some(Ok(()))),
    ] {
        let (outcome, _) =
            bootstrap(mode, attach, Err(String::from("window creation denied")));
        match outcome {
            Outcome::Crashed(m) => assert_eq!(
                m,
                "error while running tauri application: window creation denied"
            ),
            Outcome::Running => panic!("a failed run must abort the process"),
        }
    }
}

/// A setup failure and a run failure with the same error text are
/// indistinguishable in the process's terminal observation.
#[test]
fn setup_and_run_failures_look_alike() {
    let (from_setup, _) =
        bootstrap(BuildMode::Debug, Some(Err(String::from("denied"))), Ok(()));
    let (from_run, _) =
        bootstrap(BuildMode::Debug, Some(Ok(())), Err(String::from("denied")));
    let m1 = match from_setup {
        Outcome::Crashed(m) => m,
        Outcome::Running => panic!("a failed setup must abort the process"),
    };
    let m2 = match from_run {
        Outcome::Crashed(m) => m,
        Outcome::Running => panic!("a failed run must abort the process"),
    };
    assert_eq!(m1, m2);
}

/// Setup completes, successfully or not, strictly before the run loop
/// starts.
#[test]
fn setup_completes_before_run() {
    for (mode, attach) in [
        (BuildMode::Release, None),
        (BuildMode::Debug, Some(Ok(()))),
        (BuildMode::Debug, Some(Err(String::from("sink unavailable")))),
    ] {
        let (_, trace) = bootstrap(mode, attach, Ok(()));
        let completed = trace
            .iter()
            .position(|e| matches!(e, Event::SetupCompleted(_)))
            .expect("setup must complete");
        if let Some(started) = trace.iter().position(|e| matches!(e, Event::RunStarted)) {
            assert!(completed < started);
        }
    }
}
