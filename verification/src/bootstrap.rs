//! The application bootstrapper's decision logic.
//!
//! The host binary constructs the framework's application builder, runs its
//! blocking event loop and performs the logging attachment; every decision
//! along the way, and the shape of the terminal observation, is made here:
//! whether to attach logging, what the setup callback returns, how a setup
//! failure surfaces through the run call, and the exact message the process
//! prints when it aborts.

use vstd::prelude::*;
use vstd::string::StringExecFns;

use crate::level::LevelFilter;
use crate::level::shell_log_filter;

verus! {

/// Whether the binary was compiled with debug assertions enabled. Resolved
/// by the build toolchain before the program starts and handed in by the
/// host; read-only afterwards.
#[derive(Clone, Copy, PartialEq, Eq, Structural, Debug)]
pub enum BuildMode {
    Debug,
    Release,
}

/// An observable step of the bootstrap, in the order it happens.
#[derive(Clone, Copy, PartialEq, Eq, Structural, Debug)]
pub enum Event {
    /// The setup callback was entered.
    SetupStarted,
    /// An attachment of the logging capability was attempted, configured
    /// with the given verbosity threshold.
    AttachAttempted(LevelFilter),
    /// The setup callback returned, successfully or not.
    SetupCompleted(bool),
    /// The framework's main run loop began.
    RunStarted,
}

/// The terminal state of the bootstrap: either the application is running
/// (the run call blocks for the process's lifetime), or the process aborts
/// printing a fatal message.
pub enum Outcome {
    Running,
    Crashed(String),
}

/// The error text a `Result` carries, if any.
pub open spec fn err_view(r: Result<(), String>) -> Option<Seq<char>> {
    match r {
        Ok(_) => None,
        Err(e) => Some(e@),
    }
}

/// What the setup callback returns: in a release build, success, whatever
/// state the logging sink is in; in a debug build, the attachment's own
/// outcome, propagated unchanged.
pub open spec fn spec_setup_err(mode: BuildMode, attach: Option<Result<(), String>>) -> Option<
    Seq<char>,
> {
    match mode {
        BuildMode::Release => None,
        BuildMode::Debug => match attach {
            Some(r) => err_view(r),
            None => None,
        },
    }
}

/// What the framework's run call returns: a setup failure surfaces as the
/// run call's own failure; otherwise the framework's result stands.
pub open spec fn spec_run_err(
    mode: BuildMode,
    attach: Option<Result<(), String>>,
    framework: Result<(), String>,
) -> Option<Seq<char>> {
    match spec_setup_err(mode, attach) {
        Some(e) => Some(e),
        None => err_view(framework),
    }
}

/// The fixed prefix of the fatal message printed when the run call fails.
pub open spec fn fatal_prefix() -> Seq<char> {
    "error while running tauri application: "@
}

/// The process's terminal observation for a run error, if any: `None`
/// means the application keeps running; `Some(m)` means the process aborts
/// printing `m`.
pub open spec fn spec_fatal(run_err: Option<Seq<char>>) -> Option<Seq<char>> {
    match run_err {
        None => None,
        Some(e) => Some(fatal_prefix() + e),
    }
}

/// The fatal message an outcome carries, if any.
pub open spec fn outcome_view(o: Outcome) -> Option<Seq<char>> {
    match o {
        Outcome::Running => None,
        Outcome::Crashed(m) => Some(m@),
    }
}

/// Whether the setup path attaches the logging capability: exactly in a
/// debug build.
pub fn should_attach_logging(mode: BuildMode) -> (r: bool)
    ensures
        r == (mode is Debug),
{
    match mode {
        BuildMode::Debug => true,
        BuildMode::Release => false,
    }
}

/// The setup callback's result. `attach` is the outcome of the logging
/// attachment where one was attempted; a debug build always attempts one.
pub fn setup_result(mode: BuildMode, attach: Option<Result<(), String>>) -> (r: Result<
    (),
    String,
>)
    requires
        mode is Debug ==> attach is Some,
    ensures
        err_view(r) == spec_setup_err(mode, attach),
{
    match mode {
        BuildMode::Release => Ok(()),
        BuildMode::Debug => match attach {
            Some(res) => res,
            None => Ok(()),
        },
    }
}

/// The run call's result, given the setup callback's result and what the
/// framework's own startup returned: a setup failure is propagated, not
/// retried, and takes precedence.
pub fn run_result(setup: Result<(), String>, framework: Result<(), String>) -> (r: Result<
    (),
    String,
>)
    ensures
        err_view(setup) is Some ==> err_view(r) == err_view(setup),
        err_view(setup) is None ==> err_view(r) == err_view(framework),
{
    match setup {
        Err(e) => Err(e),
        Ok(_) => framework,
    }
}

/// The message printed when the run call fails: the fixed prefix followed
/// by the error's own description.
pub fn fatal_message(err: &str) -> (r: String)
    ensures
        r@ == fatal_prefix() + err@,
{
    let mut m: String = "error while running tauri application: ".to_owned();
    m.append(err);
    m
}

/// Applies the crash-on-startup-failure policy to the run call's result:
/// success keeps the application running; any failure is terminal and
/// carries the fatal message.
pub fn conclude(run: Result<(), String>) -> (r: Outcome)
    ensures
        outcome_view(r) == spec_fatal(err_view(run)),
{
    match run {
        Ok(_) => Outcome::Running,
        Err(e) => Outcome::Crashed(fatal_message(e.as_str())),
    }
}

/// The sequence of observable steps the bootstrap takes: setup is entered;
/// a debug build attempts the logging attachment at the informational
/// threshold; setup completes, successfully or not; and the run loop
/// starts only when setup succeeded.
pub open spec fn spec_trace(mode: BuildMode, attach: Option<Result<(), String>>) -> Seq<Event> {
    let attempted = if mode is Debug {
        seq![Event::SetupStarted, Event::AttachAttempted(LevelFilter::Info)]
    } else {
        seq![Event::SetupStarted]
    };
    let completed = attempted + seq![Event::SetupCompleted(spec_setup_err(mode, attach) is None)];
    if spec_setup_err(mode, attach) is None {
        completed + seq![Event::RunStarted]
    } else {
        completed
    }
}

/// The whole bootstrap decision sequence, run on the outcomes the host
/// observed: `attach` is the logging attachment's result where one was
/// attempted, `framework` what the framework's own startup returned once
/// setup succeeded. Returns the process's terminal observation and the
/// trace of steps taken on the way there.
pub fn bootstrap(
    mode: BuildMode,
    attach: Option<Result<(), String>>,
    framework: Result<(), String>,
) -> (r: (Outcome, Vec<Event>))
    requires
        mode is Debug ==> attach is Some,
    ensures
        outcome_view(r.0) == spec_fatal(spec_run_err(mode, attach, framework)),
        r.1@ == spec_trace(mode, attach),
{
    let mut trace: Vec<Event> = Vec::new();
    trace.push(Event::SetupStarted);
    if should_attach_logging(mode) {
        trace.push(Event::AttachAttempted(shell_log_filter()));
    }
    let setup = setup_result(mode, attach);
    let setup_ok = setup.is_ok();
    trace.push(Event::SetupCompleted(setup_ok));
    if setup_ok {
        trace.push(Event::RunStarted);
    }
    let run = run_result(setup, framework);
    let outcome = conclude(run);
    proof {
        assert(trace@ =~= spec_trace(mode, attach));
    }
    (outcome, trace)
}

} // verus!
