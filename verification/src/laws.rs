//! The bootstrap's guarantees, stated and proved over the trace and the
//! terminal observation.

use vstd::prelude::*;

use crate::bootstrap::BuildMode;
use crate::bootstrap::Event;
use crate::bootstrap::fatal_prefix;
use crate::bootstrap::spec_fatal;
use crate::bootstrap::spec_run_err;
use crate::bootstrap::spec_setup_err;
use crate::bootstrap::spec_trace;
use crate::level::LevelFilter;

verus! {

/// In a debug build the setup path attempts the logging attachment, and at
/// the informational threshold only; in a release build no attachment
/// attempt occurs.
pub proof fn lemma_attach_iff_debug(mode: BuildMode, attach: Option<Result<(), String>>)
    ensures
        (mode is Debug) <==> spec_trace(mode, attach).contains(
            Event::AttachAttempted(LevelFilter::Info),
        ),
        forall|f: LevelFilter|
            spec_trace(mode, attach).contains(Event::AttachAttempted(f)) ==> f
                == LevelFilter::Info,
{
    let t = spec_trace(mode, attach);
    if mode is Debug {
        assert(t[1] == Event::AttachAttempted(LevelFilter::Info));
        assert(t.contains(Event::AttachAttempted(LevelFilter::Info)));
    }
    assert forall|f: LevelFilter|
        t.contains(Event::AttachAttempted(f)) implies f == LevelFilter::Info by {
        let i = choose|i: int| 0 <= i < t.len() && t[i] == Event::AttachAttempted(f);
        assert(t[0] == Event::SetupStarted);
        if mode is Debug {
            assert(t[1] == Event::AttachAttempted(LevelFilter::Info));
            if spec_setup_err(mode, attach) is None {
                assert(t[2] == Event::SetupCompleted(true));
                assert(t[3] == Event::RunStarted);
            } else {
                assert(t[2] == Event::SetupCompleted(false));
            }
        } else {
            assert(t[1] == Event::SetupCompleted(true));
            assert(t[2] == Event::RunStarted);
        }
    }
}

/// Setup always completes, successfully or not, strictly before the run
/// loop begins, and the run loop begins exactly when setup succeeded: no
/// interleaving is observable.
pub proof fn lemma_setup_completes_before_run(mode: BuildMode, attach: Option<Result<(), String>>)
    ensures
        forall|j: int|
            0 <= j < spec_trace(mode, attach).len() && spec_trace(mode, attach)[j] is RunStarted
                ==> exists|i: int| 0 <= i < j && spec_trace(mode, attach)[i] is SetupCompleted,
        spec_trace(mode, attach).contains(Event::RunStarted) <==> spec_setup_err(mode, attach)
            is None,
{
    let t = spec_trace(mode, attach);
    assert forall|j: int|
        0 <= j < t.len() && t[j] is RunStarted implies exists|i: int|
        0 <= i < j && t[i] is SetupCompleted by {
        assert(t[0] == Event::SetupStarted);
        if mode is Debug {
            assert(t[1] == Event::AttachAttempted(LevelFilter::Info));
            if spec_setup_err(mode, attach) is None {
                assert(t[2] == Event::SetupCompleted(true));
                assert(j == 3 && 0 <= 2 < j && t[2] is SetupCompleted);
            } else {
                assert(t[2] == Event::SetupCompleted(false));
            }
        } else {
            assert(t[1] == Event::SetupCompleted(true));
            assert(j == 2 && 0 <= 1 < j && t[1] is SetupCompleted);
        }
    }
    if spec_setup_err(mode, attach) is None {
        assert(t[t.len() - 1] == Event::RunStarted);
        assert(t.contains(Event::RunStarted));
    } else {
        assert(mode is Debug);
        if t.contains(Event::RunStarted) {
            let i = choose|i: int| 0 <= i < t.len() && t[i] == Event::RunStarted;
            assert(t[0] == Event::SetupStarted);
            assert(t[1] == Event::AttachAttempted(LevelFilter::Info));
            assert(t[2] == Event::SetupCompleted(false));
        }
    }
}

/// A logging-attachment failure during setup is indistinguishable, in the
/// process's terminal observation, from the run loop itself failing with
/// the same error text: both abort the process printing the same message,
/// the fatal prefix followed by that text.
pub proof fn lemma_failures_indistinguishable(
    e: String,
    mode: BuildMode,
    attach: Option<Result<(), String>>,
    framework: Result<(), String>,
)
    requires
        spec_setup_err(mode, attach) is None,
    ensures
        spec_fatal(spec_run_err(BuildMode::Debug, Some(Err(e)), framework)) == spec_fatal(
            spec_run_err(mode, attach, Err(e)),
        ),
        spec_fatal(spec_run_err(BuildMode::Debug, Some(Err(e)), framework)) == Some(
            fatal_prefix() + e@,
        ),
{
}

/// The fatal path is taken exactly when the run call fails: a successful
/// run keeps the application running, with no crash message, and blocks
/// for the application's lifetime.
pub proof fn lemma_fatal_iff_run_fails(
    mode: BuildMode,
    attach: Option<Result<(), String>>,
    framework: Result<(), String>,
)
    ensures
        spec_fatal(spec_run_err(mode, attach, framework)) is Some <==> spec_run_err(
            mode,
            attach,
            framework,
        ) is Some,
{
}

/// In a release build setup succeeds whatever state the logging sink is
/// in: no attachment is attempted, so its outcome cannot matter.
pub proof fn lemma_release_setup_succeeds(attach: Option<Result<(), String>>)
    ensures
        spec_setup_err(BuildMode::Release, attach) is None,
{
}

} // verus!
