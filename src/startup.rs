use vstd::prelude::*;

use crate::config::Mode;

verus! {

/// Why the process gives up before serving anyone.
#[derive(Clone, Copy, Debug, PartialEq, Eq, Structural)]
pub enum StartupError {
    /// The TLS identity could not be read or decoded.
    IdentityUnavailable,
    /// The listening address could not be bound (in use, or otherwise).
    BindFailed,
}

/// One step of bringing the server up.
#[derive(Clone, Copy, Debug, PartialEq, Eq, Structural)]
pub enum StartupStep {
    /// Load and validate the TLS identity (production only).
    LoadIdentity,
    /// Bind the listening socket.
    Bind,
    /// Serve: run the accept loop.
    Accept,
    /// Terminate the process with this diagnostic.
    Abort(StartupError),
}

pub open spec fn first_step_of(mode: Mode) -> StartupStep {
    match mode {
        Mode::Prod => StartupStep::LoadIdentity,
        Mode::Dev => StartupStep::Bind,
    }
}

/// The step after `step`, given whether it succeeded; serving and aborting
/// are final.
pub open spec fn step_after(step: StartupStep, succeeded: bool) -> StartupStep {
    match step {
        StartupStep::LoadIdentity => if succeeded {
            StartupStep::Bind
        } else {
            StartupStep::Abort(StartupError::IdentityUnavailable)
        },
        StartupStep::Bind => if succeeded {
            StartupStep::Accept
        } else {
            StartupStep::Abort(StartupError::BindFailed)
        },
        _ => step,
    }
}

/// The identity is loaded once, before the listener exists, so a bad
/// certificate stops production startup before any connection.
pub fn first_startup_step(mode: Mode) -> (r: StartupStep)
    ensures
        r == first_step_of(mode),
{
    match mode {
        Mode::Prod => StartupStep::LoadIdentity,
        Mode::Dev => StartupStep::Bind,
    }
}

pub fn next_startup_step(step: StartupStep, succeeded: bool) -> (r: StartupStep)
    ensures
        r == step_after(step, succeeded),
{
    match step {
        StartupStep::LoadIdentity => {
            if succeeded {
                StartupStep::Bind
            } else {
                StartupStep::Abort(StartupError::IdentityUnavailable)
            }
        },
        StartupStep::Bind => {
            if succeeded {
                StartupStep::Accept
            } else {
                StartupStep::Abort(StartupError::BindFailed)
            }
        },
        _ => step,
    }
}

/// Whether a step succeeds, when loading the identity gives `identity_ok`
/// and binding gives `bind_ok`.
pub open spec fn succeeds(step: StartupStep, identity_ok: bool, bind_ok: bool) -> bool {
    match step {
        StartupStep::LoadIdentity => identity_ok,
        StartupStep::Bind => bind_ok,
        _ => true,
    }
}

/// The steps taken from startup: the first step and the two that follow it,
/// enough to reach serving or aborting in either mode.
pub open spec fn startup_trace(mode: Mode, identity_ok: bool, bind_ok: bool) -> Seq<StartupStep> {
    let s0 = first_step_of(mode);
    let s1 = step_after(s0, succeeds(s0, identity_ok, bind_ok));
    let s2 = step_after(s1, succeeds(s1, identity_ok, bind_ok));
    seq![s0, s1, s2]
}

/// Startup always ends by serving or by terminating, and it serves exactly
/// when every step it needs succeeds.
pub proof fn lemma_startup_ends(mode: Mode, identity_ok: bool, bind_ok: bool)
    ensures
        startup_trace(mode, identity_ok, bind_ok).last() is Accept
            || startup_trace(mode, identity_ok, bind_ok).last() is Abort,
        startup_trace(mode, identity_ok, bind_ok).last() is Accept <==> (bind_ok && (mode
            == Mode::Prod ==> identity_ok)),
{
}

/// A listening address that cannot be bound terminates the process with
/// that diagnostic; the accept loop is never reached.
pub proof fn lemma_bind_failure_is_fatal(mode: Mode, identity_ok: bool)
    ensures
        forall|i: int|
            0 <= i < 3 ==> !(#[trigger] startup_trace(mode, identity_ok, false)[i] is Accept),
        startup_trace(mode, identity_ok, false).last() is Abort,
{
}

/// In production, an unreadable or invalid identity terminates the process
/// before the listener is bound, so no connection is ever accepted.
pub proof fn lemma_bad_identity_is_fatal(bind_ok: bool)
    ensures
        forall|i: int|
            0 <= i < 3 ==> !(#[trigger] startup_trace(Mode::Prod, false, bind_ok)[i] is Bind)
                && !(startup_trace(Mode::Prod, false, bind_ok)[i] is Accept),
        startup_trace(Mode::Prod, false, bind_ok).last() == StartupStep::Abort(
            StartupError::IdentityUnavailable,
        ),
{
}

} // verus!
