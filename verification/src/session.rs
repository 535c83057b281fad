//! The composition root's sequencing, as a state machine: authenticate,
//! assemble the environment, launch the display server for X11 targets,
//! spawn the client, wait for it to exit, and close the PAM session. Any
//! step's failure short-circuits every remaining step except the session
//! teardown, and nothing is retried.

use vstd::prelude::*;

use crate::auth::AuthenticationError;
use crate::post_login::EnvironmentStartError;
use crate::x::XSetupError;

verus! {

/// What a failed session start surfaces to the caller.
#[derive(Debug, Clone, PartialEq, Eq)]
pub enum StartSessionError {
    AuthenticationError(AuthenticationError),
    EnvironmentStartError(EnvironmentStartError),
    XSetupError(XSetupError),
}

/// The steps of one session, in their fixed order.
#[derive(Debug, Clone, Copy, PartialEq, Eq, Structural)]
pub enum SessionStep {
    /// Run the PAM sequence.
    Authenticate,
    /// Merge the PAM-exported variables into the outgoing environment.
    AssembleEnvironment,
    /// X11 targets only: start the display server and await readiness.
    LaunchDisplayServer,
    /// Spawn the session client under the dropped identity.
    SpawnClient,
    /// Wait for the client to exit.
    WaitForExit,
    /// Drop the authenticated identity, closing the PAM session.
    CloseSession,
    /// Nothing remains.
    Finished,
}

/// The composition root: which step comes next, whether the target needs a
/// display server, and the failure that ended the run early, if any.
pub struct SessionOrchestrator {
    pub step: SessionStep,
    pub needs_display_server: bool,
    pub failure: Option<StartSessionError>,
}

/// The step after `s` when it succeeds, with the display-server step taken
/// only for targets that need one.
pub open spec fn spec_step_after(s: SessionStep, needs_display_server: bool) -> SessionStep {
    match s {
        SessionStep::Authenticate => SessionStep::AssembleEnvironment,
        SessionStep::AssembleEnvironment => if needs_display_server {
            SessionStep::LaunchDisplayServer
        } else {
            SessionStep::SpawnClient
        },
        SessionStep::LaunchDisplayServer => SessionStep::SpawnClient,
        SessionStep::SpawnClient => SessionStep::WaitForExit,
        SessionStep::WaitForExit => SessionStep::CloseSession,
        SessionStep::CloseSession => SessionStep::Finished,
        SessionStep::Finished => SessionStep::Finished,
    }
}

impl SessionOrchestrator {
    /// The orchestrator invariant: a failure ends the run; only the
    /// teardown and nothing else may follow it.
    pub open spec fn wf(&self) -> bool {
        self.failure is Some ==> (self.step == SessionStep::CloseSession || self.step
            == SessionStep::Finished)
    }

    /// A fresh run, starting at authentication.
    pub fn begin(needs_display_server: bool) -> (r: SessionOrchestrator)
        ensures
            r.wf(),
            r.step == SessionStep::Authenticate,
            r.needs_display_server == needs_display_server,
            r.failure is None,
    {
        SessionOrchestrator {
            step: SessionStep::Authenticate,
            needs_display_server,
            failure: None,
        }
    }

    /// The current step succeeded: move to the next one, in the fixed
    /// order, with the display-server step only for targets that need one.
    /// After a failure only the teardown is current, so this can then do
    /// nothing but finish the run.
    pub fn step_succeeded(&mut self)
        requires
            old(self).wf(),
        ensures
            final(self).wf(),
            final(self).step == spec_step_after(old(self).step, old(self).needs_display_server),
            final(self).needs_display_server == old(self).needs_display_server,
            final(self).failure == old(self).failure,
    {
        self.step = match self.step {
            SessionStep::Authenticate => SessionStep::AssembleEnvironment,
            SessionStep::AssembleEnvironment => if self.needs_display_server {
                SessionStep::LaunchDisplayServer
            } else {
                SessionStep::SpawnClient
            },
            SessionStep::LaunchDisplayServer => SessionStep::SpawnClient,
            SessionStep::SpawnClient => SessionStep::WaitForExit,
            SessionStep::WaitForExit => SessionStep::CloseSession,
            SessionStep::CloseSession => SessionStep::Finished,
            SessionStep::Finished => SessionStep::Finished,
        };
    }

    /// The current step failed: every remaining step is skipped, except that
    /// the session teardown still runs. Nothing is retried.
    pub fn step_failed(&mut self, err: StartSessionError)
        requires
            old(self).wf(),
            old(self).failure is None,
            old(self).step != SessionStep::Finished,
        ensures
            final(self).wf(),
            final(self).step == SessionStep::CloseSession,
            final(self).failure == Some(err),
            final(self).needs_display_server == old(self).needs_display_server,
    {
        self.failure = Some(err);
        self.step = SessionStep::CloseSession;
    }
}

/// A failure short-circuits the run: after it, only the teardown and the
/// end can ever be current, whatever else is reported.
pub proof fn lemma_failure_short_circuits(o: SessionOrchestrator)
    requires
        o.wf(),
        o.failure is Some,
    ensures
        o.step == SessionStep::CloseSession || o.step == SessionStep::Finished,
{
}

} // verus!
