//! Repository provisioning: guaranteeing a local installation of the managed
//! server exists on disk, fetching it if absent or forcing a clean
//! reinstall.
//!
//! The provisioner is a pure state machine.  The driver performs each
//! requested filesystem or subprocess action (check the repository
//! directory, remove it, create the installation root, run the fetch, mark
//! the control scripts executable) and reports the outcome as the next
//! event.

use vstd::prelude::*;

use crate::ops::ProvisionError;

verus! {

/// Where a provisioning round stands.
#[derive(Clone, Copy, Debug, PartialEq, Eq, Structural)]
pub enum ProvStage {
    /// Forced round: checking whether the directory must be removed first.
    CheckForce,
    /// Awaiting the outcome of the recursive removal.
    Removing,
    /// Checking whether an installation is already present.
    CheckDir,
    /// Awaiting the creation of the installation root.
    Creating,
    /// Awaiting the exit of the fetch subprocess.
    Fetching,
    /// Awaiting the control scripts being marked executable.
    MarkingExec,
    /// The round has ended (successfully or not).
    Complete,
}

/// What the driver must do next for the provisioner.
#[derive(Debug)]
pub enum ProvAction {
    /// Check whether the repository directory exists.
    CheckDir,
    /// Recursively remove the repository directory.
    RemoveDir,
    /// Create the installation root directory tree.
    CreateRoot,
    /// Run the fetch subprocess (clone of the remote repository).
    RunFetch,
    /// Mark the control scripts executable (a no-op where not applicable).
    MarkExecutable,
    /// Done: an installation was already present; nothing was fetched.
    AlreadyPresent,
    /// Done: a fresh installation was fetched.
    Fetched,
    /// Done: provisioning failed.
    Fail(ProvisionError),
}

/// Outcome reported by the driver for the previous action.
#[derive(Debug)]
pub enum ProvEvent {
    /// Whether the repository directory exists.
    DirExists(bool),
    /// Outcome of the recursive removal.
    Removed(Result<(), String>),
    /// Outcome of creating the installation root.
    Created(Result<(), String>),
    /// Whether the fetch subprocess exited successfully.
    FetchExited(bool),
    /// The control scripts have been marked executable.
    ExecMarked,
}

/// One round of ensuring the installation exists.
#[derive(Clone, Copy, Debug, PartialEq, Eq, Structural)]
pub struct Provisioner {
    /// Remove any existing installation before fetching.
    pub force: bool,
    pub stage: ProvStage,
}

/// The state a fresh provisioning round starts in.
pub open spec fn fresh_provisioner(force: bool) -> Provisioner {
    Provisioner {
        force,
        stage: if force {
            ProvStage::CheckForce
        } else {
            ProvStage::CheckDir
        },
    }
}

impl Provisioner {
    /// A fresh round; its first action is always [`ProvAction::CheckDir`].
    pub fn new(force: bool) -> (p: Provisioner)
        ensures
            p == fresh_provisioner(force),
    {
        Provisioner {
            force,
            stage: if force {
                ProvStage::CheckForce
            } else {
                ProvStage::CheckDir
            },
        }
    }

    /// The exact transition taken by [`Self::step`]: `None` when the stage
    /// does not expect the event, otherwise the provisioner after the event
    /// and the next action.
    pub open spec fn step_spec(self, ev: ProvEvent) -> Option<(Provisioner, ProvAction)> {
        match (self.stage, ev) {
            (ProvStage::CheckForce, ProvEvent::DirExists(true)) => Option::Some(
                (Provisioner { stage: ProvStage::Removing, ..self }, ProvAction::RemoveDir),
            ),
            (ProvStage::CheckForce, ProvEvent::DirExists(false)) => Option::Some(
                (Provisioner { stage: ProvStage::Creating, ..self }, ProvAction::CreateRoot),
            ),
            (ProvStage::Removing, ProvEvent::Removed(Result::Ok(()))) => Option::Some(
                (Provisioner { stage: ProvStage::CheckDir, ..self }, ProvAction::CheckDir),
            ),
            (ProvStage::Removing, ProvEvent::Removed(Result::Err(m))) => Option::Some(
                (
                    Provisioner { stage: ProvStage::Complete, ..self },
                    ProvAction::Fail(ProvisionError::Io(m)),
                ),
            ),
            (ProvStage::CheckDir, ProvEvent::DirExists(true)) => Option::Some(
                (Provisioner { stage: ProvStage::Complete, ..self }, ProvAction::AlreadyPresent),
            ),
            (ProvStage::CheckDir, ProvEvent::DirExists(false)) => Option::Some(
                (Provisioner { stage: ProvStage::Creating, ..self }, ProvAction::CreateRoot),
            ),
            (ProvStage::Creating, ProvEvent::Created(Result::Ok(()))) => Option::Some(
                (Provisioner { stage: ProvStage::Fetching, ..self }, ProvAction::RunFetch),
            ),
            (ProvStage::Creating, ProvEvent::Created(Result::Err(m))) => Option::Some(
                (
                    Provisioner { stage: ProvStage::Complete, ..self },
                    ProvAction::Fail(ProvisionError::Io(m)),
                ),
            ),
            (ProvStage::Fetching, ProvEvent::FetchExited(true)) => Option::Some(
                (
                    Provisioner { stage: ProvStage::MarkingExec, ..self },
                    ProvAction::MarkExecutable,
                ),
            ),
            (ProvStage::Fetching, ProvEvent::FetchExited(false)) => Option::Some(
                (
                    Provisioner { stage: ProvStage::Complete, ..self },
                    ProvAction::Fail(ProvisionError::FetchFailed),
                ),
            ),
            (ProvStage::MarkingExec, ProvEvent::ExecMarked) => Option::Some(
                (Provisioner { stage: ProvStage::Complete, ..self }, ProvAction::Fetched),
            ),
            _ => Option::None,
        }
    }

    /// Advances the round by one driver-reported event.
    pub fn step(&mut self, ev: ProvEvent) -> (a: ProvAction)
        requires
            old(self).step_spec(ev) is Some,
        ensures
            Option::Some((*final(self), a)) == old(self).step_spec(ev),
    {
        let force = self.force;
        match (&self.stage, ev) {
            (ProvStage::CheckForce, ProvEvent::DirExists(true)) => {
                self.stage = ProvStage::Removing;
                ProvAction::RemoveDir
            },
            (ProvStage::CheckForce, ProvEvent::DirExists(false)) => {
                self.stage = ProvStage::Creating;
                ProvAction::CreateRoot
            },
            (ProvStage::Removing, ProvEvent::Removed(Ok(()))) => {
                self.stage = ProvStage::CheckDir;
                ProvAction::CheckDir
            },
            (ProvStage::Removing, ProvEvent::Removed(Err(m))) => {
                self.stage = ProvStage::Complete;
                ProvAction::Fail(ProvisionError::Io(m))
            },
            (ProvStage::CheckDir, ProvEvent::DirExists(true)) => {
                self.stage = ProvStage::Complete;
                ProvAction::AlreadyPresent
            },
            (ProvStage::CheckDir, ProvEvent::DirExists(false)) => {
                self.stage = ProvStage::Creating;
                ProvAction::CreateRoot
            },
            (ProvStage::Creating, ProvEvent::Created(Ok(()))) => {
                self.stage = ProvStage::Fetching;
                ProvAction::RunFetch
            },
            (ProvStage::Creating, ProvEvent::Created(Err(m))) => {
                self.stage = ProvStage::Complete;
                ProvAction::Fail(ProvisionError::Io(m))
            },
            (ProvStage::Fetching, ProvEvent::FetchExited(true)) => {
                self.stage = ProvStage::MarkingExec;
                ProvAction::MarkExecutable
            },
            (ProvStage::Fetching, ProvEvent::FetchExited(false)) => {
                self.stage = ProvStage::Complete;
                ProvAction::Fail(ProvisionError::FetchFailed)
            },
            (ProvStage::MarkingExec, ProvEvent::ExecMarked) => {
                self.stage = ProvStage::Complete;
                ProvAction::Fetched
            },
            (_, _) => {
                proof {
                    assert(false);
                }
                ProvAction::CheckDir
            },
        }
    }
}

/// Idempotent provisioning: a non-forced round on a machine where the
/// installation directory already exists completes successfully at once,
/// without ever requesting a fetch — and therefore a second such round
/// behaves identically.  The `AlreadyPresent` outcome is the fast path: the
/// orchestrator publishes no status update for it.
pub proof fn lemma_provision_idempotent()
    ensures
        forall|ev: ProvEvent|
            ev matches ProvEvent::DirExists(true) ==> #[trigger] fresh_provisioner(
                false,
            ).step_spec(ev) matches Option::Some((p, a)) && p.stage is Complete
                && a is AlreadyPresent,
{
}

/// A forced round on an existing installation removes the directory first
/// and then performs a fresh fetch: from the removal onward the round walks
/// remove, re-check, create, fetch.
pub proof fn lemma_forced_reinstall_refetches(m0: ProvEvent, m1: ProvEvent, m2: ProvEvent, m3: ProvEvent)
    requires
        m0 == ProvEvent::DirExists(true),
        m1 == ProvEvent::Removed(Result::<(), String>::Ok(())),
        m2 == ProvEvent::DirExists(false),
        m3 == ProvEvent::Created(Result::<(), String>::Ok(())),
    ensures
        ({
            let p0 = fresh_provisioner(true);
            let (p1, a1) = p0.step_spec(m0).unwrap();
            let (p2, a2) = p1.step_spec(m1).unwrap();
            let (p3, a3) = p2.step_spec(m2).unwrap();
            let (p4, a4) = p3.step_spec(m3).unwrap();
            &&& a1 is RemoveDir
            &&& a2 is CheckDir
            &&& a3 is CreateRoot
            &&& a4 is RunFetch
            &&& p4.stage is Fetching
        }),
{
}

} // verus!
