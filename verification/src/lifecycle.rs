//! The lifecycle orchestrator and its sub-flows.
//!
//! Every lifecycle operation (install, start, restart, reinstall, stop) is a
//! fixed sequence of outside actions — filesystem checks, subprocess runs,
//! health probes — interleaved with status updates.  The sequencing logic
//! lives here as pure state machines: the driver performs each requested
//! [`OpAction`], reports its outcome as an [`OpEvent`], and publishes the
//! returned status snapshots to observers.  One operation is in flight at a
//! time; a second `begin` while one is running is refused.

use vstd::prelude::*;

use crate::ops::{LifecycleError, ScriptKind, Verb};
use crate::probe::{HealthProber, ProbeStep};
use crate::provision::{ProvAction, ProvEvent, Provisioner};
use crate::status::{
    FastWhisperStatus, StatusStore, StatusUpdate, StatusView, chain_applied, notes_views,
};

verus! {

/// What the driver must do next.
#[derive(Debug)]
pub enum OpAction {
    /// Check whether the repository directory exists.
    CheckRepoDir,
    /// Recursively remove the repository directory.
    RemoveRepoDir,
    /// Create the installation root directory tree.
    CreateInstallRoot,
    /// Run the fetch subprocess (clone of the remote repository).
    RunFetch,
    /// Mark the control scripts executable (a no-op where not applicable).
    MarkScriptsExecutable,
    /// Run the named control script, streaming its output back through
    /// [`LifecycleOrchestrator::script_line`] and reporting its exit.
    RunScript(ScriptKind),
    /// Probe the health endpoint once, now.
    Probe,
    /// Probe the health endpoint once, after this many milliseconds.
    ProbeAfter(u64),
    /// The operation completed successfully; no further action.
    Finished,
    /// The operation failed with this error; no further action.
    Failed(LifecycleError),
}

/// Outcome reported by the driver for the previous action.
#[derive(Debug)]
pub enum OpEvent {
    /// Whether the repository directory exists.
    RepoDirExists(bool),
    /// Outcome of the recursive removal.
    RemoveFinished(Result<(), String>),
    /// Outcome of creating the installation root.
    CreateFinished(Result<(), String>),
    /// Whether the fetch subprocess exited successfully.
    FetchExited(bool),
    /// The control scripts have been marked executable.
    ScriptsMarked,
    /// Whether the control script exited successfully.
    ScriptExited(bool),
    /// Whether one health probe observed the server as healthy.
    ProbeChecked(bool),
}

/// Where a best-effort stop sequence stands.
#[derive(Clone, Copy, Debug, PartialEq, Eq, Structural)]
pub enum StopStage {
    /// Checking whether an installation exists at all.
    Check,
    /// Awaiting the stop script's exit (its result is ignored).
    Script,
    /// Waiting for the health probe to report the server down (best
    /// effort).
    Probing(HealthProber),
}

/// A best-effort stop of the managed server: a no-op when no installation
/// exists; otherwise the stop script runs (failures ignored) and the probe
/// waits for the server to go down (timeout ignored).  A stop sequence
/// always finishes successfully.
#[derive(Clone, Copy, Debug, PartialEq, Eq, Structural)]
pub struct StopFlow {
    pub stage: StopStage,
}

/// What a stop sequence asks for next.
#[derive(Debug)]
pub enum StopProgress {
    /// Perform this action and report back.
    Continue(OpAction),
    /// The stop sequence is over.
    Finished,
}

impl StopFlow {
    /// A prober in a stop sequence waits for the server to go down.
    pub open spec fn wf(self) -> bool {
        self.stage matches StopStage::Probing(p) ==> (p.wf() && !p.expect_up)
    }

    /// A fresh stop sequence; its first action is [`OpAction::CheckRepoDir`].
    pub fn new() -> (f: StopFlow)
        ensures
            f == (StopFlow { stage: StopStage::Check }),
    {
        StopFlow { stage: StopStage::Check }
    }

    /// The exact transition taken by [`Self::step`].
    pub open spec fn step_spec(self, ev: OpEvent) -> Option<(StopFlow, StopProgress)> {
        match (self.stage, ev) {
            (StopStage::Check, OpEvent::RepoDirExists(true)) => Option::Some(
                (
                    StopFlow { stage: StopStage::Script },
                    StopProgress::Continue(OpAction::RunScript(ScriptKind::Stop)),
                ),
            ),
            (StopStage::Check, OpEvent::RepoDirExists(false)) => Option::Some(
                (self, StopProgress::Finished),
            ),
            (StopStage::Script, OpEvent::ScriptExited(_)) => Option::Some(
                (
                    StopFlow {
                        stage: StopStage::Probing(HealthProber { expect_up: false, waited_ms: 0 }),
                    },
                    StopProgress::Continue(OpAction::Probe),
                ),
            ),
            (StopStage::Probing(p), OpEvent::ProbeChecked(h)) => {
                let (q, s) = p.step_spec(h);
                match s {
                    ProbeStep::Reached => Option::Some((self, StopProgress::Finished)),
                    ProbeStep::RetryAfter(iv) => Option::Some(
                        (
                            StopFlow { stage: StopStage::Probing(q) },
                            StopProgress::Continue(OpAction::ProbeAfter(iv)),
                        ),
                    ),
                    ProbeStep::TimedOut => Option::Some((self, StopProgress::Finished)),
                }
            },
            _ => Option::None,
        }
    }

    /// Advances the stop sequence by one driver-reported event.  No status
    /// update is published: stop sequences are silent until the enclosing
    /// operation decides what to record.
    pub fn step(&mut self, ev: &OpEvent) -> (p: StopProgress)
        requires
            old(self).wf(),
            old(self).step_spec(*ev) is Some,
        ensures
            Option::Some((*final(self), p)) == old(self).step_spec(*ev),
            final(self).wf(),
    {
        match (&self.stage, ev) {
            (StopStage::Check, OpEvent::RepoDirExists(true)) => {
                self.stage = StopStage::Script;
                StopProgress::Continue(OpAction::RunScript(ScriptKind::Stop))
            },
            (StopStage::Check, OpEvent::RepoDirExists(false)) => StopProgress::Finished,
            (StopStage::Script, OpEvent::ScriptExited(_)) => {
                self.stage = StopStage::Probing(HealthProber::new(false));
                StopProgress::Continue(OpAction::Probe)
            },
            (StopStage::Probing(p), OpEvent::ProbeChecked(h)) => {
                let mut q = *p;
                match q.observe(*h) {
                    ProbeStep::Reached => StopProgress::Finished,
                    ProbeStep::RetryAfter(iv) => {
                        self.stage = StopStage::Probing(q);
                        StopProgress::Continue(OpAction::ProbeAfter(iv))
                    },
                    ProbeStep::TimedOut => StopProgress::Finished,
                }
            },
            (_, _) => {
                proof {
                    assert(false);
                }
                StopProgress::Finished
            },
        }
    }
}

/// The records published between two states of one store: the new entries
/// of the history.
pub open spec fn published(pre: StatusStore, post: StatusStore) -> Seq<StatusView> {
    post.history().skip(pre.history().len() as int)
}

/// `post` is `pre` after publishing exactly the updates `ups`, in order.
pub open spec fn store_advanced(pre: StatusStore, post: StatusStore, ups: Seq<StatusUpdate>) -> bool {
    &&& post.history().len() == pre.history().len() + ups.len()
    &&& post.history().take(pre.history().len() as int) == pre.history()
    &&& chain_applied(pre.status(), ups, published(pre, post))
    &&& (ups.len() == 0 ==> post == pre)
    &&& post.status() == if ups.len() == 0 {
        pre.status()
    } else {
        post.history().last()
    }
}

/// An untouched store has published nothing.
proof fn lemma_store_advanced_zero(pre: StatusStore)
    ensures
        store_advanced(pre, pre, Seq::<StatusUpdate>::empty()),
{
    assert(pre.history().take(pre.history().len() as int) =~= pre.history());
    assert(published(pre, pre) =~= Seq::<StatusView>::empty());
}

/// One call of [`StatusStore::apply`] publishes exactly one update.
proof fn lemma_store_advanced_one(pre: StatusStore, post: StatusStore, u: StatusUpdate)
    requires
        post.history() == pre.history().push(post.status()),
        post.status() == crate::status::apply_update(pre.status(), u, post.status().updated_at),
        post.status().updated_at >= pre.status().updated_at,
        pre.status().updated_at < i64::MAX ==> post.status().updated_at > pre.status().updated_at,
    ensures
        store_advanced(pre, post, seq![u]),
{
    assert(post.history().take(pre.history().len() as int) =~= pre.history());
    assert(published(pre, post) =~= seq![post.status()]);
    assert(seq![u].skip(1) =~= Seq::<StatusUpdate>::empty());
    assert(seq![post.status()].skip(1) =~= Seq::<StatusView>::empty());
    assert(chain_applied(
        post.status(),
        Seq::<StatusUpdate>::empty(),
        Seq::<StatusView>::empty(),
    ));
    assert(chain_applied(pre.status(), seq![u], seq![post.status()]));
}

/// Publishing `ups1` and then `ups2` publishes their concatenation.
proof fn lemma_store_advanced_trans(
    pre: StatusStore,
    mid: StatusStore,
    post: StatusStore,
    ups1: Seq<StatusUpdate>,
    ups2: Seq<StatusUpdate>,
)
    requires
        store_advanced(pre, mid, ups1),
        store_advanced(mid, post, ups2),
    ensures
        store_advanced(pre, post, ups1 + ups2),
{
    let n = pre.history().len() as int;
    let m = mid.history().len() as int;
    assert(post.history().take(n) =~= pre.history());
    assert(published(pre, post) =~= published(pre, mid) + published(mid, post));
    if ups1.len() == 0 {
    } else {
        assert(mid.status() == published(pre, mid).last());
    }
    crate::status::lemma_chain_append(
        pre.status(),
        ups1,
        published(pre, mid),
        ups2,
        published(mid, post),
    );
    if ups1.len() + ups2.len() > 0 {
        if ups2.len() == 0 {
            assert(post.history() == mid.history());
            assert(post.history().last() == published(pre, post).last());
        }
    }
}

/// Pushing one snapshot extends the published views by its view.
proof fn lemma_notes_push(v: Seq<FastWhisperStatus>, s: FastWhisperStatus)
    ensures
        notes_views(v.push(s)) =~= notes_views(v).push(s@),
{
}

/// Where a start sequence stands.
#[derive(Clone, Copy, Debug, PartialEq, Eq, Structural)]
pub enum StartStage {
    /// The best-effort stop that always precedes a start, clearing any
    /// stale prior instance.
    PreStop(StopFlow),
    /// Awaiting the start script's exit.
    Script,
    /// Waiting for the health probe to confirm the server is up; `warned`
    /// records that the start script exited non-zero.
    Probing { prober: HealthProber, warned: bool },
}

/// The start sequence shared by install, start, restart and reinstall:
/// best-effort stop, then the start script, then a health wait.  The health
/// endpoint is authoritative: a failed script is forgiven when the probe
/// reports the server up.
#[derive(Clone, Copy, Debug, PartialEq, Eq, Structural)]
pub struct StartFlow {
    /// The verb this sequence completes, recorded in `last_action`.
    pub verb: Verb,
    pub stage: StartStage,
}

/// What a start sequence asks for next.
#[derive(Debug)]
pub enum StartProgress {
    /// Perform this action and report back.
    Continue(OpAction),
    /// The start sequence succeeded; the server is confirmed running.
    Done,
    /// The start sequence failed with this error.
    Failed(LifecycleError),
}

/// The state a fresh start sequence starts in.
pub open spec fn fresh_start_flow(verb: Verb) -> StartFlow {
    StartFlow { verb, stage: StartStage::PreStop(StopFlow { stage: StopStage::Check }) }
}

impl StartFlow {
    /// Probers are well-formed and wait in the right direction.
    pub open spec fn wf(self) -> bool {
        match self.stage {
            StartStage::PreStop(f) => f.wf(),
            StartStage::Script => true,
            StartStage::Probing { prober, .. } => prober.wf() && prober.expect_up,
        }
    }

    /// Once the start script has been launched, the record is in the
    /// starting phase (established by the `BeginStart` update).
    pub open spec fn phase_ok(self, s: StatusView) -> bool {
        match self.stage {
            StartStage::PreStop(_) => true,
            StartStage::Script => s.phase is Starting,
            StartStage::Probing { .. } => s.phase is Starting,
        }
    }

    /// A fresh start sequence; its first action is
    /// [`OpAction::CheckRepoDir`].
    pub fn new(verb: Verb) -> (f: StartFlow)
        ensures
            f == fresh_start_flow(verb),
    {
        StartFlow { verb, stage: StartStage::PreStop(StopFlow::new()) }
    }

    /// The exact transition taken by [`Self::step`]: the sequence after the
    /// event, the status updates it publishes, and its progress.
    pub open spec fn step_spec(self, ev: OpEvent) -> Option<
        (StartFlow, Seq<StatusUpdate>, StartProgress),
    > {
        match self.stage {
            StartStage::PreStop(f) => match f.step_spec(ev) {
                Option::Some((f2, StopProgress::Continue(a))) => Option::Some(
                    (
                        StartFlow { stage: StartStage::PreStop(f2), ..self },
                        Seq::empty(),
                        StartProgress::Continue(a),
                    ),
                ),
                Option::Some((_, StopProgress::Finished)) => Option::Some(
                    (
                        StartFlow { stage: StartStage::Script, ..self },
                        seq![StatusUpdate::BeginStart],
                        StartProgress::Continue(OpAction::RunScript(ScriptKind::Start)),
                    ),
                ),
                Option::None => Option::None,
            },
            StartStage::Script => match ev {
                OpEvent::ScriptExited(true) => Option::Some(
                    (
                        StartFlow {
                            stage: StartStage::Probing {
                                prober: HealthProber { expect_up: true, waited_ms: 0 },
                                warned: false,
                            },
                            ..self
                        },
                        Seq::empty(),
                        StartProgress::Continue(OpAction::Probe),
                    ),
                ),
                OpEvent::ScriptExited(false) => Option::Some(
                    (
                        StartFlow {
                            stage: StartStage::Probing {
                                prober: HealthProber { expect_up: true, waited_ms: 0 },
                                warned: true,
                            },
                            ..self
                        },
                        seq![StatusUpdate::StartWarning],
                        StartProgress::Continue(OpAction::Probe),
                    ),
                ),
                _ => Option::None,
            },
            StartStage::Probing { prober, warned } => match ev {
                OpEvent::ProbeChecked(h) => {
                    let (q, s) = prober.step_spec(h);
                    match s {
                        ProbeStep::Reached => Option::Some(
                            (
                                self,
                                if warned {
                                    seq![
                                        StatusUpdate::ClearWarning,
                                        StatusUpdate::Started { verb: self.verb },
                                    ]
                                } else {
                                    seq![StatusUpdate::Started { verb: self.verb }]
                                },
                                StartProgress::Done,
                            ),
                        ),
                        ProbeStep::RetryAfter(iv) => Option::Some(
                            (
                                StartFlow {
                                    stage: StartStage::Probing { prober: q, warned },
                                    ..self
                                },
                                Seq::empty(),
                                StartProgress::Continue(OpAction::ProbeAfter(iv)),
                            ),
                        ),
                        ProbeStep::TimedOut => Option::Some(
                            (
                                self,
                                seq![
                                    StatusUpdate::OpFailed {
                                        err: LifecycleError::Timeout { expect_up: true },
                                    },
                                ],
                                StartProgress::Failed(
                                    if warned {
                                        LifecycleError::ScriptFailed
                                    } else {
                                        LifecycleError::Timeout { expect_up: true }
                                    },
                                ),
                            ),
                        ),
                    }
                },
                _ => Option::None,
            },
        }
    }

    /// Advances the start sequence by one driver-reported event, publishing
    /// its status updates through `store` and appending every published
    /// snapshot to `notes`.
    pub fn step(
        &mut self,
        ev: &OpEvent,
        store: &mut StatusStore,
        notes: &mut Vec<FastWhisperStatus>,
    ) -> (p: StartProgress)
        requires
            old(self).wf(),
            old(store).wf(),
            old(self).phase_ok(old(store).status()),
            old(self).step_spec(*ev) is Some,
        ensures
            final(self).wf(),
            final(store).wf(),
            ({
                let (sf2, ups, prog) = old(self).step_spec(*ev).unwrap();
                &&& *final(self) == sf2
                &&& p == prog
                &&& store_advanced(*old(store), *final(store), ups)
                &&& notes_views(final(notes)@) == notes_views(old(notes)@) + published(
                    *old(store),
                    *final(store),
                )
                &&& (p is Continue ==> final(self).phase_ok(final(store).status()))
            }),
    {
        let ghost pre_store = *store;
        let ghost pre_notes = notes@;
        let verb = self.verb;
        match &self.stage {
            StartStage::PreStop(f) => {
                let mut f2 = *f;
                match f2.step(ev) {
                    StopProgress::Continue(a) => {
                        self.stage = StartStage::PreStop(f2);
                        proof {
                            lemma_store_advanced_zero(pre_store);
                            assert(notes_views(notes@) =~= notes_views(pre_notes) + published(
                                pre_store,
                                *store,
                            ));
                        }
                        StartProgress::Continue(a)
                    },
                    StopProgress::Finished => {
                        let snap = store.apply(StatusUpdate::BeginStart);
                        notes.push(snap);
                        self.stage = StartStage::Script;
                        proof {
                            lemma_store_advanced_one(pre_store, *store, StatusUpdate::BeginStart);
                            lemma_notes_push(pre_notes, snap);
                            assert(notes_views(notes@) =~= notes_views(pre_notes) + published(
                                pre_store,
                                *store,
                            ));
                        }
                        StartProgress::Continue(OpAction::RunScript(ScriptKind::Start))
                    },
                }
            },
            StartStage::Script => match ev {
                OpEvent::ScriptExited(ok) => {
                    if *ok {
                        self.stage = StartStage::Probing {
                            prober: HealthProber::new(true),
                            warned: false,
                        };
                        proof {
                            lemma_store_advanced_zero(pre_store);
                            assert(notes_views(notes@) =~= notes_views(pre_notes) + published(
                                pre_store,
                                *store,
                            ));
                        }
                        StartProgress::Continue(OpAction::Probe)
                    } else {
                        let snap = store.apply(StatusUpdate::StartWarning);
                        notes.push(snap);
                        self.stage = StartStage::Probing {
                            prober: HealthProber::new(true),
                            warned: true,
                        };
                        proof {
                            lemma_store_advanced_one(pre_store, *store, StatusUpdate::StartWarning);
                            lemma_notes_push(pre_notes, snap);
                            assert(notes_views(notes@) =~= notes_views(pre_notes) + published(
                                pre_store,
                                *store,
                            ));
                        }
                        StartProgress::Continue(OpAction::Probe)
                    }
                },
                _ => {
                    proof {
                        assert(false);
                    }
                    StartProgress::Done
                },
            },
            StartStage::Probing { prober, warned } => match ev {
                OpEvent::ProbeChecked(h) => {
                    let w = *warned;
                    let mut q = *prober;
                    match q.observe(*h) {
                        ProbeStep::Reached => {
                            if w {
                                let s1 = store.apply(StatusUpdate::ClearWarning);
                                notes.push(s1);
                                let ghost mid_store = *store;
                                let ghost mid_notes = notes@;
                                let s2 = store.apply(StatusUpdate::Started { verb });
                                notes.push(s2);
                                proof {
                                    lemma_store_advanced_one(
                                        pre_store,
                                        mid_store,
                                        StatusUpdate::ClearWarning,
                                    );
                                    lemma_store_advanced_one(
                                        mid_store,
                                        *store,
                                        StatusUpdate::Started { verb },
                                    );
                                    lemma_store_advanced_trans(
                                        pre_store,
                                        mid_store,
                                        *store,
                                        seq![StatusUpdate::ClearWarning],
                                        seq![StatusUpdate::Started { verb }],
                                    );
                                    assert(seq![StatusUpdate::ClearWarning] + seq![
                                        StatusUpdate::Started { verb },
                                    ] =~= seq![
                                        StatusUpdate::ClearWarning,
                                        StatusUpdate::Started { verb },
                                    ]);
                                    lemma_notes_push(pre_notes, s1);
                                    lemma_notes_push(mid_notes, s2);
                                    assert(notes_views(notes@) =~= notes_views(pre_notes)
                                        + published(pre_store, *store));
                                }
                                StartProgress::Done
                            } else {
                                let snap = store.apply(StatusUpdate::Started { verb });
                                notes.push(snap);
                                proof {
                                    lemma_store_advanced_one(
                                        pre_store,
                                        *store,
                                        StatusUpdate::Started { verb },
                                    );
                                    lemma_notes_push(pre_notes, snap);
                                    assert(notes_views(notes@) =~= notes_views(pre_notes)
                                        + published(pre_store, *store));
                                }
                                StartProgress::Done
                            }
                        },
                        ProbeStep::RetryAfter(iv) => {
                            self.stage = StartStage::Probing { prober: q, warned: w };
                            proof {
                                lemma_store_advanced_zero(pre_store);
                                assert(notes_views(notes@) =~= notes_views(pre_notes) + published(
                                    pre_store,
                                    *store,
                                ));
                            }
                            StartProgress::Continue(OpAction::ProbeAfter(iv))
                        },
                        ProbeStep::TimedOut => {
                            let snap = store.apply(
                                StatusUpdate::OpFailed {
                                    err: LifecycleError::Timeout { expect_up: true },
                                },
                            );
                            notes.push(snap);
                            proof {
                                lemma_store_advanced_one(
                                    pre_store,
                                    *store,
                                    StatusUpdate::OpFailed {
                                        err: LifecycleError::Timeout { expect_up: true },
                                    },
                                );
                                lemma_notes_push(pre_notes, snap);
                                assert(notes_views(notes@) =~= notes_views(pre_notes) + published(
                                    pre_store,
                                    *store,
                                ));
                            }
                            StartProgress::Failed(
                                if w {
                                    LifecycleError::ScriptFailed
                                } else {
                                    LifecycleError::Timeout { expect_up: true }
                                },
                            )
                        },
                    }
                },
                _ => {
                    proof {
                        assert(false);
                    }
                    StartProgress::Done
                },
            },
        }
    }
}

/// The provisioning-related subset of [`OpEvent`], as the provisioner sees
/// it.
pub open spec fn as_prov_event(ev: OpEvent) -> Option<ProvEvent> {
    match ev {
        OpEvent::RepoDirExists(b) => Option::Some(ProvEvent::DirExists(b)),
        OpEvent::RemoveFinished(r) => Option::Some(ProvEvent::Removed(r)),
        OpEvent::CreateFinished(r) => Option::Some(ProvEvent::Created(r)),
        OpEvent::FetchExited(b) => Option::Some(ProvEvent::FetchExited(b)),
        OpEvent::ScriptsMarked => Option::Some(ProvEvent::ExecMarked),
        _ => Option::None,
    }
}

fn into_prov_event(ev: OpEvent) -> (r: Option<ProvEvent>)
    ensures
        r == as_prov_event(ev),
{
    match ev {
        OpEvent::RepoDirExists(b) => Some(ProvEvent::DirExists(b)),
        OpEvent::RemoveFinished(r) => Some(ProvEvent::Removed(r)),
        OpEvent::CreateFinished(r) => Some(ProvEvent::Created(r)),
        OpEvent::FetchExited(b) => Some(ProvEvent::FetchExited(b)),
        OpEvent::ScriptsMarked => Some(ProvEvent::ExecMarked),
        _ => None,
    }
}

/// Where an in-flight operation stands.
#[derive(Clone, Copy, Debug, PartialEq, Eq, Structural)]
pub enum OpStage {
    /// Start only: checking whether an installation exists, provisioning
    /// first if not.
    CheckExisting,
    /// Ensuring the installation exists (install, reinstall, or a start on
    /// a fresh machine).
    Provisioning(Provisioner),
    /// Restart only: the explicit best-effort stop before the start
    /// sequence.
    PreStop(StopFlow),
    /// The start sequence shared by all starting verbs.
    Starting(StartFlow),
    /// Stop only: the stop sequence, ending in the idle phase.
    Stopping(StopFlow),
}

/// One in-flight lifecycle operation.
#[derive(Clone, Copy, Debug, PartialEq, Eq, Structural)]
pub struct OpState {
    pub verb: Verb,
    pub stage: OpStage,
}

/// The state a lifecycle operation starts in; every verb's first action is
/// [`OpAction::CheckRepoDir`].
pub open spec fn fresh_op(verb: Verb) -> OpState {
    OpState {
        verb,
        stage: match verb {
            Verb::Install => OpStage::Provisioning(crate::provision::fresh_provisioner(false)),
            Verb::Start => OpStage::CheckExisting,
            Verb::Restart => OpStage::PreStop(StopFlow { stage: StopStage::Check }),
            Verb::Reinstall => OpStage::Provisioning(crate::provision::fresh_provisioner(true)),
            Verb::Stop => OpStage::Stopping(StopFlow { stage: StopStage::Check }),
        },
    }
}

/// Sub-machine well-formedness of an in-flight operation.
pub open spec fn op_wf(op: OpState) -> bool {
    match op.stage {
        OpStage::CheckExisting => true,
        OpStage::Provisioning(_) => true,
        OpStage::PreStop(f) => f.wf(),
        OpStage::Starting(sf) => sf.wf(),
        OpStage::Stopping(f) => f.wf(),
    }
}

/// Tie between the operation's stage and the published phase.
pub open spec fn op_phase_ok(op: OpState, s: StatusView) -> bool {
    op.stage matches OpStage::Starting(sf) ==> sf.phase_ok(s)
}

/// The exact transition taken by [`LifecycleOrchestrator::step`]: the
/// operation after the event (`None` when it completed), the status updates
/// published, and the next action.
pub open spec fn orch_step_spec(op: OpState, ev: OpEvent) -> Option<
    (Option<OpState>, Seq<StatusUpdate>, OpAction),
> {
    match op.stage {
        OpStage::CheckExisting => match ev {
            OpEvent::RepoDirExists(true) => Option::Some(
                (
                    Option::Some(
                        OpState { verb: op.verb, stage: OpStage::Starting(fresh_start_flow(op.verb)) },
                    ),
                    Seq::empty(),
                    OpAction::CheckRepoDir,
                ),
            ),
            OpEvent::RepoDirExists(false) => Option::Some(
                (
                    Option::Some(
                        OpState {
                            verb: op.verb,
                            stage: OpStage::Provisioning(crate::provision::fresh_provisioner(false)),
                        },
                    ),
                    Seq::empty(),
                    OpAction::CheckRepoDir,
                ),
            ),
            _ => Option::None,
        },
        OpStage::Provisioning(p) => match as_prov_event(ev) {
            Option::Some(pe) => match p.step_spec(pe) {
                Option::Some((p2, pa)) => {
                    let cont = Option::Some(
                        OpState { verb: op.verb, stage: OpStage::Provisioning(p2) },
                    );
                    let started = Option::Some(
                        OpState { verb: op.verb, stage: OpStage::Starting(fresh_start_flow(op.verb)) },
                    );
                    match pa {
                        ProvAction::CheckDir => Option::Some(
                            (cont, Seq::empty(), OpAction::CheckRepoDir),
                        ),
                        ProvAction::RemoveDir => Option::Some(
                            (cont, Seq::empty(), OpAction::RemoveRepoDir),
                        ),
                        ProvAction::CreateRoot => Option::Some(
                            (cont, Seq::empty(), OpAction::CreateInstallRoot),
                        ),
                        ProvAction::RunFetch => Option::Some(
                            (cont, seq![StatusUpdate::BeginInstall], OpAction::RunFetch),
                        ),
                        ProvAction::MarkExecutable => Option::Some(
                            (cont, Seq::empty(), OpAction::MarkScriptsExecutable),
                        ),
                        ProvAction::AlreadyPresent => Option::Some(
                            (started, Seq::empty(), OpAction::CheckRepoDir),
                        ),
                        ProvAction::Fetched => Option::Some(
                            (started, seq![StatusUpdate::RepoReady], OpAction::CheckRepoDir),
                        ),
                        ProvAction::Fail(e) => Option::Some(
                            (
                                Option::None,
                                seq![
                                    StatusUpdate::OpFailed { err: LifecycleError::Provision(e) },
                                ],
                                OpAction::Failed(LifecycleError::Provision(e)),
                            ),
                        ),
                    }
                },
                Option::None => Option::None,
            },
            Option::None => Option::None,
        },
        OpStage::PreStop(f) => match f.step_spec(ev) {
            Option::Some((f2, StopProgress::Continue(a))) => Option::Some(
                (
                    Option::Some(OpState { verb: op.verb, stage: OpStage::PreStop(f2) }),
                    Seq::empty(),
                    a,
                ),
            ),
            Option::Some((_, StopProgress::Finished)) => Option::Some(
                (
                    Option::Some(
                        OpState { verb: op.verb, stage: OpStage::Starting(fresh_start_flow(op.verb)) },
                    ),
                    Seq::empty(),
                    OpAction::CheckRepoDir,
                ),
            ),
            Option::None => Option::None,
        },
        OpStage::Starting(sf) => match sf.step_spec(ev) {
            Option::Some((sf2, ups, StartProgress::Continue(a))) => Option::Some(
                (
                    Option::Some(OpState { verb: op.verb, stage: OpStage::Starting(sf2) }),
                    ups,
                    a,
                ),
            ),
            Option::Some((_, ups, StartProgress::Done)) => Option::Some(
                (Option::None, ups, OpAction::Finished),
            ),
            Option::Some((_, ups, StartProgress::Failed(err))) => Option::Some(
                (
                    Option::None,
                    ups + seq![StatusUpdate::OpFailed { err }],
                    OpAction::Failed(err),
                ),
            ),
            Option::None => Option::None,
        },
        OpStage::Stopping(f) => match f.step_spec(ev) {
            Option::Some((f2, StopProgress::Continue(a))) => Option::Some(
                (
                    Option::Some(OpState { verb: op.verb, stage: OpStage::Stopping(f2) }),
                    Seq::empty(),
                    a,
                ),
            ),
            Option::Some((_, StopProgress::Finished)) => Option::Some(
                (Option::None, seq![StatusUpdate::Stopped], OpAction::Finished),
            ),
            Option::None => Option::None,
        },
    }
}

/// The public-facing lifecycle component: owns the status store and at most
/// one in-flight operation.  Operations are mutually exclusive: `begin`
/// refuses a second operation while one is running, so no two operations'
/// status mutations ever interleave.
pub struct LifecycleOrchestrator {
    store: StatusStore,
    current: Option<OpState>,
}

impl LifecycleOrchestrator {
    /// The current status record.
    pub closed spec fn status(&self) -> StatusView {
        self.store.status()
    }

    /// Every snapshot published so far, oldest first.
    pub closed spec fn published_log(&self) -> Seq<StatusView> {
        self.store.history()
    }

    /// The store, for relating two orchestrator states.
    pub closed spec fn store_state(&self) -> StatusStore {
        self.store
    }

    /// The in-flight operation, if any.
    pub closed spec fn op(&self) -> Option<OpState> {
        self.current
    }

    /// Orchestrator invariant: the store is well-formed and the in-flight
    /// operation, if any, is consistent with the published phase.
    pub open spec fn wf(&self) -> bool {
        &&& self.store_state().wf()
        &&& (self.op() matches Option::Some(o) ==> op_wf(o) && op_phase_ok(o, self.status()))
    }

    /// A fresh orchestrator: nothing installed, nothing running, no
    /// operation in flight.
    pub fn new() -> (o: LifecycleOrchestrator)
        ensures
            o.wf(),
            o.op() is None,
            o.status() == crate::status::initial_status(
                "Local server is not installed."@,
                o.status().updated_at,
            ),
            o.published_log() == seq![o.status()],
    {
        let initial = FastWhisperStatus::new("Local server is not installed.");
        LifecycleOrchestrator { store: StatusStore::new(initial), current: None }
    }

    /// A snapshot of the current status, on demand.
    pub fn get_status(&self) -> (r: FastWhisperStatus)
        ensures
            r@ == self.status(),
    {
        self.store.read()
    }

    /// Starts a lifecycle operation.  While another operation is in flight
    /// the call is refused with [`LifecycleError::Busy`] and nothing — not
    /// the operation, not the status, not the published history — changes:
    /// a second caller's effects are observable only after the first
    /// operation's final status mutation.  Otherwise the operation begins
    /// and its first action is returned.
    pub fn begin(&mut self, verb: Verb) -> (r: Result<OpAction, LifecycleError>)
        requires
            old(self).wf(),
        ensures
            final(self).wf(),
            old(self).op() is Some ==> ({
                &&& r matches Err(e) && e is Busy
                &&& final(self).op() == old(self).op()
                &&& final(self).store_state() == old(self).store_state()
            }),
            old(self).op() is None ==> ({
                &&& r matches Ok(a) && a is CheckRepoDir
                &&& final(self).op() == Option::Some(fresh_op(verb))
                &&& final(self).store_state() == old(self).store_state()
            }),
    {
        if self.current.is_some() {
            return Err(LifecycleError::Busy);
        }
        let stage = match verb {
            Verb::Install => OpStage::Provisioning(Provisioner::new(false)),
            Verb::Start => OpStage::CheckExisting,
            Verb::Restart => OpStage::PreStop(StopFlow::new()),
            Verb::Reinstall => OpStage::Provisioning(Provisioner::new(true)),
            Verb::Stop => OpStage::Stopping(StopFlow::new()),
        };
        self.current = Some(OpState { verb, stage });
        Ok(OpAction::CheckRepoDir)
    }

    /// Advances the in-flight operation by one driver-reported event.
    /// Returns the next action and the status snapshots published by this
    /// step, in order, for delivery to observers.  When the returned action
    /// is `Finished` or `Failed`, the operation is over and a new one may
    /// begin; a failed operation's last published snapshot is in the error
    /// phase, and the caller and the status record agree on the error.
    pub fn step(&mut self, ev: OpEvent) -> (r: (OpAction, Vec<FastWhisperStatus>))
        requires
            old(self).wf(),
            old(self).op() is Some,
            orch_step_spec(old(self).op().unwrap(), ev) is Some,
        ensures
            final(self).wf(),
            ({
                let (post_op, ups, act) = orch_step_spec(old(self).op().unwrap(), ev).unwrap();
                &&& final(self).op() == post_op
                &&& r.0 == act
                &&& store_advanced(old(self).store_state(), final(self).store_state(), ups)
                &&& notes_views(r.1@) == published(
                    old(self).store_state(),
                    final(self).store_state(),
                )
            }),
    {
        let ghost pre_store = self.store;
        let mut notes: Vec<FastWhisperStatus> = Vec::new();
        proof {
            assert(notes_views(notes@) =~= Seq::<StatusView>::empty());
        }
        let op = match self.current {
            Some(o) => o,
            None => {
                proof {
                    assert(false);
                }
                return (OpAction::Finished, notes);
            },
        };
        match op.stage {
            OpStage::CheckExisting => {
                let exists = match ev {
                    OpEvent::RepoDirExists(b) => b,
                    _ => {
                        proof {
                            assert(false);
                        }
                        false
                    },
                };
                if exists {
                    self.current = Some(
                        OpState { verb: op.verb, stage: OpStage::Starting(StartFlow::new(op.verb)) },
                    );
                } else {
                    self.current = Some(
                        OpState { verb: op.verb, stage: OpStage::Provisioning(Provisioner::new(false)) },
                    );
                }
                proof {
                    lemma_store_advanced_zero(pre_store);
                }
                (OpAction::CheckRepoDir, notes)
            },
            OpStage::Provisioning(p) => {
                let mut p2 = p;
                let pe = match into_prov_event(ev) {
                    Some(pe) => pe,
                    None => {
                        proof {
                            assert(false);
                        }
                        ProvEvent::ExecMarked
                    },
                };
                let pa = p2.step(pe);
                match pa {
                    ProvAction::CheckDir => {
                        self.current = Some(
                            OpState { verb: op.verb, stage: OpStage::Provisioning(p2) },
                        );
                        proof {
                            lemma_store_advanced_zero(pre_store);
                        }
                        (OpAction::CheckRepoDir, notes)
                    },
                    ProvAction::RemoveDir => {
                        self.current = Some(
                            OpState { verb: op.verb, stage: OpStage::Provisioning(p2) },
                        );
                        proof {
                            lemma_store_advanced_zero(pre_store);
                        }
                        (OpAction::RemoveRepoDir, notes)
                    },
                    ProvAction::CreateRoot => {
                        self.current = Some(
                            OpState { verb: op.verb, stage: OpStage::Provisioning(p2) },
                        );
                        proof {
                            lemma_store_advanced_zero(pre_store);
                        }
                        (OpAction::CreateInstallRoot, notes)
                    },
                    ProvAction::MarkExecutable => {
                        self.current = Some(
                            OpState { verb: op.verb, stage: OpStage::Provisioning(p2) },
                        );
                        proof {
                            lemma_store_advanced_zero(pre_store);
                        }
                        (OpAction::MarkScriptsExecutable, notes)
                    },
                    ProvAction::RunFetch => {
                        self.current = Some(
                            OpState { verb: op.verb, stage: OpStage::Provisioning(p2) },
                        );
                        let snap = self.store.apply(StatusUpdate::BeginInstall);
                        notes.push(snap);
                        proof {
                            lemma_store_advanced_one(
                                pre_store,
                                self.store,
                                StatusUpdate::BeginInstall,
                            );
                            lemma_notes_push(Seq::empty(), snap);
                            assert(notes_views(notes@) =~= published(pre_store, self.store));
                        }
                        (OpAction::RunFetch, notes)
                    },
                    ProvAction::AlreadyPresent => {
                        self.current = Some(
                            OpState { verb: op.verb, stage: OpStage::Starting(StartFlow::new(op.verb)) },
                        );
                        proof {
                            lemma_store_advanced_zero(pre_store);
                        }
                        (OpAction::CheckRepoDir, notes)
                    },
                    ProvAction::Fetched => {
                        self.current = Some(
                            OpState { verb: op.verb, stage: OpStage::Starting(StartFlow::new(op.verb)) },
                        );
                        let snap = self.store.apply(StatusUpdate::RepoReady);
                        notes.push(snap);
                        proof {
                            lemma_store_advanced_one(pre_store, self.store, StatusUpdate::RepoReady);
                            lemma_notes_push(Seq::empty(), snap);
                            assert(notes_views(notes@) =~= published(pre_store, self.store));
                        }
                        (OpAction::CheckRepoDir, notes)
                    },
                    ProvAction::Fail(e) => {
                        self.current = None;
                        let err = LifecycleError::Provision(e);
                        let snap = self.store.apply(StatusUpdate::OpFailed { err: err.duplicate() });
                        notes.push(snap);
                        proof {
                            lemma_store_advanced_one(
                                pre_store,
                                self.store,
                                StatusUpdate::OpFailed { err },
                            );
                            lemma_notes_push(Seq::empty(), snap);
                            assert(notes_views(notes@) =~= published(pre_store, self.store));
                        }
                        (OpAction::Failed(err), notes)
                    },
                }
            },
            OpStage::PreStop(f) => {
                let mut f2 = f;
                match f2.step(&ev) {
                    StopProgress::Continue(a) => {
                        self.current = Some(OpState { verb: op.verb, stage: OpStage::PreStop(f2) });
                        proof {
                            lemma_store_advanced_zero(pre_store);
                        }
                        (a, notes)
                    },
                    StopProgress::Finished => {
                        self.current = Some(
                            OpState { verb: op.verb, stage: OpStage::Starting(StartFlow::new(op.verb)) },
                        );
                        proof {
                            lemma_store_advanced_zero(pre_store);
                        }
                        (OpAction::CheckRepoDir, notes)
                    },
                }
            },
            OpStage::Starting(sf) => {
                let mut sf2 = sf;
                let prog = sf2.step(&ev, &mut self.store, &mut notes);
                match prog {
                    StartProgress::Continue(a) => {
                        self.current = Some(OpState { verb: op.verb, stage: OpStage::Starting(sf2) });
                        (a, notes)
                    },
                    StartProgress::Done => {
                        self.current = None;
                        (OpAction::Finished, notes)
                    },
                    StartProgress::Failed(err) => {
                        self.current = None;
                        let ghost mid_store = self.store;
                        let ghost mid_notes = notes@;
                        let snap = self.store.apply(StatusUpdate::OpFailed { err: err.duplicate() });
                        notes.push(snap);
                        proof {
                            let ups = sf.step_spec(ev).unwrap().1;
                            lemma_store_advanced_one(
                                mid_store,
                                self.store,
                                StatusUpdate::OpFailed { err },
                            );
                            lemma_store_advanced_trans(
                                pre_store,
                                mid_store,
                                self.store,
                                ups,
                                seq![StatusUpdate::OpFailed { err }],
                            );
                            lemma_notes_push(mid_notes, snap);
                            assert(notes_views(notes@) =~= published(pre_store, self.store));
                        }
                        (OpAction::Failed(err), notes)
                    },
                }
            },
            OpStage::Stopping(f) => {
                let mut f2 = f;
                match f2.step(&ev) {
                    StopProgress::Continue(a) => {
                        self.current = Some(OpState { verb: op.verb, stage: OpStage::Stopping(f2) });
                        proof {
                            lemma_store_advanced_zero(pre_store);
                        }
                        (a, notes)
                    },
                    StopProgress::Finished => {
                        self.current = None;
                        let snap = self.store.apply(StatusUpdate::Stopped);
                        notes.push(snap);
                        proof {
                            lemma_store_advanced_one(pre_store, self.store, StatusUpdate::Stopped);
                            lemma_notes_push(Seq::empty(), snap);
                            assert(notes_views(notes@) =~= published(pre_store, self.store));
                        }
                        (OpAction::Finished, notes)
                    },
                }
            },
        }
    }

    /// Relays one raw control-script output line.  Blank lines are dropped;
    /// a non-blank line is trimmed, recorded as the latest log line — and,
    /// while the phase is `Installing` or `Starting`, as the message — and
    /// the published snapshot is returned for delivery to observers.
    pub fn script_line(&mut self, line: &str) -> (r: Option<FastWhisperStatus>)
        requires
            old(self).wf(),
        ensures
            final(self).wf(),
            final(self).op() == old(self).op(),
            crate::text::trimmed(line@).len() == 0 ==> ({
                &&& r is None
                &&& final(self).store_state() == old(self).store_state()
            }),
            crate::text::trimmed(line@).len() > 0 ==> ({
                &&& r matches Some(snap) && snap@ == final(self).status()
                &&& final(self).status() == (StatusView {
                    log_line: Option::Some(crate::text::trimmed(line@)),
                    message: if old(self).status().phase is Installing || old(
                        self,
                    ).status().phase is Starting {
                        crate::text::trimmed(line@)
                    } else {
                        old(self).status().message
                    },
                    updated_at: final(self).status().updated_at,
                    ..old(self).status()
                })
                &&& final(self).published_log() == old(self).published_log().push(
                    final(self).status(),
                )
                &&& final(self).status().updated_at >= old(self).status().updated_at
            }),
    {
        match crate::text::trim_nonblank(line) {
            None => None,
            Some(t) => {
                let snap = self.store.apply(StatusUpdate::LogLine { line: t });
                Some(snap)
            },
        }
    }
}

/// An operation whose start sequence is waiting on the health probe.
pub open spec fn probing_op(verb: Verb, prober: HealthProber, warned: bool) -> OpState {
    OpState {
        verb,
        stage: OpStage::Starting(
            StartFlow { verb, stage: StartStage::Probing { prober, warned } },
        ),
    }
}

/// Health-gated success: when the start script has already failed (`warned`)
/// but a health probe then observes the server up, the operation completes
/// successfully and the final published record is running, in the `Running`
/// phase, with no error recorded.  The health endpoint, not the script's
/// exit code, is authoritative.
pub proof fn lemma_health_gated_success(
    verb: Verb,
    prober: HealthProber,
    pre: StatusView,
    snaps: Seq<StatusView>,
)
    requires
        prober.expect_up,
        chain_applied(
            pre,
            orch_step_spec(probing_op(verb, prober, true), OpEvent::ProbeChecked(true)).unwrap().1,
            snaps,
        ),
    ensures
        orch_step_spec(probing_op(verb, prober, true), OpEvent::ProbeChecked(true)).unwrap().0
            is None,
        orch_step_spec(probing_op(verb, prober, true), OpEvent::ProbeChecked(true)).unwrap().2
            is Finished,
        snaps.len() == 2,
        snaps.last().phase is Running,
        snaps.last().running,
        snaps.last().error is None,
{
    let op = probing_op(verb, prober, true);
    let ups = orch_step_spec(op, OpEvent::ProbeChecked(true)).unwrap().1;
    assert(ups == seq![StatusUpdate::ClearWarning, StatusUpdate::Started { verb }]);
    assert(chain_applied(snaps[0], ups.skip(1), snaps.skip(1)));
    assert(ups.skip(1)[0] == StatusUpdate::Started { verb });
    assert(snaps.last() == snaps.skip(1)[0]);
}

/// A successful start records the completed verb and stamps
/// `last_success_at` with the final record's own timestamp, strictly newer
/// than any timestamp from before the step (while the timestamp counter is
/// not saturated).
pub proof fn lemma_success_timestamp_fresh(
    verb: Verb,
    prober: HealthProber,
    warned: bool,
    pre: StatusView,
    snaps: Seq<StatusView>,
)
    requires
        prober.expect_up,
        chain_applied(
            pre,
            orch_step_spec(probing_op(verb, prober, warned), OpEvent::ProbeChecked(true)).unwrap().1,
            snaps,
        ),
    ensures
        snaps.last().last_action == Option::Some(verb.label_spec()),
        snaps.last().last_success_at == Option::Some(snaps.last().updated_at),
        pre.updated_at < i64::MAX ==> snaps.last().updated_at > pre.updated_at,
{
    let op = probing_op(verb, prober, warned);
    let ups = orch_step_spec(op, OpEvent::ProbeChecked(true)).unwrap().1;
    if warned {
        assert(ups == seq![StatusUpdate::ClearWarning, StatusUpdate::Started { verb }]);
        assert(chain_applied(snaps[0], ups.skip(1), snaps.skip(1)));
        assert(ups.skip(1)[0] == StatusUpdate::Started { verb });
        assert(snaps.last() == snaps.skip(1)[0]);
    } else {
        assert(ups == seq![StatusUpdate::Started { verb }]);
    }
}

/// Timeout failure: when the probe's budget is exhausted without the server
/// coming up, the operation fails — with the script's own error if the
/// script had failed, else with the probe's timeout — and the final
/// published record is in the `Error` phase, not running, with the error
/// recorded.
pub proof fn lemma_timeout_failure(
    verb: Verb,
    prober: HealthProber,
    warned: bool,
    pre: StatusView,
    snaps: Seq<StatusView>,
)
    requires
        prober.expect_up,
        prober.waited_ms > crate::probe::budget_ms(true),
        chain_applied(
            pre,
            orch_step_spec(probing_op(verb, prober, warned), OpEvent::ProbeChecked(false)).unwrap().1,
            snaps,
        ),
    ensures
        orch_step_spec(probing_op(verb, prober, warned), OpEvent::ProbeChecked(false)).unwrap().0
            is None,
        orch_step_spec(probing_op(verb, prober, warned), OpEvent::ProbeChecked(false)).unwrap().2
            matches OpAction::Failed(e) && (warned ==> e is ScriptFailed) && (!warned
            ==> e matches LifecycleError::Timeout { expect_up: true }),
        snaps.last().phase is Error,
        !snaps.last().running,
        snaps.last().error is Some,
{
    let op = probing_op(verb, prober, warned);
    let timeout_update = StatusUpdate::OpFailed {
        err: LifecycleError::Timeout { expect_up: true },
    };
    let wrap_err = if warned {
        LifecycleError::ScriptFailed
    } else {
        LifecycleError::Timeout { expect_up: true }
    };
    let ups = orch_step_spec(op, OpEvent::ProbeChecked(false)).unwrap().1;
    assert(ups == seq![timeout_update] + seq![StatusUpdate::OpFailed { err: wrap_err }]);
    assert(ups.len() == 2);
    assert(chain_applied(snaps[0], ups.skip(1), snaps.skip(1)));
    assert(ups.skip(1)[0] == StatusUpdate::OpFailed { err: wrap_err });
    assert(snaps.last() == snaps.skip(1)[0]);
}

} // verus!
