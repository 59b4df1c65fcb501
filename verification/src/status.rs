//! The shared lifecycle status record and the store that owns it.
//!
//! `FastWhisperStatus` is the single record describing the managed server:
//! whether it is installed, whether the last health probe confirmed it is
//! reachable, which high-level phase it is in, and the latest human-readable
//! messages.  `StatusStore` is the only place the record is mutated: every
//! mutation goes through [`StatusStore::apply`], which applies one
//! [`StatusUpdate`], stamps a strictly increasing `updated_at`, and returns
//! the snapshot that is to be pushed to observers.  A ghost history records
//! every snapshot ever published, in order.

use vstd::prelude::*;

use crate::ops::{LifecycleError, Verb};

verus! {

/// High-level lifecycle phase of the managed server.
#[derive(Clone, Copy, Debug, PartialEq, Eq, Structural)]
pub enum Phase {
    NotInstalled,
    Installing,
    Starting,
    Running,
    Idle,
    Error,
}

/// The lifecycle status record published to observers.
#[derive(Clone, Debug)]
pub struct FastWhisperStatus {
    /// A local installation has been provisioned.
    pub installed: bool,
    /// The health probe last confirmed the server is reachable.
    pub running: bool,
    /// Current high-level phase; `running` is authoritative, `phase` advisory.
    pub phase: Phase,
    /// Human-readable last status line.
    pub message: String,
    /// Populated exactly in the `Error` phase.
    pub error: Option<String>,
    /// Name of the last successfully completed lifecycle verb.
    pub last_action: Option<String>,
    /// Timestamp of the last successful operation, in milliseconds.
    pub last_success_at: Option<i64>,
    /// Most recent line captured from a control script's output.
    pub log_line: Option<String>,
    /// Resolved installation root, once known.
    pub install_dir: Option<String>,
    /// Stamped on every mutation; strictly increasing per store.
    pub updated_at: i64,
}

/// Mathematical model of a status record: strings become character sequences.
pub ghost struct StatusView {
    pub installed: bool,
    pub running: bool,
    pub phase: Phase,
    pub message: Seq<char>,
    pub error: Option<Seq<char>>,
    pub last_action: Option<Seq<char>>,
    pub last_success_at: Option<i64>,
    pub log_line: Option<Seq<char>>,
    pub install_dir: Option<Seq<char>>,
    pub updated_at: i64,
}

/// View of an optional string as an optional character sequence.
pub open spec fn opt_view(o: Option<String>) -> Option<Seq<char>> {
    match o {
        Option::None => Option::None,
        Option::Some(s) => Option::Some(s@),
    }
}

impl View for FastWhisperStatus {
    type V = StatusView;

    open spec fn view(&self) -> StatusView {
        StatusView {
            installed: self.installed,
            running: self.running,
            phase: self.phase,
            message: self.message@,
            error: opt_view(self.error),
            last_action: opt_view(self.last_action),
            last_success_at: self.last_success_at,
            log_line: opt_view(self.log_line),
            install_dir: opt_view(self.install_dir),
            updated_at: self.updated_at,
        }
    }
}

impl StatusView {
    /// Record invariant: a confirmed-running server is in the `Running`
    /// phase, and an error string is present exactly in the `Error` phase.
    pub open spec fn wf(self) -> bool {
        &&& (self.running ==> self.phase is Running)
        &&& (self.error is Some <==> self.phase is Error)
    }
}

/// The record a fresh store starts from: nothing installed, nothing running.
pub open spec fn initial_status(message: Seq<char>, now: i64) -> StatusView {
    StatusView {
        installed: false,
        running: false,
        phase: Phase::NotInstalled,
        message: message,
        error: Option::None,
        last_action: Option::None,
        last_success_at: Option::None,
        log_line: Option::None,
        install_dir: Option::None,
        updated_at: now,
    }
}

impl FastWhisperStatus {
    /// A fresh record in the `NotInstalled` phase carrying the given message.
    pub fn new(message: &str) -> (r: FastWhisperStatus)
        ensures
            r@ == initial_status(message@, r@.updated_at),
            r@.wf(),
    {
        FastWhisperStatus {
            installed: false,
            running: false,
            phase: Phase::NotInstalled,
            message: String::from_str(message),
            error: None,
            last_action: None,
            last_success_at: None,
            log_line: None,
            install_dir: None,
            updated_at: crate::clock::now_millis(),
        }
    }

    /// A field-by-field copy whose value is known to equal the original.
    pub fn snapshot(&self) -> (r: FastWhisperStatus)
        ensures
            r == *self,
    {
        FastWhisperStatus {
            installed: self.installed,
            running: self.running,
            phase: self.phase,
            message: self.message.clone(),
            error: clone_opt_string(&self.error),
            last_action: clone_opt_string(&self.last_action),
            last_success_at: self.last_success_at,
            log_line: clone_opt_string(&self.log_line),
            install_dir: clone_opt_string(&self.install_dir),
            updated_at: self.updated_at,
        }
    }
}

/// Copy of an optional string, equal to its source.
pub(crate) fn clone_opt_string(o: &Option<String>) -> (r: Option<String>)
    ensures
        r == *o,
{
    match o {
        None => None,
        Some(s) => Some(s.clone()),
    }
}

/// One mutation of the status record.  Every lifecycle transition is one of
/// these; [`apply_update`] is their exact meaning.
#[derive(Debug)]
pub enum StatusUpdate {
    /// Provisioning begins a real fetch.
    BeginInstall,
    /// The fetch completed and the installation is ready.
    RepoReady,
    /// A start sequence begins: the starting phase, with any prior error
    /// cleared.
    BeginStart,
    /// The start script exited non-zero; the health probe will decide.
    StartWarning,
    /// The health probe rescued a start whose script had failed.
    ClearWarning,
    /// A start sequence completed: the server is confirmed running.
    Started { verb: Verb },
    /// A stop operation completed: the server is idle.
    Stopped,
    /// An operation failed; the record enters the error phase.
    OpFailed { err: LifecycleError },
    /// A control script produced an output line (already trimmed, non-empty).
    LogLine { line: String },
}

/// Whether `u` may be applied to a record in state `s`.  Only the
/// warning-clearing update is restricted: it keeps the phase, so it must not
/// be asked to clear an error string while the phase says `Error`.
pub open spec fn admissible(u: StatusUpdate, s: StatusView) -> bool {
    u is ClearWarning ==> !(s.phase is Error)
}

/// The meaning of one status update: the record that results from applying
/// `u` to `s` at time `now`.
pub open spec fn apply_update(s: StatusView, u: StatusUpdate, now: i64) -> StatusView {
    let stamped = StatusView { updated_at: now, ..s };
    match u {
        StatusUpdate::BeginInstall => StatusView {
            phase: Phase::Installing,
            installed: false,
            running: false,
            error: Option::None,
            message: "Cloning repository..."@,
            ..stamped
        },
        StatusUpdate::RepoReady => StatusView {
            installed: true,
            message: "Repository ready."@,
            ..stamped
        },
        StatusUpdate::BeginStart => StatusView {
            phase: Phase::Starting,
            running: false,
            installed: true,
            error: Option::None,
            log_line: Option::None,
            message: "Starting local server..."@,
            ..stamped
        },
        StatusUpdate::StartWarning => StatusView {
            message: "Start script reported an error."@,
            ..stamped
        },
        StatusUpdate::ClearWarning => StatusView {
            error: Option::None,
            message: "Server started with warnings."@,
            ..stamped
        },
        StatusUpdate::Started { verb } => StatusView {
            phase: Phase::Running,
            running: true,
            error: Option::None,
            message: verb.success_message(),
            last_action: Option::Some(verb.label_spec()),
            last_success_at: Option::Some(now),
            ..stamped
        },
        StatusUpdate::Stopped => StatusView {
            phase: Phase::Idle,
            running: false,
            error: Option::None,
            message: "Server is stopped."@,
            ..stamped
        },
        StatusUpdate::OpFailed { err } => StatusView {
            phase: Phase::Error,
            running: false,
            error: Option::Some(err.describe_spec()),
            message: err.describe_spec(),
            ..stamped
        },
        StatusUpdate::LogLine { line } => StatusView {
            log_line: Option::Some(line@),
            message: if s.phase is Installing || s.phase is Starting {
                line@
            } else {
                s.message
            },
            ..stamped
        },
    }
}

/// Every admissible update preserves the record invariant.
pub proof fn lemma_apply_update_wf(s: StatusView, u: StatusUpdate, now: i64)
    requires
        s.wf(),
        admissible(u, s),
    ensures
        apply_update(s, u, now).wf(),
{
}

/// The snapshots `snaps` are exactly the records published by applying the
/// updates `ups`, in order, starting from `pre`: each snapshot is the
/// previous record with one update applied at that snapshot's own (strictly
/// advancing) timestamp.
pub open spec fn chain_applied(pre: StatusView, ups: Seq<StatusUpdate>, snaps: Seq<StatusView>) -> bool
    decreases ups.len(),
{
    if ups.len() == 0 {
        snaps.len() == 0
    } else {
        &&& snaps.len() == ups.len()
        &&& snaps[0] == apply_update(pre, ups[0], snaps[0].updated_at)
        &&& snaps[0].updated_at >= pre.updated_at
        &&& (pre.updated_at < i64::MAX ==> snaps[0].updated_at > pre.updated_at)
        &&& chain_applied(snaps[0], ups.skip(1), snaps.skip(1))
    }
}

/// Chains compose: publishing `ups1` and then `ups2` publishes their
/// concatenation.
pub proof fn lemma_chain_append(
    pre: StatusView,
    ups1: Seq<StatusUpdate>,
    snaps1: Seq<StatusView>,
    ups2: Seq<StatusUpdate>,
    snaps2: Seq<StatusView>,
)
    requires
        chain_applied(pre, ups1, snaps1),
        chain_applied(
            if snaps1.len() == 0 {
                pre
            } else {
                snaps1.last()
            },
            ups2,
            snaps2,
        ),
    ensures
        chain_applied(pre, ups1 + ups2, snaps1 + snaps2),
    decreases ups1.len(),
{
    if ups1.len() == 0 {
        assert(ups1 + ups2 =~= ups2);
        assert(snaps1 + snaps2 =~= snaps2);
    } else {
        assert((ups1 + ups2).skip(1) =~= ups1.skip(1) + ups2);
        assert((snaps1 + snaps2).skip(1) =~= snaps1.skip(1) + snaps2);
        if snaps1.len() > 1 {
            assert(snaps1.skip(1).last() == snaps1.last());
        }
        lemma_chain_append(snaps1[0], ups1.skip(1), snaps1.skip(1), ups2, snaps2);
        assert((ups1 + ups2)[0] == ups1[0]);
        assert((snaps1 + snaps2)[0] == snaps1[0]);
    }
}

/// The views of a sequence of published records.
pub open spec fn notes_views(v: Seq<FastWhisperStatus>) -> Seq<StatusView> {
    v.map_values(|s: FastWhisperStatus| s@)
}

/// Single source of truth for the lifecycle status.  All mutations go
/// through [`StatusStore::apply`]; the ghost `history` holds every snapshot
/// ever published to observers, oldest first, beginning with the initial
/// record.
pub struct StatusStore {
    current: FastWhisperStatus,
    history: Ghost<Seq<StatusView>>,
}

impl StatusStore {
    /// The current record.
    pub closed spec fn status(&self) -> StatusView {
        self.current@
    }

    /// Every snapshot ever held by the store, oldest first.
    pub closed spec fn history(&self) -> Seq<StatusView> {
        self.history@
    }

    /// Store invariant: the record is well-formed and is the last entry of
    /// the history.
    pub open spec fn wf(&self) -> bool {
        &&& self.status().wf()
        &&& self.history().len() > 0
        &&& self.history().last() == self.status()
    }

    pub fn new(initial: FastWhisperStatus) -> (s: StatusStore)
        requires
            initial@.wf(),
        ensures
            s.wf(),
            s.status() == initial@,
            s.history() == seq![initial@],
    {
        let ghost h: Seq<StatusView> = seq![initial@];
        StatusStore { current: initial, history: Ghost(h) }
    }

    /// A snapshot of the current record; never blocks and never mutates.
    pub fn read(&self) -> (r: FastWhisperStatus)
        ensures
            r@ == self.status(),
    {
        self.current.snapshot()
    }

    /// Applies one update, stamping a fresh `updated_at` that is strictly
    /// greater than the previous one (unless the counter is saturated), and
    /// returns the snapshot to be pushed to observers.
    pub fn apply(&mut self, u: StatusUpdate) -> (snap: FastWhisperStatus)
        requires
            old(self).wf(),
            admissible(u, old(self).status()),
        ensures
            final(self).wf(),
            final(self).status() == apply_update(
                old(self).status(),
                u,
                final(self).status().updated_at,
            ),
            final(self).status().updated_at >= old(self).status().updated_at,
            old(self).status().updated_at < i64::MAX
                ==> final(self).status().updated_at > old(self).status().updated_at,
            final(self).history() == old(self).history().push(final(self).status()),
            snap@ == final(self).status(),
    {
        let prev = self.current.updated_at;
        let now = crate::clock::now_millis();
        let bumped: i64 = if prev < i64::MAX {
            prev + 1
        } else {
            prev
        };
        let stamp: i64 = if now > bumped {
            now
        } else {
            bumped
        };
        let mut next = self.current.snapshot();
        next.updated_at = stamp;
        match u {
            StatusUpdate::BeginInstall => {
                next.phase = Phase::Installing;
                next.installed = false;
                next.running = false;
                next.error = None;
                next.message = String::from_str("Cloning repository...");
            },
            StatusUpdate::RepoReady => {
                next.installed = true;
                next.message = String::from_str("Repository ready.");
            },
            StatusUpdate::BeginStart => {
                next.phase = Phase::Starting;
                next.running = false;
                next.installed = true;
                next.error = None;
                next.log_line = None;
                next.message = String::from_str("Starting local server...");
            },
            StatusUpdate::StartWarning => {
                next.message = String::from_str("Start script reported an error.");
            },
            StatusUpdate::ClearWarning => {
                next.error = None;
                next.message = String::from_str("Server started with warnings.");
            },
            StatusUpdate::Started { verb } => {
                next.phase = Phase::Running;
                next.running = true;
                next.error = None;
                next.message = String::from_str("Server ").concat(verb.label().as_str()).concat(
                    "ed.",
                );
                next.last_action = Some(verb.label());
                next.last_success_at = Some(stamp);
            },
            StatusUpdate::Stopped => {
                next.phase = Phase::Idle;
                next.running = false;
                next.error = None;
                next.message = String::from_str("Server is stopped.");
            },
            StatusUpdate::OpFailed { err } => {
                let text = err.describe();
                next.phase = Phase::Error;
                next.running = false;
                next.error = Some(text.clone());
                next.message = text;
            },
            StatusUpdate::LogLine { line } => {
                let relay = match self.current.phase {
                    Phase::Installing => true,
                    Phase::Starting => true,
                    _ => false,
                };
                if relay {
                    next.message = line.clone();
                }
                next.log_line = Some(line);
            },
        }
        proof {
            lemma_apply_update_wf(self.current@, u, stamp);
        }
        self.current = next;
        self.history = Ghost(self.history@.push(self.current@));
        self.current.snapshot()
    }
}

} // verus!
