//! Lifecycle verbs, control-script kinds, and the error taxonomy.

use vstd::prelude::*;

verus! {

/// One of the five serialized lifecycle operations.
#[derive(Clone, Copy, Debug, PartialEq, Eq, Structural)]
pub enum Verb {
    Install,
    Start,
    Restart,
    Reinstall,
    Stop,
}

impl Verb {
    /// The verb's name, as recorded in `last_action`.
    pub open spec fn label_spec(self) -> Seq<char> {
        match self {
            Verb::Install => "install"@,
            Verb::Start => "start"@,
            Verb::Restart => "restart"@,
            Verb::Reinstall => "reinstall"@,
            Verb::Stop => "stop"@,
        }
    }

    /// The message recorded when the verb's start sequence succeeds.
    pub open spec fn success_message(self) -> Seq<char> {
        "Server "@ + self.label_spec() + "ed."@
    }

    pub fn label(&self) -> (r: String)
        ensures
            r@ == self.label_spec(),
    {
        match self {
            Verb::Install => String::from_str("install"),
            Verb::Start => String::from_str("start"),
            Verb::Restart => String::from_str("restart"),
            Verb::Reinstall => String::from_str("reinstall"),
            Verb::Stop => String::from_str("stop"),
        }
    }
}

/// Which control script a supervisor invocation runs.
#[derive(Clone, Copy, Debug, PartialEq, Eq, Structural)]
pub enum ScriptKind {
    Start,
    Stop,
}

/// Failure while provisioning the installation directory.
#[derive(Debug)]
pub enum ProvisionError {
    /// The fetch subprocess exited with a non-zero status.
    FetchFailed,
    /// A filesystem step (directory creation or removal) failed; carries the
    /// reported reason.
    Io(String),
}

/// Failure of a lifecycle operation, as surfaced to the caller.
#[derive(Debug)]
pub enum LifecycleError {
    /// Provisioning the installation failed.
    Provision(ProvisionError),
    /// The start script exited with a non-zero status and the health probe
    /// did not rescue the operation.
    ScriptFailed,
    /// The health probe did not observe the expected reachability state
    /// within its budget; carries which direction was awaited.
    Timeout { expect_up: bool },
    /// Another lifecycle operation is already in flight.
    Busy,
}

impl ProvisionError {
    /// A copy whose value is known to equal the original.
    pub fn duplicate(&self) -> (r: ProvisionError)
        ensures
            r == *self,
    {
        match self {
            ProvisionError::FetchFailed => ProvisionError::FetchFailed,
            ProvisionError::Io(m) => ProvisionError::Io(m.clone()),
        }
    }
}

impl LifecycleError {
    /// A copy whose value is known to equal the original.
    pub fn duplicate(&self) -> (r: LifecycleError)
        ensures
            r == *self,
    {
        match self {
            LifecycleError::Provision(e) => LifecycleError::Provision(e.duplicate()),
            LifecycleError::ScriptFailed => LifecycleError::ScriptFailed,
            LifecycleError::Timeout { expect_up } => LifecycleError::Timeout {
                expect_up: *expect_up,
            },
            LifecycleError::Busy => LifecycleError::Busy,
        }
    }

    /// The user-facing description of the error.
    pub open spec fn describe_spec(self) -> Seq<char> {
        match self {
            LifecycleError::Provision(ProvisionError::FetchFailed) => {
                "Fetching the repository failed."@
            },
            LifecycleError::Provision(ProvisionError::Io(m)) => m@,
            LifecycleError::ScriptFailed => "start script failed"@,
            LifecycleError::Timeout { expect_up } => {
                if expect_up {
                    "Local server did not start in time"@
                } else {
                    "Local server is still running"@
                }
            },
            LifecycleError::Busy => "another lifecycle operation is in flight"@,
        }
    }

    pub fn describe(&self) -> (r: String)
        ensures
            r@ == self.describe_spec(),
    {
        match self {
            LifecycleError::Provision(ProvisionError::FetchFailed) => {
                String::from_str("Fetching the repository failed.")
            },
            LifecycleError::Provision(ProvisionError::Io(m)) => m.clone(),
            LifecycleError::ScriptFailed => String::from_str("start script failed"),
            LifecycleError::Timeout { expect_up } => {
                if *expect_up {
                    String::from_str("Local server did not start in time")
                } else {
                    String::from_str("Local server is still running")
                }
            },
            LifecycleError::Busy => String::from_str("another lifecycle operation is in flight"),
        }
    }
}

} // verus!
