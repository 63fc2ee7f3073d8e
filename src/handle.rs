use vstd::prelude::*;

verus! {

/// Where a spawned dialog stands, as seen through its handle.
///
/// A handle starts `Running`. A successful wait makes it `Exited`, which is
/// terminal. A successful kill leaves it `Running`: the killed child must
/// still be waited on to be reaped. A failed wait or kill makes it `Failed`,
/// after which no further call on the child is safe.
#[derive(Clone, Copy, Debug, PartialEq, Eq, Structural)]
pub enum HandleState {
    Running,
    Exited,
    Failed,
}

impl HandleState {
    /// Whether calls on the child are still allowed.
    pub open spec fn is_live(self) -> bool {
        self is Running
    }

    /// The state after a wait that succeeded or failed.
    pub open spec fn waited(self, succeeded: bool) -> Self {
        if succeeded {
            HandleState::Exited
        } else {
            HandleState::Failed
        }
    }

    /// The state after a kill that succeeded or failed.
    pub open spec fn killed(self, succeeded: bool) -> Self {
        if succeeded {
            HandleState::Running
        } else {
            HandleState::Failed
        }
    }

    /// Whether the child may be waited on now.
    pub fn may_wait(self) -> (r: bool)
        ensures
            r == self.is_live(),
    {
        match self {
            HandleState::Running => true,
            _ => false,
        }
    }

    /// Whether the child may be killed now.
    pub fn may_kill(self) -> (r: bool)
        ensures
            r == self.is_live(),
    {
        match self {
            HandleState::Running => true,
            _ => false,
        }
    }

    /// The state after a wait that succeeded (`succeeded`) or failed.
    pub fn after_wait(self, succeeded: bool) -> (r: Self)
        requires
            self.is_live(),
        ensures
            r == self.waited(succeeded),
    {
        if succeeded {
            HandleState::Exited
        } else {
            HandleState::Failed
        }
    }

    /// The state after a kill that succeeded (`succeeded`) or failed.
    pub fn after_kill(self, succeeded: bool) -> (r: Self)
        requires
            self.is_live(),
        ensures
            r == self.killed(succeeded),
    {
        if succeeded {
            HandleState::Running
        } else {
            HandleState::Failed
        }
    }
}

} // verus!
