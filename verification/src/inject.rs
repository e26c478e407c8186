//! Keeping account of the module injected into the target: a module that
//! was loaded is owed one unload, which is handed out once.

use crate::evaluation::Status;
use vstd::prelude::*;

verus! {

/// Why there is no loaded module.
#[derive(Clone, Copy, Debug, PartialEq, Eq, Structural)]
pub enum InjectionError {
    /// The target or the debugger refused the module.
    Rejected,
    /// A module was loaded before and this account holds one module only.
    AlreadyLoaded,
}

/// Where the account of one injected module stands.
#[derive(Clone, Copy, Debug, PartialEq, Eq, Structural)]
pub enum InjectionState {
    /// Nothing was loaded yet.
    Idle,
    /// The module with this token is loaded and its unload is owed.
    Loaded(u32),
    /// The unload was handed out.
    Released,
}

/// The account of one injected module.
#[derive(Clone, Copy, Debug, PartialEq, Eq, Structural)]
pub struct InjectionManager {
    pub state: InjectionState,
}

/// The outcome of recording a load that the debugger reported on with
/// `failure` and answered with `token`.
pub open spec fn load_outcome(state: InjectionState, token: u32, failure: bool) -> Result<
    u32,
    InjectionError,
> {
    if state != InjectionState::Idle {
        Err(InjectionError::AlreadyLoaded)
    } else if failure {
        Err(InjectionError::Rejected)
    } else {
        Ok(token)
    }
}

/// The account after such a load was recorded.
pub open spec fn state_after_load(state: InjectionState, token: u32, failure: bool) -> InjectionState {
    if load_outcome(state, token, failure) is Ok {
        InjectionState::Loaded(token)
    } else {
        state
    }
}

/// The token whose unload is owed, if one is.
pub open spec fn owed_unload(state: InjectionState) -> Option<u32> {
    match state {
        InjectionState::Loaded(token) => Some(token),
        _ => None,
    }
}

/// The account after the owed unload, if any, was handed out.
pub open spec fn state_after_unload(state: InjectionState) -> InjectionState {
    match state {
        InjectionState::Loaded(_) => InjectionState::Released,
        _ => state,
    }
}

impl InjectionManager {
    /// An account with nothing loaded.
    pub fn new() -> (manager: InjectionManager)
        ensures
            manager.state == InjectionState::Idle,
    {
        InjectionManager { state: InjectionState::Idle }
    }

    /// Records what the debugger answered to a load: the token of the
    /// loaded module and its report.
    pub fn load(&mut self, token: u32, report: &Status) -> (outcome: Result<u32, InjectionError>)
        ensures
            outcome == load_outcome(old(self).state, token, report.failure),
            final(self).state == state_after_load(old(self).state, token, report.failure),
    {
        match self.state {
            InjectionState::Idle => {
                if report.failure {
                    Err(InjectionError::Rejected)
                } else {
                    self.record_loaded(token)
                }
            },
            _ => Err(InjectionError::AlreadyLoaded),
        }
    }

    /// Records that the module with this token was loaded.
    pub fn record_loaded(&mut self, token: u32) -> (outcome: Result<u32, InjectionError>)
        ensures
            outcome == load_outcome(old(self).state, token, false),
            final(self).state == state_after_load(old(self).state, token, false),
    {
        match self.state {
            InjectionState::Idle => {
                self.state = InjectionState::Loaded(token);
                Ok(token)
            },
            _ => Err(InjectionError::AlreadyLoaded),
        }
    }

    /// Hands out the unload that is owed: the token to unload, once.
    pub fn unload(&mut self) -> (token: Option<u32>)
        ensures
            token == owed_unload(old(self).state),
            final(self).state == state_after_unload(old(self).state),
    {
        match self.state {
            InjectionState::Loaded(token) => {
                self.state = InjectionState::Released;
                Some(token)
            },
            _ => None,
        }
    }
}

/// Whether a failed unload is worth a warning; it never ends the work.
pub fn unload_warning(report: &Status) -> (warn: bool)
    ensures
        warn == report.failure,
{
    report.failure
}

/// After a load that succeeded, the unload is handed out exactly once: the
/// first request gives the loaded module's token and every later one gives
/// nothing. After the pair no module is held, as before the load. A load
/// that failed owes no unload.
pub proof fn law_unload_exactly_once(token: u32, failure: bool)
    ensures
        !failure ==> {
            let loaded = state_after_load(InjectionState::Idle, token, failure);
            &&& owed_unload(loaded) == Some(token)
            &&& owed_unload(state_after_unload(loaded)) == None::<u32>
            &&& owed_unload(state_after_unload(state_after_unload(loaded))) == None::<u32>
            &&& owed_unload(state_after_unload(loaded)) == owed_unload(InjectionState::Idle)
        },
        failure ==> owed_unload(state_after_load(InjectionState::Idle, token, failure))
            == None::<u32>,
{
}

} // verus!
