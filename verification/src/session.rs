//! The life of one instrumentation session as a state machine. The driver
//! performs the action that the session asks for, reports what happened as
//! an event, and gets the next action back. Whatever is reported, a loaded
//! module is unloaded once and an attached target is detached once before
//! the session finishes.

use crate::error::ProcessRemoteError;
use crate::inject::{
    load_outcome,
    owed_unload,
    state_after_load,
    state_after_unload,
    InjectionManager,
    InjectionState,
};
use crate::layout::{check_compatibility, compatibility, Layout};
use crate::sync::{Breakpoint, StopEvent};
use vstd::prelude::*;

verus! {

/// How far a session has come.
#[derive(Clone, Copy, Debug, PartialEq, Eq, Structural)]
pub enum Phase {
    /// Nothing was asked for yet.
    Idle,
    /// The debugger was asked to initialise.
    Initializing,
    /// The staging of the debugger's helper binary was asked for.
    Staging,
    /// The attach was asked for.
    Attaching,
    /// Attached; the helper binary is being removed.
    RemovingHelper,
    /// The synchronisation point is being resolved.
    ResolvingSyncPoint,
    /// The breakpoint is set and the target resumed.
    Pausing,
    /// The target is parked; its layout was asked for.
    CheckingLayout,
    /// The layout agrees; the load of the module was asked for.
    Loading,
    /// The module is loaded; its export is being resolved.
    ResolvingExport,
    /// The call of the export was asked for.
    Invoking,
    /// The unload was asked for.
    Unloading,
    /// The detach was asked for.
    Detaching,
    /// The removal of the helper binary was asked for after a failure.
    ClearingHelper,
    /// The debugger was asked to terminate.
    Terminating,
    /// Nothing is left to do.
    Finished,
}

/// Why a session ended without having done its work.
#[derive(Clone, Copy, Debug, PartialEq, Eq, Structural)]
pub enum Failure {
    /// The helper binary could not be staged.
    Environment,
    /// The debugger refused the attach.
    Attach,
    /// A symbol that the work needs is absent.
    SymbolNotFound,
    /// The target never parked at the synchronisation point.
    Synchronization,
    /// Target and controller disagree on the layout of memory.
    Incompatible(ProcessRemoteError),
    /// The target refused the module.
    Injection,
    /// The call in the target failed.
    Evaluation,
    /// An event was reported that answers no action that was asked for.
    Protocol,
}

/// What the driver reports.
#[derive(Clone, Copy, Debug, PartialEq, Eq, Structural)]
pub enum Event {
    /// The driver is ready.
    Start,
    /// The debugger is initialised.
    Initialized,
    /// The helper binary is staged.
    HelperStaged,
    /// The helper binary could not be staged.
    StagingFailed,
    /// The attach succeeded.
    Attached,
    /// The attach failed.
    AttachFailed,
    /// The helper binary is removed.
    HelperRemoved,
    /// The synchronisation point is at this address.
    SyncPointFound(u64),
    /// No symbol marks the synchronisation point.
    SyncPointMissing,
    /// The resume ended with this stop.
    Stopped(StopEvent),
    /// The target could not be resumed.
    ResumeFailed,
    /// The target reports this layout.
    LayoutReported(Layout),
    /// The module is loaded under this token.
    Loaded(u32),
    /// The module was refused.
    LoadFailed,
    /// The export is at this address.
    ExportFound(u64),
    /// The module has no such export.
    ExportMissing,
    /// The call ran.
    Invoked,
    /// The call failed.
    InvokeFailed,
    /// The module is unloaded.
    Unloaded,
    /// The unload failed.
    UnloadFailed,
    /// The target is detached.
    Detached,
    /// The detach failed.
    DetachFailed,
    /// The debugger has terminated.
    Terminated,
}

/// What the session asks the driver to do next.
#[derive(Clone, Copy, Debug, PartialEq, Eq, Structural)]
pub enum Action {
    /// Initialise the debugger.
    Initialize,
    /// Stage the debugger's helper binary in a private temporary file.
    StageHelper,
    /// Attach to the target.
    Attach,
    /// Remove the staged helper binary.
    RemoveHelper,
    /// Resolve the symbol that marks the synchronisation point.
    ResolveSyncPoint,
    /// Set a one-shot breakpoint at this address and resume the target.
    PauseAt(u64),
    /// Ask the target for its layout.
    QueryLayout,
    /// Load the module into the target.
    LoadModule,
    /// Resolve the export of the loaded module.
    ResolveExport,
    /// Call the function at this address in the target.
    Invoke(u64),
    /// Unload the module with this token.
    Unload(u32),
    /// Detach from the target.
    Detach,
    /// Terminate the debugger.
    Terminate,
    /// End with this exit code.
    Finish(u8),
}

/// One instrumentation session.
#[derive(Clone, Copy, Debug, PartialEq, Eq, Structural)]
pub struct Session {
    /// How far the session has come.
    pub phase: Phase,
    /// The controller's own layout.
    pub host: Layout,
    /// The debugger was asked to initialise and not yet to terminate.
    pub initialized: bool,
    /// The helper binary is staged and its removal was not asked for yet.
    pub helper_staged: bool,
    /// The target is attached and its detach was not asked for yet.
    pub attached: bool,
    /// The target's layout was found to agree with the controller's.
    pub layout_checked: bool,
    /// The breakpoint that was set, if one was.
    pub breakpoint: Option<Breakpoint>,
    /// The account of the module: what was loaded and whether its unload
    /// was asked for.
    pub injection: InjectionManager,
    /// Why the work was given up, if it was.
    pub failure: Option<Failure>,
    /// The unload failed; the session went on.
    pub unload_warning: bool,
}

impl Session {
    /// A session before its start.
    pub open spec fn initial(host: Layout) -> Session {
        Session {
            phase: Phase::Idle,
            host,
            initialized: false,
            helper_staged: false,
            attached: false,
            layout_checked: false,
            breakpoint: None,
            injection: InjectionManager { state: InjectionState::Idle },
            failure: None,
            unload_warning: false,
        }
    }

    /// The exit code that the session ends with: 0 for work done, 1 for
    /// work given up.
    pub open spec fn exit_code(self) -> u8 {
        if self.failure is None {
            0
        } else {
            1
        }
    }

    /// The session with `failure` recorded as the reason for giving up,
    /// unless an earlier reason stands.
    pub open spec fn failed(self, failure: Failure) -> Session {
        Session {
            failure: if self.failure is None {
                Some(failure)
            } else {
                self.failure
            },
            ..self
        }
    }

    /// Winding down: what is still held is given back, one thing at a time:
    /// the module is unloaded, then the target detached, then the helper
    /// binary removed, then the debugger terminated; and then the session
    /// finishes.
    pub open spec fn wind_down(self) -> (Session, Action) {
        if owed_unload(self.injection.state) is Some {
            (
                Session {
                    phase: Phase::Unloading,
                    injection: InjectionManager { state: state_after_unload(self.injection.state) },
                    ..self
                },
                Action::Unload(owed_unload(self.injection.state)->0),
            )
        } else if self.attached {
            (Session { phase: Phase::Detaching, attached: false, ..self }, Action::Detach)
        } else if self.helper_staged {
            (
                Session { phase: Phase::ClearingHelper, helper_staged: false, ..self },
                Action::RemoveHelper,
            )
        } else if self.initialized {
            (Session { phase: Phase::Terminating, initialized: false, ..self }, Action::Terminate)
        } else {
            (Session { phase: Phase::Finished, ..self }, Action::Finish(self.exit_code()))
        }
    }

    /// The session after `event`, and the action it asks for next. An event
    /// that answers the action asked for last moves the work on or, where it
    /// reports a failure, starts the winding down; any other event is a
    /// breach of protocol and starts the winding down too.
    pub open spec fn step(self, event: Event) -> (Session, Action) {
        match self.phase {
            Phase::Idle => match event {
                Event::Start => (
                    Session { phase: Phase::Initializing, initialized: true, ..self },
                    Action::Initialize,
                ),
                _ => self.failed(Failure::Protocol).wind_down(),
            },
            Phase::Initializing => match event {
                Event::Initialized => (
                    Session { phase: Phase::Staging, ..self },
                    Action::StageHelper,
                ),
                _ => self.failed(Failure::Protocol).wind_down(),
            },
            Phase::Staging => match event {
                Event::HelperStaged => (
                    Session { phase: Phase::Attaching, helper_staged: true, ..self },
                    Action::Attach,
                ),
                Event::StagingFailed => self.failed(Failure::Environment).wind_down(),
                _ => self.failed(Failure::Protocol).wind_down(),
            },
            Phase::Attaching => match event {
                Event::Attached => (
                    Session {
                        phase: Phase::RemovingHelper,
                        attached: true,
                        helper_staged: false,
                        ..self
                    },
                    Action::RemoveHelper,
                ),
                Event::AttachFailed => self.failed(Failure::Attach).wind_down(),
                _ => self.failed(Failure::Protocol).wind_down(),
            },
            Phase::RemovingHelper => match event {
                Event::HelperRemoved => (
                    Session { phase: Phase::ResolvingSyncPoint, ..self },
                    Action::ResolveSyncPoint,
                ),
                _ => self.failed(Failure::Protocol).wind_down(),
            },
            Phase::ResolvingSyncPoint => match event {
                Event::SyncPointFound(address) => (
                    Session {
                        phase: Phase::Pausing,
                        breakpoint: Some(Breakpoint::armed(address)),
                        ..self
                    },
                    Action::PauseAt(address),
                ),
                Event::SyncPointMissing => self.failed(Failure::SymbolNotFound).wind_down(),
                _ => self.failed(Failure::Protocol).wind_down(),
            },
            Phase::Pausing => match event {
                Event::Stopped(stop) => match self.breakpoint {
                    Some(breakpoint) if breakpoint.pause_outcome(stop) is Ok => (
                        Session {
                            phase: Phase::CheckingLayout,
                            breakpoint: Some(breakpoint.after_hit()),
                            ..self
                        },
                        Action::QueryLayout,
                    ),
                    _ => self.failed(Failure::Synchronization).wind_down(),
                },
                Event::ResumeFailed => self.failed(Failure::Synchronization).wind_down(),
                _ => self.failed(Failure::Protocol).wind_down(),
            },
            Phase::CheckingLayout => match event {
                Event::LayoutReported(target) => match compatibility(target, self.host) {
                    Ok(_) => (
                        Session { phase: Phase::Loading, layout_checked: true, ..self },
                        Action::LoadModule,
                    ),
                    Err(error) => self.failed(Failure::Incompatible(error)).wind_down(),
                },
                _ => self.failed(Failure::Protocol).wind_down(),
            },
            Phase::Loading => match event {
                Event::Loaded(token) => if load_outcome(self.injection.state, token, false) is Ok {
                    (
                        Session {
                            phase: Phase::ResolvingExport,
                            injection: InjectionManager {
                                state: state_after_load(self.injection.state, token, false),
                            },
                            ..self
                        },
                        Action::ResolveExport,
                    )
                } else {
                    self.failed(Failure::Injection).wind_down()
                },
                Event::LoadFailed => self.failed(Failure::Injection).wind_down(),
                _ => self.failed(Failure::Protocol).wind_down(),
            },
            Phase::ResolvingExport => match event {
                Event::ExportFound(address) => (
                    Session { phase: Phase::Invoking, ..self },
                    Action::Invoke(address),
                ),
                Event::ExportMissing => self.failed(Failure::SymbolNotFound).wind_down(),
                _ => self.failed(Failure::Protocol).wind_down(),
            },
            Phase::Invoking => match event {
                Event::Invoked => self.wind_down(),
                Event::InvokeFailed => self.failed(Failure::Evaluation).wind_down(),
                _ => self.failed(Failure::Protocol).wind_down(),
            },
            Phase::Unloading => match event {
                Event::Unloaded => self.wind_down(),
                Event::UnloadFailed => (Session { unload_warning: true, ..self }).wind_down(),
                _ => self.failed(Failure::Protocol).wind_down(),
            },
            Phase::Detaching => match event {
                Event::Detached => self.wind_down(),
                Event::DetachFailed => self.wind_down(),
                _ => self.failed(Failure::Protocol).wind_down(),
            },
            Phase::ClearingHelper => match event {
                Event::HelperRemoved => self.wind_down(),
                _ => self.failed(Failure::Protocol).wind_down(),
            },
            Phase::Terminating => match event {
                Event::Terminated => self.wind_down(),
                _ => self.failed(Failure::Protocol).wind_down(),
            },
            Phase::Finished => (self, Action::Finish(self.exit_code())),
        }
    }

    /// What holds of every session that was started by [`Session::new`] and
    /// moved on by [`Session::advance`] only.
    pub open spec fn wf(self) -> bool {
        &&& owed_unload(self.injection.state) is Some <==> (self.phase == Phase::ResolvingExport
            || self.phase == Phase::Invoking)
        &&& !past_taking(self.phase, Holding::Module) ==> self.injection.state
            == InjectionState::Idle
        &&& self.attached <==> (self.phase == Phase::RemovingHelper || self.phase
            == Phase::ResolvingSyncPoint || self.phase == Phase::Pausing || self.phase
            == Phase::CheckingLayout || self.phase == Phase::Loading || self.phase
            == Phase::ResolvingExport || self.phase == Phase::Invoking || self.phase
            == Phase::Unloading)
        &&& self.helper_staged <==> self.phase == Phase::Attaching
        &&& self.initialized <==> (self.phase != Phase::Idle && self.phase != Phase::Terminating
            && self.phase != Phase::Finished)
        &&& (self.phase == Phase::Loading || self.phase == Phase::ResolvingExport || self.phase
            == Phase::Invoking) ==> self.layout_checked
        &&& self.failure is Some ==> (self.phase == Phase::Unloading || self.phase
            == Phase::Detaching || self.phase == Phase::ClearingHelper || self.phase
            == Phase::Terminating || self.phase == Phase::Finished)
        &&& self.phase == Phase::Pausing ==> self.breakpoint is Some
    }

    /// A session before its start, for a controller with layout `host`.
    pub fn new(host: Layout) -> (session: Session)
        ensures
            session == Session::initial(host),
            session.wf(),
    {
        Session {
            phase: Phase::Idle,
            host,
            initialized: false,
            helper_staged: false,
            attached: false,
            layout_checked: false,
            breakpoint: None,
            injection: InjectionManager { state: InjectionState::Idle },
            failure: None,
            unload_warning: false,
        }
    }

    /// Whether nothing is left to do.
    pub fn is_finished(&self) -> (finished: bool)
        ensures
            finished == (self.phase == Phase::Finished),
    {
        self.phase == Phase::Finished
    }

    /// Records why the work is given up, unless an earlier reason stands.
    fn fail(&mut self, failure: Failure)
        ensures
            *final(self) == old(self).failed(failure),
    {
        if self.failure.is_none() {
            self.failure = Some(failure);
        }
    }

    /// Gives back the next thing that is still held, or finishes.
    fn finish(&mut self) -> (action: Action)
        ensures
            (*final(self), action) == old(self).wind_down(),
    {
        match self.injection.unload() {
            Some(token) => {
                self.phase = Phase::Unloading;
                return Action::Unload(token);
            },
            None => {},
        }
        if self.attached {
            self.phase = Phase::Detaching;
            self.attached = false;
            Action::Detach
        } else if self.helper_staged {
            self.phase = Phase::ClearingHelper;
            self.helper_staged = false;
            Action::RemoveHelper
        } else if self.initialized {
            self.phase = Phase::Terminating;
            self.initialized = false;
            Action::Terminate
        } else {
            self.phase = Phase::Finished;
            Action::Finish(if self.failure.is_none() {
                0
            } else {
                1
            })
        }
    }

    /// Gives the work up and starts the winding down.
    fn give_up(&mut self, failure: Failure) -> (action: Action)
        ensures
            (*final(self), action) == old(self).failed(failure).wind_down(),
    {
        self.fail(failure);
        self.finish()
    }

    /// The step taken in the phase that the name tells.
    fn on_idle(&mut self, event: Event) -> (action: Action)
        requires
            old(self).phase == Phase::Idle,
        ensures
            (*final(self), action) == old(self).step(event),
    {
        match event {
            Event::Start => {
                self.phase = Phase::Initializing;
                self.initialized = true;
                Action::Initialize
            },
            _ => self.give_up(Failure::Protocol),
        }
    }

    /// The step taken in the phase that the name tells.
    fn on_initializing(&mut self, event: Event) -> (action: Action)
        requires
            old(self).phase == Phase::Initializing,
        ensures
            (*final(self), action) == old(self).step(event),
    {
        match event {
            Event::Initialized => {
                self.phase = Phase::Staging;
                Action::StageHelper
            },
            _ => self.give_up(Failure::Protocol),
        }
    }

    /// The step taken in the phase that the name tells.
    fn on_staging(&mut self, event: Event) -> (action: Action)
        requires
            old(self).phase == Phase::Staging,
        ensures
            (*final(self), action) == old(self).step(event),
    {
        match event {
            Event::HelperStaged => {
                self.phase = Phase::Attaching;
                self.helper_staged = true;
                Action::Attach
            },
            Event::StagingFailed => self.give_up(Failure::Environment),
            _ => self.give_up(Failure::Protocol),
        }
    }

    /// The step taken in the phase that the name tells.
    fn on_removing_helper(&mut self, event: Event) -> (action: Action)
        requires
            old(self).phase == Phase::RemovingHelper,
        ensures
            (*final(self), action) == old(self).step(event),
    {
        match event {
            Event::HelperRemoved => {
                self.phase = Phase::ResolvingSyncPoint;
                Action::ResolveSyncPoint
            },
            _ => self.give_up(Failure::Protocol),
        }
    }

    /// The step taken in the phase that the name tells.
    fn on_clearing_helper(&mut self, event: Event) -> (action: Action)
        requires
            old(self).phase == Phase::ClearingHelper,
        ensures
            (*final(self), action) == old(self).step(event),
    {
        match event {
            Event::HelperRemoved => self.finish(),
            _ => self.give_up(Failure::Protocol),
        }
    }

    /// The step taken in the phase that the name tells.
    fn on_terminating(&mut self, event: Event) -> (action: Action)
        requires
            old(self).phase == Phase::Terminating,
        ensures
            (*final(self), action) == old(self).step(event),
    {
        match event {
            Event::Terminated => self.finish(),
            _ => self.give_up(Failure::Protocol),
        }
    }

    /// The step taken in the phase that the name tells.
    fn on_attaching(&mut self, event: Event) -> (action: Action)
        requires
            old(self).phase == Phase::Attaching,
        ensures
            (*final(self), action) == old(self).step(event),
    {
        match event {
            Event::Attached => {
                self.phase = Phase::RemovingHelper;
                self.attached = true;
                self.helper_staged = false;
                Action::RemoveHelper
            },
            Event::AttachFailed => self.give_up(Failure::Attach),
            _ => self.give_up(Failure::Protocol),
        }
    }

    /// The step taken in the phase that the name tells.
    fn on_resolving_sync_point(&mut self, event: Event) -> (action: Action)
        requires
            old(self).phase == Phase::ResolvingSyncPoint,
        ensures
            (*final(self), action) == old(self).step(event),
    {
        match event {
            Event::SyncPointFound(address) => {
                self.phase = Phase::Pausing;
                self.breakpoint = Some(Breakpoint::one_shot_at(address));
                Action::PauseAt(address)
            },
            Event::SyncPointMissing => self.give_up(Failure::SymbolNotFound),
            _ => self.give_up(Failure::Protocol),
        }
    }

    /// The step taken in the phase that the name tells.
    fn on_pausing(&mut self, event: Event) -> (action: Action)
        requires
            old(self).phase == Phase::Pausing,
        ensures
            (*final(self), action) == old(self).step(event),
    {
        match event {
            Event::Stopped(stop) => {
                match self.breakpoint {
                    Some(breakpoint) => {
                        let mut breakpoint: Breakpoint = breakpoint;
                        match breakpoint.observe_stop(stop) {
                            Ok(_) => {
                                self.phase = Phase::CheckingLayout;
                                self.breakpoint = Some(breakpoint);
                                Action::QueryLayout
                            },
                            Err(_) => self.give_up(Failure::Synchronization),
                        }
                    },
                    None => self.give_up(Failure::Synchronization),
                }
            },
            Event::ResumeFailed => self.give_up(Failure::Synchronization),
            _ => self.give_up(Failure::Protocol),
        }
    }

    /// The step taken in the phase that the name tells.
    fn on_checking_layout(&mut self, event: Event) -> (action: Action)
        requires
            old(self).phase == Phase::CheckingLayout,
        ensures
            (*final(self), action) == old(self).step(event),
    {
        match event {
            Event::LayoutReported(target) => match check_compatibility(target, self.host) {
                Ok(_) => {
                    self.phase = Phase::Loading;
                    self.layout_checked = true;
                    Action::LoadModule
                },
                Err(error) => self.give_up(Failure::Incompatible(error)),
            },
            _ => self.give_up(Failure::Protocol),
        }
    }

    /// The step taken in the phase that the name tells.
    fn on_loading(&mut self, event: Event) -> (action: Action)
        requires
            old(self).phase == Phase::Loading,
        ensures
            (*final(self), action) == old(self).step(event),
    {
        match event {
            Event::Loaded(token) => match self.injection.record_loaded(token) {
                Ok(_) => {
                    self.phase = Phase::ResolvingExport;
                    Action::ResolveExport
                },
                Err(_) => self.give_up(Failure::Injection),
            },
            Event::LoadFailed => self.give_up(Failure::Injection),
            _ => self.give_up(Failure::Protocol),
        }
    }

    /// The step taken in the phase that the name tells.
    fn on_resolving_export(&mut self, event: Event) -> (action: Action)
        requires
            old(self).phase == Phase::ResolvingExport,
        ensures
            (*final(self), action) == old(self).step(event),
    {
        match event {
            Event::ExportFound(address) => {
                self.phase = Phase::Invoking;
                Action::Invoke(address)
            },
            Event::ExportMissing => self.give_up(Failure::SymbolNotFound),
            _ => self.give_up(Failure::Protocol),
        }
    }

    /// The step taken in the phase that the name tells.
    fn on_invoking(&mut self, event: Event) -> (action: Action)
        requires
            old(self).phase == Phase::Invoking,
        ensures
            (*final(self), action) == old(self).step(event),
    {
        match event {
            Event::Invoked => self.finish(),
            Event::InvokeFailed => self.give_up(Failure::Evaluation),
            _ => self.give_up(Failure::Protocol),
        }
    }

    /// The step taken in the phase that the name tells.
    fn on_unloading(&mut self, event: Event) -> (action: Action)
        requires
            old(self).phase == Phase::Unloading,
        ensures
            (*final(self), action) == old(self).step(event),
    {
        match event {
            Event::Unloaded => self.finish(),
            Event::UnloadFailed => {
                self.unload_warning = true;
                self.finish()
            },
            _ => self.give_up(Failure::Protocol),
        }
    }

    /// The step taken in the phase that the name tells.
    fn on_detaching(&mut self, event: Event) -> (action: Action)
        requires
            old(self).phase == Phase::Detaching,
        ensures
            (*final(self), action) == old(self).step(event),
    {
        match event {
            Event::Detached => self.finish(),
            Event::DetachFailed => self.finish(),
            _ => self.give_up(Failure::Protocol),
        }
    }

    /// Takes in what the driver reports and says what to do next.
    pub fn advance(&mut self, event: Event) -> (action: Action)
        ensures
            (*final(self), action) == old(self).step(event),
            old(self).wf() ==> final(self).wf(),
    {
        proof {
            lemma_step_keeps_wf(*self, event);
        }
        match self.phase {
            Phase::Idle => self.on_idle(event),
            Phase::Initializing => self.on_initializing(event),
            Phase::Staging => self.on_staging(event),
            Phase::Attaching => self.on_attaching(event),
            Phase::RemovingHelper => self.on_removing_helper(event),
            Phase::ResolvingSyncPoint => self.on_resolving_sync_point(event),
            Phase::Pausing => self.on_pausing(event),
            Phase::CheckingLayout => self.on_checking_layout(event),
            Phase::Loading => self.on_loading(event),
            Phase::ResolvingExport => self.on_resolving_export(event),
            Phase::Invoking => self.on_invoking(event),
            Phase::Unloading => self.on_unloading(event),
            Phase::Detaching => self.on_detaching(event),
            Phase::ClearingHelper => self.on_clearing_helper(event),
            Phase::Terminating => self.on_terminating(event),
            Phase::Finished => Action::Finish(if self.failure.is_none() {
                0
            } else {
                1
            }),
        }
    }
}

/// A step keeps a session well formed.
pub proof fn lemma_step_keeps_wf(session: Session, event: Event)
    ensures
        session.wf() ==> session.step(event).0.wf(),
{
}

/// The session that `events` lead to from `start`, and the actions asked
/// for on the way, one for each event.
pub open spec fn run(start: Session, events: Seq<Event>) -> (Session, Seq<Action>)
    decreases events.len(),
{
    if events.len() == 0 {
        (start, Seq::empty())
    } else {
        let (before, actions) = run(start, events.drop_last());
        let (after, action) = before.step(events.last());
        (after, actions.push(action))
    }
}

/// What a session can hold and has to give back before it finishes.
#[derive(Clone, Copy, Debug, PartialEq, Eq, Structural)]
pub enum Holding {
    /// The debugger, initialised: given back by `Terminate`.
    Debugger,
    /// The staged helper binary: given back by `RemoveHelper`.
    Helper,
    /// The attached target: given back by `Detach`.
    Target,
    /// The loaded module: given back by `Unload`.
    Module,
}

/// The session holds the thing.
pub open spec fn holds(session: Session, what: Holding) -> bool {
    match what {
        Holding::Debugger => session.initialized,
        Holding::Helper => session.helper_staged,
        Holding::Target => session.attached,
        Holding::Module => owed_unload(session.injection.state) is Some,
    }
}

/// With this event the session comes to hold the thing.
pub open spec fn takes(session: Session, event: Event, what: Holding) -> bool {
    match what {
        Holding::Debugger => session.phase == Phase::Idle && event is Start,
        Holding::Helper => session.phase == Phase::Staging && event is HelperStaged,
        Holding::Target => session.phase == Phase::Attaching && event is Attached,
        Holding::Module => session.phase == Phase::Loading && event is Loaded,
    }
}

/// The action asks for the thing to be given back.
pub open spec fn gives_back(action: Action, what: Holding) -> bool {
    match what {
        Holding::Debugger => action is Terminate,
        Holding::Helper => action is RemoveHelper,
        Holding::Target => action is Detach,
        Holding::Module => action is Unload,
    }
}

/// The phase is one that comes after the thing was taken.
pub open spec fn past_taking(phase: Phase, what: Holding) -> bool {
    match what {
        Holding::Debugger => phase != Phase::Idle,
        Holding::Helper => phase != Phase::Idle && phase != Phase::Initializing && phase
            != Phase::Staging,
        Holding::Target => phase != Phase::Idle && phase != Phase::Initializing && phase
            != Phase::Staging && phase != Phase::Attaching,
        Holding::Module => phase == Phase::ResolvingExport || phase == Phase::Invoking || phase
            == Phase::Unloading || phase == Phase::Detaching || phase == Phase::ClearingHelper
            || phase == Phase::Terminating || phase == Phase::Finished,
    }
}

/// One if the condition holds, zero if not.
pub open spec fn one_if(condition: bool) -> nat {
    if condition {
        1
    } else {
        0
    }
}

/// How many of `actions` ask for the thing to be given back.
pub open spec fn given_back(actions: Seq<Action>, what: Holding) -> nat
    decreases actions.len(),
{
    if actions.len() == 0 {
        0
    } else {
        given_back(actions.drop_last(), what) + one_if(gives_back(actions.last(), what))
    }
}

/// How often the session came to hold the thing on the way from `start`
/// through `events`.
pub open spec fn taken(start: Session, events: Seq<Event>, what: Holding) -> nat
    decreases events.len(),
{
    if events.len() == 0 {
        0
    } else {
        taken(start, events.drop_last(), what) + one_if(
            takes(run(start, events.drop_last()).0, events.last(), what),
        )
    }
}

/// In one step of a well-formed session, a thing that is taken or held is
/// afterwards either still held or asked to be given back, and nothing is
/// asked to be given back that was not held. What was taken once is not
/// taken again.
pub proof fn lemma_step_accounts(session: Session, event: Event, what: Holding)
    requires
        session.wf(),
    ensures
        ({
            let (after, action) = session.step(event);
            &&& one_if(gives_back(action, what)) + one_if(holds(after, what)) == one_if(
                holds(session, what),
            ) + one_if(takes(session, event, what))
            &&& past_taking(session.phase, what) ==> past_taking(after.phase, what)
            &&& takes(session, event, what) ==> past_taking(after.phase, what)
            &&& takes(session, event, what) ==> !past_taking(session.phase, what)
        }),
{
}

/// What an action tells of the session that asks for it: work on the
/// target is asked for only while the target is attached; the module is
/// loaded and called only after the layouts were found to agree and while
/// nothing has failed; a breakpoint asked for is the one-shot breakpoint
/// that the session holds; the debugger is terminated only after the target
/// was detached; and the session finishes only with nothing held, with exit
/// code 0 exactly when the work was not given up.
pub proof fn law_step_order(session: Session, event: Event)
    requires
        session.wf(),
    ensures
        ({
            let (after, action) = session.step(event);
            &&& after.wf()
            &&& (action is RemoveHelper && session.phase == Phase::Attaching && event is Attached
                || action is ResolveSyncPoint || action is PauseAt || action is QueryLayout
                || action is LoadModule || action is ResolveExport || action is Invoke
                || action is Unload) ==> after.attached && after.initialized
            &&& (action is LoadModule || action is ResolveExport || action is Invoke)
                ==> after.layout_checked && after.failure is None
            &&& action matches Action::PauseAt(address) ==> after.breakpoint == Some(
                Breakpoint::armed(address),
            )
            &&& action is Terminate ==> !after.attached && owed_unload(after.injection.state)
                is None && !after.helper_staged
            &&& action matches Action::Finish(code) ==> {
                &&& after.phase == Phase::Finished
                &&& !after.initialized
                &&& !after.helper_staged
                &&& !after.attached
                &&& owed_unload(after.injection.state) is None
                &&& code == after.exit_code()
                &&& (code == 0 <==> after.failure is None)
            }
        }),
{
}

/// Whatever events are reported to a new session, in whatever order: the
/// session stays well formed and asks for one action for each event. Each
/// of the debugger, the helper binary, the target and the module is taken
/// at most once, and what was taken is either still held or was asked to
/// be given back exactly once. A session that has finished holds nothing,
/// so for everything it took it asked exactly once to give it back: one
/// unload for a module that was loaded, one detach for a target that was
/// attached, also where the work in between failed.
pub proof fn law_cleanup_exactly_once(host: Layout, events: Seq<Event>, what: Holding)
    ensures
        ({
            let start = Session::initial(host);
            let (end, actions) = run(start, events);
            &&& end.wf()
            &&& actions.len() == events.len()
            &&& taken(start, events, what) <= 1
            &&& taken(start, events, what) == 1 ==> past_taking(end.phase, what)
            &&& given_back(actions, what) + one_if(holds(end, what)) == taken(start, events, what)
            &&& end.phase == Phase::Finished ==> given_back(actions, what) == taken(
                start,
                events,
                what,
            )
        }),
    decreases events.len(),
{
    let start = Session::initial(host);
    if events.len() > 0 {
        let front = events.drop_last();
        law_cleanup_exactly_once(host, front, what);
        let (before, actions) = run(start, front);
        let (after, action) = before.step(events.last());
        lemma_step_keeps_wf(before, events.last());
        lemma_step_accounts(before, events.last(), what);
        assert(actions.push(action).drop_last() =~= actions);
    }
}

} // verus!
