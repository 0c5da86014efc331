//! The core runtime lifecycle: uninitialized, running, stopped for good.

use vstd::prelude::*;
use crate::config::Config;
use crate::context::ApplicationContext;

verus! {

/// A refused lifecycle transition.
#[derive(Debug, Clone, Copy, PartialEq, Eq, Structural)]
pub enum CoreError {
    /// `start` while already running.
    AlreadyRunning,
    /// `stop` while not running.
    NotRunning,
    /// `start` after the core was stopped; it cannot be restarted.
    AlreadyStopped,
}

/// The text of a lifecycle error.
pub open spec fn core_error_text(e: CoreError) -> Seq<char> {
    match e {
        CoreError::AlreadyRunning => "Core is already running"@,
        CoreError::NotRunning => "Core is not running"@,
        CoreError::AlreadyStopped => "Core has already been stopped"@,
    }
}

impl CoreError {
    /// The human-readable description of the error.
    pub fn message(&self) -> (r: String)
        ensures
            r@ == core_error_text(*self),
    {
        match self {
            CoreError::AlreadyRunning => "Core is already running".to_owned(),
            CoreError::NotRunning => "Core is not running".to_owned(),
            CoreError::AlreadyStopped => "Core has already been stopped".to_owned(),
        }
    }
}

/// The lifecycle phase of the core.
#[derive(Debug, Clone, Copy, PartialEq, Eq, Structural)]
pub enum CoreState {
    /// Constructed, not yet started.
    Uninitialized,
    /// Started.
    Running,
    /// Stopped; final.
    Stopped,
}

/// The outcome of `start` in a phase: the next phase, or the refusal.
pub open spec fn start_outcome(s: CoreState) -> Result<CoreState, CoreError> {
    match s {
        CoreState::Uninitialized => Ok(CoreState::Running),
        CoreState::Running => Err(CoreError::AlreadyRunning),
        CoreState::Stopped => Err(CoreError::AlreadyStopped),
    }
}

/// The outcome of `stop` in a phase: the next phase, or the refusal.
pub open spec fn stop_outcome(s: CoreState) -> Result<CoreState, CoreError> {
    match s {
        CoreState::Running => Ok(CoreState::Stopped),
        _ => Err(CoreError::NotRunning),
    }
}

/// The phase after an outcome: the new phase on success, else unchanged.
pub open spec fn phase_after(s: CoreState, o: Result<CoreState, CoreError>) -> CoreState {
    match o {
        Ok(n) => n,
        Err(_) => s,
    }
}

/// The core runtime: owns the application context and moves through
/// `Uninitialized -> Running -> Stopped`.
#[derive(Debug)]
pub struct Core {
    state: CoreState,
    context: ApplicationContext,
}

impl Core {
    /// The current lifecycle phase.
    pub closed spec fn phase(&self) -> CoreState {
        self.state
    }

    /// The configuration the core's context owns.
    pub closed spec fn spec_config(&self) -> Config {
        self.context.spec_config()
    }

    /// An uninitialized core with the default configuration.
    pub fn new() -> (r: Self)
        ensures
            r.phase() == CoreState::Uninitialized,
            r.spec_config().is_default(),
    {
        Core { state: CoreState::Uninitialized, context: ApplicationContext::default() }
    }

    /// An uninitialized core owning `config`.
    pub fn with_config(config: Config) -> (r: Self)
        ensures
            r.phase() == CoreState::Uninitialized,
            r.spec_config() == config,
    {
        Core { state: CoreState::Uninitialized, context: ApplicationContext::new(config) }
    }

    /// The application context.
    pub fn context(&self) -> (r: &ApplicationContext)
        ensures
            r.spec_config() == self.spec_config(),
    {
        &self.context
    }

    /// The current lifecycle phase.
    pub fn state(&self) -> (r: CoreState)
        ensures
            r == self.phase(),
    {
        self.state
    }

    /// Starts the core: `Uninitialized` becomes `Running`; otherwise the
    /// phase is kept and the refusal returned.
    pub fn start(&mut self) -> (r: Result<(), CoreError>)
        ensures
            final(self).phase() == phase_after(old(self).phase(), start_outcome(old(self).phase())),
            final(self).spec_config() == old(self).spec_config(),
            match start_outcome(old(self).phase()) {
                Ok(_) => r is Ok,
                Err(e) => r == Err::<(), CoreError>(e),
            },
    {
        match self.state {
            CoreState::Uninitialized => {
                self.state = CoreState::Running;
                Ok(())
            },
            CoreState::Running => Err(CoreError::AlreadyRunning),
            CoreState::Stopped => Err(CoreError::AlreadyStopped),
        }
    }

    /// Stops the core: `Running` becomes `Stopped`; otherwise the phase is
    /// kept and `NotRunning` returned.
    pub fn stop(&mut self) -> (r: Result<(), CoreError>)
        ensures
            final(self).phase() == phase_after(old(self).phase(), stop_outcome(old(self).phase())),
            final(self).spec_config() == old(self).spec_config(),
            match stop_outcome(old(self).phase()) {
                Ok(_) => r is Ok,
                Err(e) => r == Err::<(), CoreError>(e),
            },
    {
        match self.state {
            CoreState::Running => {
                self.state = CoreState::Stopped;
                Ok(())
            },
            _ => Err(CoreError::NotRunning),
        }
    }
}

impl Default for Core {
    fn default() -> (r: Self)
        ensures
            r.phase() == CoreState::Uninitialized,
            r.spec_config().is_default(),
    {
        Core::new()
    }
}

/// A fresh core starts and then stops, ending `Stopped`.
pub proof fn law_core_lifecycle()
    ensures
        start_outcome(CoreState::Uninitialized) == Ok::<CoreState, CoreError>(CoreState::Running),
        stop_outcome(CoreState::Running) == Ok::<CoreState, CoreError>(CoreState::Stopped),
{
}

/// A stopped core stays stopped: every later `start` or `stop` is refused
/// and leaves it `Stopped`.
pub proof fn law_core_stopped_is_final()
    ensures
        start_outcome(CoreState::Stopped) == Err::<CoreState, CoreError>(CoreError::AlreadyStopped),
        stop_outcome(CoreState::Stopped) == Err::<CoreState, CoreError>(CoreError::NotRunning),
        phase_after(CoreState::Stopped, start_outcome(CoreState::Stopped)) == CoreState::Stopped,
        phase_after(CoreState::Stopped, stop_outcome(CoreState::Stopped)) == CoreState::Stopped,
{
}

/// Every refused transition leaves the phase unchanged, and no transition
/// leads back to `Uninitialized` from another phase.
pub proof fn law_core_transitions(s: CoreState)
    ensures
        start_outcome(s) is Err ==> phase_after(s, start_outcome(s)) == s,
        stop_outcome(s) is Err ==> phase_after(s, stop_outcome(s)) == s,
        phase_after(s, start_outcome(s)) != CoreState::Uninitialized,
        phase_after(s, stop_outcome(s)) == CoreState::Uninitialized ==> s == CoreState::Uninitialized,
{
}

} // verus!
