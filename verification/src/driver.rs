//! The runtime driver's protocol: the strictly ordered sequence the embedder
//! walks from engine creation to a drained event loop.
//!
//! The embedder performs each stage — engine setup, context creation, entry
//! evaluation, the `main` call, the event loop — against the engine; the
//! driver records how far the run has come and admits each stage only after
//! the one before it. In particular the event loop starts only after `main`
//! has returned, and `main` is called only when the entry module's namespace
//! holds a callable `main`.

use vstd::prelude::*;

verus! {

/// How far a run has come.
#[derive(PartialEq, Eq, Structural, Clone, Copy, Debug)]
pub enum RuntimePhase {
    /// The engine is initialized; the task registry and module loader are
    /// injected into its state slots.
    EngineReady,
    /// The global template is populated and the context, with its host
    /// callbacks, stands.
    ContextReady,
    /// The entry module is compiled, instantiated and evaluated.
    EntryEvaluated,
    /// `main` was found callable, called, and has returned its value.
    MainReturned,
    /// The event loop has drained; the run is over.
    LoopDone,
}

/// Why a run aborts.
#[derive(PartialEq, Eq, Structural, Clone, Copy, Debug)]
pub enum RuntimeError {
    /// The entry module's namespace has no `main`, or `main` is not callable.
    MissingMain,
}

/// The driver: the run's phase, stepped stage by stage.
pub struct RuntimeDriver {
    phase: RuntimePhase,
}

impl RuntimeDriver {
    /// The current phase.
    pub closed spec fn phase(self) -> RuntimePhase {
        self.phase
    }

    /// A run begins when the engine stands ready with its state slots filled.
    pub fn start() -> (driver: RuntimeDriver)
        ensures
            driver.phase() == RuntimePhase::EngineReady,
    {
        RuntimeDriver { phase: RuntimePhase::EngineReady }
    }

    /// The context is created, with globals and host callbacks, only on a
    /// ready engine.
    pub fn context_ready(&mut self)
        requires
            old(self).phase() == RuntimePhase::EngineReady,
        ensures
            final(self).phase() == RuntimePhase::ContextReady,
    {
        self.phase = RuntimePhase::ContextReady;
    }

    /// The entry module is loaded and evaluated only inside a standing
    /// context.
    pub fn entry_evaluated(&mut self)
        requires
            old(self).phase() == RuntimePhase::ContextReady,
        ensures
            final(self).phase() == RuntimePhase::EntryEvaluated,
    {
        self.phase = RuntimePhase::EntryEvaluated;
    }

    /// `main` is called only after the entry module has evaluated, and only
    /// when the namespace holds a callable `main`; otherwise the run aborts.
    pub fn main_called(&mut self, main_is_function: bool) -> (outcome: Result<(), RuntimeError>)
        requires
            old(self).phase() == RuntimePhase::EntryEvaluated,
        ensures
            main_is_function <==> outcome is Ok,
            outcome is Ok ==> final(self).phase() == RuntimePhase::MainReturned,
            outcome is Err ==> final(self).phase() == old(self).phase() && outcome == Err::<
                (),
                RuntimeError,
            >(RuntimeError::MissingMain),
    {
        if main_is_function {
            self.phase = RuntimePhase::MainReturned;
            Ok(())
        } else {
            Err(RuntimeError::MissingMain)
        }
    }

    /// The event loop runs only after `main` has fully executed and returned.
    pub fn loop_finished(&mut self)
        requires
            old(self).phase() == RuntimePhase::MainReturned,
        ensures
            final(self).phase() == RuntimePhase::LoopDone,
    {
        self.phase = RuntimePhase::LoopDone;
    }
}

} // verus!
