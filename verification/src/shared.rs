//! The selection in a slot that the threads of a process share.
//!
//! The slot holds the code of a `SelectionState` and is only ever read,
//! exchanged and stored atomically. Between two accesses another thread
//! may have changed it, so what is read is all that an operation can go by:
//! the contracts here state what holds whatever was read, and the functions
//! of `selection` and `launcher` state what is done with each reading.

use vstd::prelude::*;
use std::sync::atomic::{AtomicUsize, Ordering};
use crate::backend::Backend;
use crate::launcher::{
    current_thread_is_main,
    launch_outcome,
    prepare_outcome,
    BackendConfiguration,
    LaunchError,
    LaunchPlan,
    Refusal,
};
use crate::selection::{code_is_launched, SelectionState};

verus! {

/// A selection that several threads may read and change at once.
pub struct SharedSelection {
    slot: AtomicUsize,
}

impl SharedSelection {
    /// A slot in which nothing is decided.
    pub fn new() -> (shared: SharedSelection) {
        SharedSelection { slot: AtomicUsize::new(0) }
    }

    /// The state that the slot holds at the moment, or `None` where the slot
    /// holds no code of a state.
    pub fn load(&self) -> (state: Option<SelectionState>) {
        SelectionState::from_code(self.slot.load(Ordering::Relaxed))
    }

    /// Overwrites the selected backend, unless the application was launched.
    ///
    /// The slot is read, and then exchanged only if it still holds what was
    /// read: an overwrite that another decision overtakes is lost. A slot
    /// that holds no code of a state is left alone.
    pub fn overwrite_backend(&self, backend: Backend) {
        match self.load() {
            Some(observed) => {
                let mut state = observed;
                crate::selection::overwrite_backend(&mut state, backend);
                if state != observed {
                    let _ = self.slot.compare_exchange(
                        observed.code(),
                        state.code(),
                        Ordering::Relaxed,
                        Ordering::Relaxed,
                    );
                }
            },
            None => {},
        }
    }

    /// Whether the application was launched.
    pub fn is_launched(&self) -> (launched: bool) {
        code_is_launched(self.slot.load(Ordering::Relaxed))
    }

    /// Returns the backend selected to be used.
    ///
    /// A backend that the slot names is returned as it is. Else `probe` is
    /// called once; its answer is returned, and recorded if the slot is still
    /// undecided then. Without an answer the slot is left alone.
    pub fn get_backend<P: FnOnce() -> Option<Backend>>(&self, probe: P) -> (r: Option<Backend>)
        requires
            probe.requires(()),
        ensures
            r is None ==> probe.ensures((), r),
    {
        let observed = match self.load() {
            Some(state) => state,
            None => SelectionState::Undecided,
        };
        let mut state = observed;
        let r = crate::selection::get_backend(&mut state, probe);
        if state != observed {
            let _ = self.slot.compare_exchange(
                observed.code(),
                state.code(),
                Ordering::Relaxed,
                Ordering::Relaxed,
            );
        }
        r
    }

    /// Everything of a launch that comes before the backend's runtime
    /// starts: the slot is read, the launch is prepared from what it held as
    /// `launcher::prepare_launch` says, and where that launches, the slot is
    /// marked as launched on the backend that was chosen. A slot that holds
    /// no code of a state counts as launched: nothing is launched from it.
    pub fn prepare_launch<V, H, S, P: FnOnce() -> Option<Backend>>(
        &self,
        on_main_thread: Option<bool>,
        config: BackendConfiguration<V, H, S>,
        probe: P,
    ) -> (r: Result<LaunchPlan<V, H, S>, Refusal>)
        requires
            on_main_thread != Some(false) ==> probe.requires(()),
        ensures
            exists|seen: SelectionState|
                prepare_outcome(seen, on_main_thread, config, probe, r),
            on_main_thread == Some(false) <==> r == Err::<LaunchPlan<V, H, S>, Refusal>(
                Refusal::WrongThread,
            ),
    {
        let seen = match self.load() {
            Some(state) => state,
            None => SelectionState::Launched(Backend::SoftwareBackend),
        };
        let mut state = seen;
        let r = crate::launcher::prepare_launch(&mut state, on_main_thread, config, probe);
        if state != seen {
            self.slot.store(state.code(), Ordering::Relaxed);
        }
        proof {
            assert(prepare_outcome(seen, on_main_thread, config, probe, r));
        }
        r
    }

    /// Runs the application on the selected backend and returns when its
    /// runtime does.
    ///
    /// A refused launch does not start the runtime. Else the slot is marked
    /// as launched, then `runtime` is called once, with the configuration
    /// merged for the backend that was chosen, and what it returns comes
    /// back, an error unchanged. What comes of it is what `launch_outcome`
    /// says for what the slot held and what the platform said of the thread.
    pub fn run_app<V, H, S, E, P, R>(
        &self,
        config: BackendConfiguration<V, H, S>,
        probe: P,
        runtime: R,
    ) -> (res: Result<(), LaunchError<E>>) where
        P: FnOnce() -> Option<Backend>,
        R: FnOnce(LaunchPlan<V, H, S>) -> Result<(), E>,

        requires
            probe.requires(()),
            forall|b: Backend| runtime.requires((#[trigger] config.merged(b),)),
        ensures
            exists|seen: SelectionState, after: SelectionState, on_main_thread: Option<bool>|
                launch_outcome(seen, after, on_main_thread, config, probe, runtime, res),
    {
        let on_main_thread = current_thread_is_main();
        let prepared = self.prepare_launch(on_main_thread, config, probe);
        let ghost seen = choose|seen: SelectionState|
            prepare_outcome(seen, on_main_thread, config, probe, prepared);
        match prepared {
            Err(refusal) => {
                let res = Err(LaunchError::from_refusal(refusal));
                proof {
                    assert(launch_outcome(seen, seen, on_main_thread, config, probe, runtime, res));
                }
                res
            },
            Ok(plan) => {
                let ghost after = SelectionState::Launched(plan.spec_backend());
                let res = match runtime(plan) {
                    Ok(unit) => Ok(unit),
                    Err(e) => Err(LaunchError::Backend(e)),
                };
                proof {
                    assert(launch_outcome(seen, after, on_main_thread, config, probe, runtime, res));
                }
                res
            },
        }
    }
}

} // verus!
