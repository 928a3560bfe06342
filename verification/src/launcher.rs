//! The launch of the application on the backend that was selected.

use vstd::prelude::*;
use crate::backend::Backend;
use crate::selection::{get_backend, is_launched, reported, SelectionState};

verus! {

/// What the caller configures: the viewport, which both backends share, and
/// for each backend an optional block of its own options.
///
/// `V` is the viewport's type, `H` the options of the hardware runtime and
/// `S` those of the software backend.
#[derive(Debug, Clone)]
pub struct BackendConfiguration<V, H, S> {
    /// The viewport that the application is shown in, whatever the backend.
    pub viewport: V,
    /// Options for the hardware runtime, if the caller has any.
    pub eframe_options: Option<H>,
    /// Options for the software backend, if the caller has any.
    pub software_backend_options: Option<S>,
}

impl<V, H, S> BackendConfiguration<V, H, S> {
    /// A configuration of the viewport alone.
    pub fn from_viewport(viewport: V) -> (c: Self)
        ensures
            c == (BackendConfiguration::<V, H, S> {
                viewport,
                eframe_options: None,
                software_backend_options: None,
            }),
    {
        BackendConfiguration { viewport, eframe_options: None, software_backend_options: None }
    }

    /// A configuration from options of the hardware runtime, with the
    /// viewport that they hold.
    pub fn from_eframe_options(viewport: V, options: H) -> (c: Self)
        ensures
            c == (BackendConfiguration::<V, H, S> {
                viewport,
                eframe_options: Some(options),
                software_backend_options: None,
            }),
    {
        BackendConfiguration {
            viewport,
            eframe_options: Some(options),
            software_backend_options: None,
        }
    }

    /// A configuration from options of the software backend, with the
    /// viewport that they hold.
    pub fn from_software_backend_options(viewport: V, options: S) -> (c: Self)
        ensures
            c == (BackendConfiguration::<V, H, S> {
                viewport,
                eframe_options: None,
                software_backend_options: Some(options),
            }),
    {
        BackendConfiguration {
            viewport,
            eframe_options: None,
            software_backend_options: Some(options),
        }
    }

    /// What the runtime of `backend` is started with: the shared viewport,
    /// and the caller's options for that backend where there are any.
    pub open spec fn merged(self, backend: Backend) -> LaunchPlan<V, H, S> {
        match backend {
            Backend::SoftwareBackend => LaunchPlan::SoftwareBackend {
                viewport: self.viewport,
                software_backend_options: self.software_backend_options,
            },
            Backend::Eframe => LaunchPlan::Eframe {
                viewport: self.viewport,
                eframe_options: self.eframe_options,
            },
        }
    }

    /// Merges the configuration for `backend`. The shared viewport is handed
    /// on beside the options, so that it replaces whatever viewport they
    /// hold; the options of the other backend are dropped.
    pub fn merge(self, backend: Backend) -> (plan: LaunchPlan<V, H, S>)
        ensures
            plan == self.merged(backend),
            plan.spec_backend() == backend,
    {
        match backend {
            Backend::SoftwareBackend => LaunchPlan::SoftwareBackend {
                viewport: self.viewport,
                software_backend_options: self.software_backend_options,
            },
            Backend::Eframe => LaunchPlan::Eframe {
                viewport: self.viewport,
                eframe_options: self.eframe_options,
            },
        }
    }
}

/// What a backend's runtime is started with.
///
/// The viewport is always the caller's. Where the options are `None` the
/// runtime starts from its own default options.
#[derive(Debug, Clone, PartialEq, Eq)]
pub enum LaunchPlan<V, H, S> {
    /// Start the software backend.
    SoftwareBackend {
        /// The viewport to show the application in.
        viewport: V,
        /// The caller's options for the software backend.
        software_backend_options: Option<S>,
    },
    /// Start the hardware runtime.
    Eframe {
        /// The viewport to show the application in.
        viewport: V,
        /// The caller's options for the hardware runtime.
        eframe_options: Option<H>,
    },
}

impl<V, H, S> LaunchPlan<V, H, S> {
    /// The backend that this plan starts.
    pub open spec fn spec_backend(self) -> Backend {
        match self {
            LaunchPlan::SoftwareBackend { .. } => Backend::SoftwareBackend,
            LaunchPlan::Eframe { .. } => Backend::Eframe,
        }
    }

    /// The backend that this plan starts.
    pub fn backend(&self) -> (b: Backend)
        ensures
            b == self.spec_backend(),
    {
        match self {
            LaunchPlan::SoftwareBackend { .. } => Backend::SoftwareBackend,
            LaunchPlan::Eframe { .. } => Backend::Eframe,
        }
    }
}

/// Why a launch was refused before anything was touched.
#[derive(Debug, Copy, Clone, PartialEq, Eq, Structural)]
pub enum Refusal {
    /// The caller is known not to be on the main thread.
    WrongThread,
    /// The application was launched before.
    AlreadyLaunched,
}

/// Why `run_app` failed.
#[derive(Debug, Clone, PartialEq, Eq)]
pub enum LaunchError<E> {
    /// The caller is known not to be on the main thread.
    WrongThread,
    /// The application was launched before.
    AlreadyLaunched,
    /// The backend's runtime failed; its error is handed on as it came.
    Backend(E),
}

impl<E> LaunchError<E> {
    /// The error that stands for a refusal.
    pub open spec fn spec_from_refusal(refusal: Refusal) -> LaunchError<E> {
        match refusal {
            Refusal::WrongThread => LaunchError::WrongThread,
            Refusal::AlreadyLaunched => LaunchError::AlreadyLaunched,
        }
    }

    /// The error that stands for a refusal.
    pub fn from_refusal(refusal: Refusal) -> (e: LaunchError<E>)
        ensures
            e == Self::spec_from_refusal(refusal),
    {
        match refusal {
            Refusal::WrongThread => LaunchError::WrongThread,
            Refusal::AlreadyLaunched => LaunchError::AlreadyLaunched,
        }
    }

    /// The refusal behind this error, or `None` for a failure of the
    /// backend's runtime.
    pub fn refusal(&self) -> (r: Option<Refusal>)
        ensures
            r == match *self {
                LaunchError::WrongThread => Some(Refusal::WrongThread),
                LaunchError::AlreadyLaunched => Some(Refusal::AlreadyLaunched),
                LaunchError::Backend(_) => None,
            },
    {
        match self {
            LaunchError::WrongThread => Some(Refusal::WrongThread),
            LaunchError::AlreadyLaunched => Some(Refusal::AlreadyLaunched),
            LaunchError::Backend(_) => None,
        }
    }
}

impl Refusal {
    /// The sentence that tells the user of this refusal.
    pub fn message(self) -> (m: &'static str)
        ensures
            m@ == match self {
                Refusal::WrongThread => "Current thread is not the main thread"@,
                Refusal::AlreadyLaunched => "Application already launched"@,
            },
    {
        match self {
            Refusal::WrongThread => "Current thread is not the main thread",
            Refusal::AlreadyLaunched => "Application already launched",
        }
    }
}

/// Whether a launch in state `s` is refused, and why. `on_main_thread` is
/// what the platform says of the calling thread: only a plain no refuses,
/// and it is looked at first.
pub open spec fn refusal_of(s: SelectionState, on_main_thread: Option<bool>) -> Option<Refusal> {
    if on_main_thread == Some(false) {
        Some(Refusal::WrongThread)
    } else if s is Launched {
        Some(Refusal::AlreadyLaunched)
    } else {
        None
    }
}

/// The backend that a launch goes to, where `answer` is what was reported
/// when the backend was asked for: without an answer it is the software
/// backend, which works everywhere.
pub open spec fn launch_choice(answer: Option<Backend>) -> Backend {
    match answer {
        Some(b) => b,
        None => Backend::SoftwareBackend,
    }
}

/// Whether a launch from state `s` that was not refused may go to `backend`
/// under `probe`: a backend that was decided is kept; from the undecided
/// state it is what the probe answered, or the software backend where the
/// probe had no answer.
pub open spec fn may_launch_on<P: FnOnce() -> Option<Backend>>(
    s: SelectionState,
    probe: P,
    backend: Backend,
) -> bool {
    match s {
        SelectionState::Undecided => probe.ensures((), Some(backend)) || (backend
            == Backend::SoftwareBackend && probe.ensures((), None)),
        _ => s.spec_backend() == Some(backend),
    }
}

/// Checks the two preconditions of a launch, the thread first.
pub fn check_launch(
    state: &SelectionState,
    on_main_thread: Option<bool>,
) -> (r: Result<(), Refusal>)
    ensures
        r == match refusal_of(*state, on_main_thread) {
            Some(x) => Err::<(), Refusal>(x),
            None => Ok::<(), Refusal>(()),
        },
{
    match on_main_thread {
        Some(false) => {
            return Err(Refusal::WrongThread);
        },
        _ => {},
    }
    if is_launched(state) {
        return Err(Refusal::AlreadyLaunched);
    }
    Ok(())
}

/// Everything of a launch that comes before the backend's runtime starts.
///
/// A refused launch changes nothing. Else the backend is resolved, with the
/// software backend standing in where the probe has no answer, the state
/// becomes launched on it, and the plan for its runtime is returned.
pub fn prepare_launch<V, H, S, P: FnOnce() -> Option<Backend>>(
    state: &mut SelectionState,
    on_main_thread: Option<bool>,
    config: BackendConfiguration<V, H, S>,
    probe: P,
) -> (r: Result<LaunchPlan<V, H, S>, Refusal>)
    requires
        refusal_of(*old(state), on_main_thread) is None && *old(state) is Undecided
            ==> probe.requires(()),
    ensures
        prepare_outcome(*old(state), on_main_thread, config, probe, r),
        match r {
            Ok(plan) => *final(state) == SelectionState::Launched(plan.spec_backend()),
            Err(_) => *final(state) == *old(state),
        },
{
    match check_launch(state, on_main_thread) {
        Err(x) => {
            return Err(x);
        },
        Ok(()) => {},
    }
    let backend = match get_backend(state, probe) {
        Some(b) => b,
        None => Backend::SoftwareBackend,
    };
    *state = SelectionState::Launched(backend);
    Ok(config.merge(backend))
}

/// What holds of the preparation of a launch that found the selection to be
/// `seen` and the thread to be `on_main_thread`: a refusal comes back as it
/// is; else the plan is the configuration merged for a backend that
/// `may_launch_on` allows.
pub open spec fn prepare_outcome<V, H, S, P: FnOnce() -> Option<Backend>>(
    seen: SelectionState,
    on_main_thread: Option<bool>,
    config: BackendConfiguration<V, H, S>,
    probe: P,
    r: Result<LaunchPlan<V, H, S>, Refusal>,
) -> bool {
    match refusal_of(seen, on_main_thread) {
        Some(x) => r == Err::<LaunchPlan<V, H, S>, Refusal>(x),
        None => r matches Ok(plan) && plan == config.merged(plan.spec_backend())
            && may_launch_on(seen, probe, plan.spec_backend()),
    }
}

/// What holds of a launch that found the thread to be `on_main_thread`:
/// a refusal comes back as its error and leaves the state alone; else the
/// state is launched on a backend that `may_launch_on` allows, the runtime
/// was started once, with the configuration merged for that backend, and
/// what it returned is what comes back.
pub open spec fn launch_outcome<V, H, S, E, P, R>(
    before: SelectionState,
    after: SelectionState,
    on_main_thread: Option<bool>,
    config: BackendConfiguration<V, H, S>,
    probe: P,
    runtime: R,
    res: Result<(), LaunchError<E>>,
) -> bool where
    P: FnOnce() -> Option<Backend>,
    R: FnOnce(LaunchPlan<V, H, S>) -> Result<(), E>,
{
    match refusal_of(before, on_main_thread) {
        Some(x) => res == Err::<(), LaunchError<E>>(LaunchError::<E>::spec_from_refusal(x))
            && after == before,
        None => after is Launched && may_launch_on(before, probe, after->Launched_0) && match res {
            Ok(unit) => runtime.ensures((config.merged(after->Launched_0),), Ok::<(), E>(unit)),
            Err(LaunchError::Backend(e)) => runtime.ensures(
                (config.merged(after->Launched_0),),
                Err::<(), E>(e),
            ),
            Err(_) => false,
        },
    }
}

/// Launches the application, given what the platform says of the calling
/// thread. See `launch_outcome` for what comes of it.
pub fn launch<V, H, S, E, P, R>(
    state: &mut SelectionState,
    on_main_thread: Option<bool>,
    config: BackendConfiguration<V, H, S>,
    probe: P,
    runtime: R,
) -> (res: Result<(), LaunchError<E>>) where
    P: FnOnce() -> Option<Backend>,
    R: FnOnce(LaunchPlan<V, H, S>) -> Result<(), E>,

    requires
        refusal_of(*old(state), on_main_thread) is None && *old(state) is Undecided
            ==> probe.requires(()),
        refusal_of(*old(state), on_main_thread) is None ==> forall|b: Backend|
            runtime.requires((#[trigger] config.merged(b),)),
    ensures
        launch_outcome(*old(state), *final(state), on_main_thread, config, probe, runtime, res),
{
    match prepare_launch(state, on_main_thread, config, probe) {
        Err(x) => Err(LaunchError::from_refusal(x)),
        Ok(plan) => {
            match runtime(plan) {
                Ok(unit) => Ok(unit),
                Err(e) => Err(LaunchError::Backend(e)),
            }
        },
    }
}

/// Asks the platform whether the calling thread is the main thread, through
/// `is_main_thread::is_main_thread`. The answer is `None` where the platform
/// cannot tell. Nothing is claimed of the answer.
#[verifier::external_body]
pub(crate) fn current_thread_is_main() -> (answer: Option<bool>) {
    is_main_thread::is_main_thread()
}

/// Runs the application on the selected backend and returns when its
/// runtime does.
///
/// The thread is checked first, then whether the application was launched
/// before; either failure leaves the state untouched. Then the backend is
/// resolved, the state becomes launched, and `runtime` is called once with
/// the merged configuration. Its error comes back unchanged.
pub fn run_app<V, H, S, E, P, R>(
    state: &mut SelectionState,
    config: BackendConfiguration<V, H, S>,
    probe: P,
    runtime: R,
) -> (res: Result<(), LaunchError<E>>) where
    P: FnOnce() -> Option<Backend>,
    R: FnOnce(LaunchPlan<V, H, S>) -> Result<(), E>,

    requires
        *old(state) is Undecided ==> probe.requires(()),
        !(*old(state) is Launched) ==> forall|b: Backend|
            runtime.requires((#[trigger] config.merged(b),)),
    ensures
        exists|on_main_thread: Option<bool>|
            launch_outcome(
                *old(state),
                *final(state),
                on_main_thread,
                config,
                probe,
                runtime,
                res,
            ),
        *old(state) is Launched ==> res is Err && *final(state) == *old(state),
        res is Err && !(res matches Err(LaunchError::Backend(_)))
            ==> *final(state) == *old(state),
        res is Ok || (res matches Err(LaunchError::Backend(_))) ==> *final(state) is Launched,
{
    let on_main_thread = current_thread_is_main();
    launch(state, on_main_thread, config, probe, runtime)
}

/// Once a launch has got past its two checks, every later launch is
/// refused, whatever it is called with: as already launched, or for the
/// wrong thread where the later caller is known to be on one, since the
/// thread is looked at first.
pub proof fn lemma_second_launch_refused<V, H, S, E, P, R>(
    before: SelectionState,
    after: SelectionState,
    on_main_thread: Option<bool>,
    config: BackendConfiguration<V, H, S>,
    probe: P,
    runtime: R,
    res: Result<(), LaunchError<E>>,
    later_thread: Option<bool>,
) where P: FnOnce() -> Option<Backend>, R: FnOnce(LaunchPlan<V, H, S>) -> Result<(), E>
    requires
        launch_outcome(before, after, on_main_thread, config, probe, runtime, res),
        refusal_of(before, on_main_thread) is None,
    ensures
        refusal_of(after, later_thread) is Some,
        later_thread != Some(false) ==> refusal_of(after, later_thread) == Some(
            Refusal::AlreadyLaunched,
        ),
{
}

/// A launch from the undecided state goes where the probe points: with a
/// probe that can only answer `fixed`, the state becomes launched on that
/// backend, or on the software backend where `fixed` is no answer, and the
/// runtime is started with the plan of that backend and of no other.
pub proof fn lemma_dispatch_follows_probe<V, H, S, E, P, R>(
    after: SelectionState,
    on_main_thread: Option<bool>,
    config: BackendConfiguration<V, H, S>,
    probe: P,
    runtime: R,
    res: Result<(), LaunchError<E>>,
    fixed: Option<Backend>,
) where P: FnOnce() -> Option<Backend>, R: FnOnce(LaunchPlan<V, H, S>) -> Result<(), E>
    requires
        launch_outcome(
            SelectionState::Undecided,
            after,
            on_main_thread,
            config,
            probe,
            runtime,
            res,
        ),
        on_main_thread != Some(false),
        forall|p: Option<Backend>| probe.ensures((), p) ==> p == fixed,
    ensures
        after == SelectionState::Launched(launch_choice(fixed)),
        config.merged(launch_choice(fixed)).spec_backend() == launch_choice(fixed),
        match res {
            Ok(unit) => runtime.ensures((config.merged(launch_choice(fixed)),), Ok::<(), E>(unit)),
            Err(LaunchError::Backend(e)) => runtime.ensures(
                (config.merged(launch_choice(fixed)),),
                Err::<(), E>(e),
            ),
            Err(_) => false,
        },
{
}

/// A backend that was decided before the launch is the one launched on,
/// whatever the probe would answer.
pub proof fn lemma_decided_backend_is_launched<V, H, S, E, P, R>(
    decided: Backend,
    after: SelectionState,
    on_main_thread: Option<bool>,
    config: BackendConfiguration<V, H, S>,
    probe: P,
    runtime: R,
    res: Result<(), LaunchError<E>>,
) where P: FnOnce() -> Option<Backend>, R: FnOnce(LaunchPlan<V, H, S>) -> Result<(), E>
    requires
        launch_outcome(
            SelectionState::Decided(decided),
            after,
            on_main_thread,
            config,
            probe,
            runtime,
            res,
        ),
        on_main_thread != Some(false),
    ensures
        after == SelectionState::Launched(decided),
{
}

} // verus!
