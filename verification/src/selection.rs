//! The one-shot record of which backend was chosen and whether the
//! application has been launched on it.

use vstd::prelude::*;
use crate::backend::{Backend, NUM_BACKENDS};

verus! {

/// The decision about the backend, from undecided to launched.
///
/// A launched state is terminal: none of the operations of this module leaves it.
#[derive(Debug, Copy, Clone, PartialEq, Eq, Structural)]
pub enum SelectionState {
    /// Nothing was decided yet.
    Undecided,
    /// A backend was chosen, and the application has not been launched.
    Decided(Backend),
    /// The application was launched on this backend.
    Launched(Backend),
}

impl SelectionState {
    /// The number that stands for this state in a shared slot: 0 while undecided,
    /// the backend's ordinal once decided, and that ordinal plus the number of
    /// backends once launched.
    pub open spec fn spec_code(self) -> nat {
        match self {
            SelectionState::Undecided => 0,
            SelectionState::Decided(b) => b.spec_ordinal(),
            SelectionState::Launched(b) => NUM_BACKENDS as nat + b.spec_ordinal(),
        }
    }

    /// The backend that this state names, if it names one.
    pub open spec fn spec_backend(self) -> Option<Backend> {
        match self {
            SelectionState::Undecided => None,
            SelectionState::Decided(b) => Some(b),
            SelectionState::Launched(b) => Some(b),
        }
    }

    /// The state of a process in which nothing was decided.
    pub fn new() -> (s: SelectionState)
        ensures
            s == SelectionState::Undecided,
    {
        SelectionState::Undecided
    }

    /// The number that stands for this state.
    pub fn code(self) -> (c: usize)
        ensures
            c == self.spec_code(),
            c <= 2 * NUM_BACKENDS,
    {
        match self {
            SelectionState::Undecided => 0,
            SelectionState::Decided(b) => b.ordinal(),
            SelectionState::Launched(b) => NUM_BACKENDS + b.ordinal(),
        }
    }

    /// The state that `code` stands for, if it stands for one.
    pub fn from_code(code: usize) -> (s: Option<SelectionState>)
        ensures
            s matches Some(x) ==> x.spec_code() == code,
            s is Some <==> code <= 2 * NUM_BACKENDS,
    {
        if code == 0 {
            Some(SelectionState::Undecided)
        } else if code <= NUM_BACKENDS {
            match Backend::from_ordinal(code) {
                Some(b) => Some(SelectionState::Decided(b)),
                None => None,
            }
        } else if code <= 2 * NUM_BACKENDS {
            match Backend::from_ordinal(code - NUM_BACKENDS) {
                Some(b) => Some(SelectionState::Launched(b)),
                None => None,
            }
        } else {
            None
        }
    }

    /// Puts `new` in place of the state if the state is `current`, and says
    /// so with `Ok` of the state that was replaced. A state other than
    /// `current` stays and comes back in `Err`.
    pub fn compare_exchange(
        &mut self,
        current: SelectionState,
        new: SelectionState,
    ) -> (r: Result<SelectionState, SelectionState>)
        ensures
            *old(self) == current ==> r == Ok::<SelectionState, SelectionState>(current)
                && *final(self) == new,
            *old(self) != current ==> r == Err::<SelectionState, SelectionState>(*old(self))
                && *final(self) == *old(self),
    {
        if *self == current {
            *self = new;
            Ok(current)
        } else {
            Err(*self)
        }
    }

    /// The backend that this state names, if it names one.
    pub fn backend(self) -> (b: Option<Backend>)
        ensures
            b == self.spec_backend(),
    {
        match self {
            SelectionState::Undecided => None,
            SelectionState::Decided(b) => Some(b),
            SelectionState::Launched(b) => Some(b),
        }
    }
}

/// The state after an attempt to overwrite the choice with `backend`: a
/// launched state stays, any other becomes decided for `backend`.
pub open spec fn overwritten(s: SelectionState, backend: Backend) -> SelectionState {
    if s is Launched {
        s
    } else {
        SelectionState::Decided(backend)
    }
}

/// The state after the backend was asked for, where `probed` is what the
/// probe answered: only an undecided state changes, and only on an answer.
pub open spec fn resolved(s: SelectionState, probed: Option<Backend>) -> SelectionState {
    match (s, probed) {
        (SelectionState::Undecided, Some(b)) => SelectionState::Decided(b),
        _ => s,
    }
}

/// The backend that is reported when it is asked for in state `s` and the
/// probe answers `probed`.
pub open spec fn reported(s: SelectionState, probed: Option<Backend>) -> Option<Backend> {
    match s {
        SelectionState::Undecided => probed,
        _ => s.spec_backend(),
    }
}

/// The state after an attempt to overwrite the choice with `backend` that
/// goes by an earlier reading, `observed`: it takes effect only where the
/// reading was not launched and the state is still what was read. An
/// overwrite that another decision overtook is lost.
pub open spec fn overwritten_from(
    s: SelectionState,
    observed: SelectionState,
    backend: Backend,
) -> SelectionState {
    if !(observed is Launched) && s == observed {
        SelectionState::Decided(backend)
    } else {
        s
    }
}

/// Overwrites the selected backend.
/// This has no effect if the application was already launched.
pub fn overwrite_backend(state: &mut SelectionState, backend: Backend)
    ensures
        *final(state) == overwritten(*old(state), backend),
{
    let observed = *state;
    overwrite_backend_from(state, observed, backend);
}

/// The second half of an overwrite, for a caller that read the state
/// earlier: `observed` is that reading. Where the reading was launched
/// nothing is attempted. Else the state is exchanged for the decided state
/// of `backend` if it still is what was read, and left alone if it is not.
pub fn overwrite_backend_from(
    state: &mut SelectionState,
    observed: SelectionState,
    backend: Backend,
)
    ensures
        *final(state) == overwritten_from(*old(state), observed, backend),
{
    if is_launched(&observed) {
        return ;
    }
    let _ = state.compare_exchange(observed, SelectionState::Decided(backend));
}

/// Whether `code` stands for a launched state: it does where it exceeds the
/// number of backends.
pub fn code_is_launched(code: usize) -> (launched: bool)
    ensures
        launched == (code > NUM_BACKENDS),
{
    code > NUM_BACKENDS
}

/// Returns true if the application was already launched and the selected
/// backend can no longer be changed by `overwrite_backend`.
pub fn is_launched(state: &SelectionState) -> (launched: bool)
    ensures
        launched == (*state is Launched),
        launched == (state.spec_code() > NUM_BACKENDS),
{
    code_is_launched(state.code())
}

/// Returns the backend selected to be used.
///
/// A state that already names a backend reports it and `probe` is not
/// called. An undecided state calls `probe` once: its answer is recorded
/// and reported, and where it has none the state stays undecided, so that a
/// later call can still decide.
pub fn get_backend<P: FnOnce() -> Option<Backend>>(
    state: &mut SelectionState,
    probe: P,
) -> (r: Option<Backend>)
    requires
        *old(state) is Undecided ==> probe.requires(()),
    ensures
        *old(state) is Undecided ==> probe.ensures((), r),
        r == reported(*old(state), r),
        *final(state) == resolved(*old(state), r),
{
    match *state {
        SelectionState::Decided(b) => Some(b),
        SelectionState::Launched(b) => Some(b),
        SelectionState::Undecided => {
            match probe() {
                None => None,
                Some(b) => {
                    let _ = state.compare_exchange(
                        SelectionState::Undecided,
                        SelectionState::Decided(b),
                    );
                    Some(b)
                },
            }
        },
    }
}

/// `is_launched` is false of the undecided state and of both decided states,
/// and true of both launched states.
pub proof fn lemma_launched_states(s: SelectionState)
    ensures
        (s.spec_code() > NUM_BACKENDS) <==> (s is Launched),
        s.spec_code() <= 2 * NUM_BACKENDS,
        s is Launched <==> s.spec_code() == 3 || s.spec_code() == 4,
        !(s is Launched) <==> s.spec_code() == 0 || s.spec_code() == 1 || s.spec_code() == 2,
{
}

/// Two states with the same code are the same state.
pub proof fn lemma_code_injective(s: SelectionState, t: SelectionState)
    requires
        s.spec_code() == t.spec_code(),
    ensures
        s == t,
{
}

/// An overwrite that goes by the state as it is does what a plain overwrite
/// does. One that goes by a reading that no longer holds is lost: the state
/// stays as the decision that overtook it left it.
pub proof fn lemma_stale_overwrite_is_lost(
    s: SelectionState,
    observed: SelectionState,
    backend: Backend,
)
    ensures
        overwritten_from(s, s, backend) == overwritten(s, backend),
        observed != s ==> overwritten_from(s, observed, backend) == s,
{
}

/// A launched state is terminal: no overwrite, whatever reading it goes by,
/// and no request for the backend, whatever the probe answers, leaves it.
pub proof fn lemma_launched_is_terminal(
    s: SelectionState,
    observed: SelectionState,
    backend: Backend,
    probed: Option<Backend>,
)
    requires
        s is Launched,
    ensures
        overwritten(s, backend) == s,
        overwritten_from(s, observed, backend) == s,
        resolved(s, probed) == s,
{
}

/// Asking for the backend is idempotent: once a call has reported a backend,
/// a second call on the state it left reports the same backend and leaves
/// the state as it is, whatever the probe would answer then.
pub proof fn lemma_get_backend_idempotent(
    s: SelectionState,
    first: Option<Backend>,
    second: Option<Backend>,
)
    requires
        reported(s, first) is Some,
    ensures
        reported(resolved(s, first), second) == reported(s, first),
        resolved(resolved(s, first), second) == resolved(s, first),
{
}

/// Before a launch, an overwrite decides what is reported next, whatever was
/// decided before and whatever the probe would answer.
pub proof fn lemma_overwrite_before_launch(
    s: SelectionState,
    backend: Backend,
    probed: Option<Backend>,
)
    requires
        !(s is Launched),
    ensures
        reported(overwritten(s, backend), probed) == Some(backend),
        !(overwritten(s, backend) is Launched),
{
}

/// After a launch, an overwrite changes nothing: the state stays, and the
/// backend reported is the one the application was launched on.
pub proof fn lemma_overwrite_after_launch(
    s: SelectionState,
    backend: Backend,
    probed: Option<Backend>,
)
    requires
        s is Launched,
    ensures
        overwritten(s, backend) == s,
        reported(overwritten(s, backend), probed) == s.spec_backend(),
        resolved(s, probed) == s,
{
}

} // verus!
