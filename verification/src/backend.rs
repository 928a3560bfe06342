//! The two rendering backends an application can be launched on.

use vstd::prelude::*;

verus! {

/// How many backends exist. A selection code above this value means that the
/// application was launched.
pub const NUM_BACKENDS: usize = 2;

/// One of the two mutually exclusive rendering strategies.
#[derive(Debug, Copy, Clone, Ord, PartialOrd, Eq, PartialEq, Structural, Hash)]
pub enum Backend {
    /// The software rasterizer, which works everywhere.
    SoftwareBackend,
    /// The hardware-accelerated runtime.
    Eframe,
}

impl Backend {
    /// The number under which this backend is recorded once it is chosen:
    /// 1 for the software rasterizer, 2 for the hardware runtime.
    pub open spec fn spec_ordinal(self) -> nat {
        match self {
            Backend::SoftwareBackend => 1,
            Backend::Eframe => 2,
        }
    }

    /// The number under which this backend is recorded once it is chosen.
    pub fn ordinal(self) -> (n: usize)
        ensures
            n == self.spec_ordinal(),
            1 <= n <= NUM_BACKENDS,
    {
        match self {
            Backend::SoftwareBackend => 1,
            Backend::Eframe => 2,
        }
    }

    /// The backend recorded under `n`, if there is one.
    pub fn from_ordinal(n: usize) -> (b: Option<Backend>)
        ensures
            b matches Some(x) ==> x.spec_ordinal() == n,
            b is None <==> (n == 0 || n > NUM_BACKENDS),
    {
        if n == 1 {
            Some(Backend::SoftwareBackend)
        } else if n == 2 {
            Some(Backend::Eframe)
        } else {
            None
        }
    }
}

} // verus!
