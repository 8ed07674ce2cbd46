use vstd::prelude::*;

verus! {

/// Ways in which a packing problem can be rejected.
#[derive(Clone, Copy, Debug, PartialEq, Eq, Structural)]
pub enum Error {
    /// A run was asked to place no biscuits at all.
    BiscuitsBelowOne,
    /// A range of biscuit counts starts above its end.
    StartGreaterThanEnd,
    /// The blue-noise sampler kept producing fewer candidates than biscuits,
    /// however far its radius was shrunk.
    UnderSampled,
}

impl Error {
    /// The text shown to a user for this error.
    pub fn message(&self) -> (r: &'static str)
        ensures
            *self == Error::BiscuitsBelowOne ==> r@
                == "The number of biscuits to arrange must be at least 1."@,
            *self == Error::StartGreaterThanEnd ==> r@
                == "start must be greater than the end."@,
            *self == Error::UnderSampled ==> r@
                == "Too few candidate positions were sampled for the biscuits."@,
    {
        match self {
            Error::BiscuitsBelowOne => "The number of biscuits to arrange must be at least 1.",
            Error::StartGreaterThanEnd => "start must be greater than the end.",
            Error::UnderSampled => "Too few candidate positions were sampled for the biscuits.",
        }
    }
}

} // verus!
