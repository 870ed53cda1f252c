use vstd::prelude::*;

verus! {

/// A digital input whose level can be read, possibly failing.
///
/// Nothing is assumed about the level it reports: the decoders are correct
/// for every sequence of readings.
pub trait InputPin {
    type Error;

    /// Is the input at its logical high level?
    fn is_high(&self) -> Result<bool, Self::Error>;
}

/// A digital input whose reads cannot fail (directly wired GPIO).
pub trait InfallibleInputPin {
    /// Is the input at its logical high level?
    fn is_high(&self) -> bool;
}

} // verus!
