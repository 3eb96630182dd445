use vstd::prelude::*;

verus! {

/// What can go wrong while producing an identifier.
#[derive(Debug, Clone, Copy, PartialEq, Eq)]
pub enum Error {
    /// The system clock reports a time before the Unix epoch, so neither the
    /// epoch generator nor the UUID source can produce a value.
    ClockBeforeEpoch,
}

} // verus!
