use vstd::prelude::*;

use crate::error::Error;
use crate::generator::{add_wide_offset, Generator};

verus! {

/// Relies on `SystemTime::elapsed` called on `UNIX_EPOCH`: the nanoseconds
/// since the Unix epoch, or `None` where the clock reads an earlier time.
#[verifier::external_body]
fn nanos_since_epoch() -> (r: Option<u128>) {
    match std::time::UNIX_EPOCH.elapsed() {
        Ok(d) => Some(d.as_nanos()),
        Err(_) => None,
    }
}

/// A generator whose values are the nanoseconds elapsed since the Unix epoch.
/// It shares no state; two calls within one tick of the clock may agree.
#[derive(Clone, Copy, Debug)]
pub struct EpochBasedGenerator;

impl EpochBasedGenerator {
    /// The value for a clock reading of `elapsed` nanoseconds since the
    /// epoch; `None` stands for a reading before the epoch, which is an error.
    pub fn value_from(elapsed: Option<u128>) -> (r: Result<u128, Error>)
        ensures
            match elapsed {
                Some(n) => r == Ok::<u128, Error>(n),
                None => r == Err::<u128, Error>(Error::ClockBeforeEpoch),
            },
    {
        match elapsed {
            Some(n) => Ok(n),
            None => Err(Error::ClockBeforeEpoch),
        }
    }
}

impl Generator<u128> for EpochBasedGenerator {
    /// Reads the clock once; `ClockBeforeEpoch` where it reads a time before
    /// the epoch.
    fn generate(&self) -> Result<u128, Error> {
        Self::value_from(nanos_since_epoch())
    }

    /// Reads the clock once and adds `offset`, wrapping at 128 bits; the
    /// error of `generate` unchanged.
    fn with_offset(&self, offset: u128) -> Result<u128, Error> {
        match self.generate() {
            Ok(n) => Ok(add_wide_offset(n, offset)),
            Err(e) => Err(e),
        }
    }
}

} // verus!
