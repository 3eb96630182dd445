use vstd::prelude::*;

use crate::error::Error;
use crate::generator::{add_wide_offset, wide_offset, Generator};

verus! {

/// What a version 7 UUID carries, read as a big-endian integer: the version
/// field (bits 76 to 79) is 7 and the variant field (bits 62 and 63) is the
/// RFC one, `0b10`.
pub open spec fn is_v7(u: u128) -> bool {
    &&& (u >> 76u128) & 0xfu128 == 7u128
    &&& (u >> 62u128) & 3u128 == 2u128
}

/// Relies on `uuid::Timestamp::try_from(SystemTime::now())`, `Uuid::new_v7`
/// and `Uuid::as_u128`: a fresh version 7 UUID read as a big-endian integer,
/// or `None` where the system clock reads a time before the Unix epoch.
/// `new_v7` panics only where the operating system cannot supply random bytes.
#[verifier::external_body]
fn fresh_uuid() -> (r: Option<u128>)
    ensures
        r matches Some(u) ==> is_v7(u),
{
    match uuid::Timestamp::try_from(std::time::SystemTime::now()) {
        Ok(ts) => Some(uuid::Uuid::new_v7(ts).as_u128()),
        Err(_) => None,
    }
}

/// A generator that hands out version 7 UUIDs as 128-bit integers. Their
/// uniqueness is that of the UUID source; this type adds none of its own.
#[derive(Clone, Copy, Debug)]
pub struct UuidGenerator;

impl UuidGenerator {
    /// The result for what the UUID source gave: its value unchanged, or
    /// `ClockBeforeEpoch`, the one way in which the source fails.
    pub fn value_from(source: Option<u128>) -> (r: Result<u128, Error>)
        ensures
            match source {
                Some(u) => r == Ok::<u128, Error>(u),
                None => r == Err::<u128, Error>(Error::ClockBeforeEpoch),
            },
    {
        match source {
            Some(u) => Ok(u),
            None => Err(Error::ClockBeforeEpoch),
        }
    }
}

impl Generator<u128> for UuidGenerator {
    /// Asks the UUID source once and hands back its value, or its failure
    /// unchanged.
    fn generate(&self) -> (r: Result<u128, Error>)
        ensures
            match r {
                Ok(u) => is_v7(u),
                Err(e) => e == Error::ClockBeforeEpoch,
            },
    {
        Self::value_from(fresh_uuid())
    }

    /// A fresh UUID as a 128-bit integer plus `offset`, wrapping at 128 bits;
    /// a failure of the source unchanged.
    fn with_offset(&self, offset: u128) -> (r: Result<u128, Error>)
        ensures
            match r {
                Ok(v) => exists|u: u128| is_v7(u) && v == #[trigger] wide_offset(u, offset),
                Err(e) => e == Error::ClockBeforeEpoch,
            },
    {
        match self.generate() {
            Ok(u) => {
                let v = add_wide_offset(u, offset);
                assert(v == wide_offset(u, offset));
                Ok(v)
            },
            Err(e) => Err(e),
        }
    }
}

} // verus!
