//! Unique identifiers within one process: a counter shared by all simple
//! generators, a generator over the time since the Unix epoch, and one over
//! time-ordered UUIDs.

pub mod counter;
pub mod error;
pub mod generator;
pub mod epoch;
pub mod external;

pub use counter::SequenceGenerator;
pub use epoch::EpochBasedGenerator;
pub use error::Error;
pub use external::UuidGenerator;
pub use generator::{Generator, SimpleGenerator};
