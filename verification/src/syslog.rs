//! Log levels of the system log.

use vstd::prelude::*;

verus! {

/// Log priority levels of the platform.
#[derive(Debug, Copy, Clone, PartialEq, Eq, Structural)]
pub enum Level {
    Verbose,
    Debug,
    Info,
    Warn,
    Error,
    Fatal,
}

impl Level {
    /// The number of the level in the platform's log.
    pub open spec fn number(self) -> u8 {
        match self {
            Level::Verbose => 2,
            Level::Debug => 3,
            Level::Info => 4,
            Level::Warn => 5,
            Level::Error => 6,
            Level::Fatal => 7,
        }
    }

    /// The number of the level in the platform's log.
    pub fn to_u8(&self) -> (r: Option<u8>)
        ensures
            r == Some(self.number()),
    {
        Some(
            match self {
                Level::Verbose => 2,
                Level::Debug => 3,
                Level::Info => 4,
                Level::Warn => 5,
                Level::Error => 6,
                Level::Fatal => 7,
            },
        )
    }
}

} // verus!
