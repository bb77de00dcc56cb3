//! The debug logging switch. It decides which levels the Rust side and the
//! native side log at; setting up the loggers is left to the caller.

use vstd::prelude::*;
use vstd::string::StringExecFns;
use crate::syslog::Level;

verus! {

/// API to modify log levels.
pub trait IBluetoothLogging {
    /// Check whether debug logging is enabled.
    fn is_debug_enabled(&self) -> bool;

    /// Change whether debug logging is enabled.
    fn set_debug_logging(&mut self, enabled: bool);
}

/// Logging related implementation.
pub struct BluetoothLogging {
    /// Should debug logs be emitted?
    pub is_debug: bool,
    /// If this flag is not set, the tags that log much are kept at `Info`
    /// while debug logs are emitted.
    pub is_verbose_debug: bool,
    /// Log to stderr?
    pub is_stderr: bool,
    /// Is logging already initialized?
    pub is_initialized: bool,
}

/// The level the native stack logs at by default.
pub open spec fn libbluetooth_level(is_debug: bool, is_verbose_debug: bool) -> Level {
    if is_debug {
        if is_verbose_debug {
            Level::Verbose
        } else {
            Level::Debug
        }
    } else {
        Level::Info
    }
}

impl BluetoothLogging {
    /// A switch that is not initialized yet. Logs go to stderr where
    /// `log_output` is `"stderr"`, to the system log otherwise.
    pub fn new(is_debug: bool, is_verbose_debug: bool, log_output: &str) -> (r: Self)
        ensures
            r == (BluetoothLogging {
                is_debug,
                is_verbose_debug,
                is_stderr: log_output@ == "stderr"@,
                is_initialized: false,
            }),
    {
        let given = String::from_str(log_output);
        let stderr = String::from_str("stderr");
        let is_stderr = given == stderr;
        BluetoothLogging { is_debug, is_verbose_debug, is_stderr, is_initialized: false }
    }

    /// Marks logging as initialized, once the caller has set up the loggers
    /// at the levels this switch gives.
    pub fn initialize(&mut self)
        ensures
            *final(self) == (BluetoothLogging { is_initialized: true, ..*old(self) }),
    {
        self.is_initialized = true;
    }

    /// Whether the tags that log much are to be kept at `Info`.
    pub fn limits_verbose_tags(&self) -> (r: bool)
        ensures
            r == (self.is_debug && !self.is_verbose_debug),
    {
        self.is_debug && !self.is_verbose_debug
    }

    /// The level the native stack logs at by default.
    pub fn get_libbluetooth_level(&self) -> (r: Level)
        ensures
            r == libbluetooth_level(self.is_debug, self.is_verbose_debug),
    {
        if self.is_debug {
            if self.is_verbose_debug {
                Level::Verbose
            } else {
                Level::Debug
            }
        } else {
            Level::Info
        }
    }
}

impl IBluetoothLogging for BluetoothLogging {
    fn is_debug_enabled(&self) -> (r: bool)
        ensures
            r == (self.is_initialized && self.is_debug),
    {
        self.is_initialized && self.is_debug
    }

    fn set_debug_logging(&mut self, enabled: bool)
        ensures
            *final(self) == (BluetoothLogging {
                is_debug: if old(self).is_initialized {
                    enabled
                } else {
                    old(self).is_debug
                },
                ..*old(self)
            }),
    {
        if !self.is_initialized {
            return ;
        }
        self.is_debug = enabled;
    }
}

} // verus!
