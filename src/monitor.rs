//! Monitors, as far as the window logic needs them.
use vstd::prelude::*;

verus! {

/// A monitor that a window can be made fullscreen on.
#[derive(Debug, Clone)]
pub struct MonitorHandle {
    name: Option<String>,
    native_identifier: u32,
}

impl MonitorHandle {
    pub closed spec fn name(&self) -> Option<String> {
        self.name
    }

    pub closed spec fn native_identifier(&self) -> u32 {
        self.native_identifier
    }

    /// A monitor as the platform reports it: its human-readable name, if it
    /// has one, and the platform's identifier for it.
    pub fn new(name: Option<String>, native_identifier: u32) -> (r: MonitorHandle)
        ensures
            r.name() == name,
            r.native_identifier() == native_identifier,
    {
        MonitorHandle { name, native_identifier }
    }

    /// The monitor's human-readable name, if it has one.
    pub fn get_name(&self) -> (r: Option<String>)
        ensures
            r == self.name(),
    {
        match &self.name {
            Some(n) => Some(n.clone()),
            None => None,
        }
    }

    /// The platform's identifier for the monitor.
    pub fn get_native_identifier(&self) -> (r: u32)
        ensures
            r == self.native_identifier(),
    {
        self.native_identifier
    }
}

} // verus!
