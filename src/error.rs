//! Error types of the counter subsystem.
use vstd::prelude::*;

verus! {

/// Failures of one counter descriptor's kernel calls.
#[derive(Clone, Copy, Debug, PartialEq, Eq, Structural)]
pub enum SysErr {
    /// The count could not be read in full.
    ReadFail,
    /// The kernel reported failure for a control call.
    IoFail,
    /// An argument was rejected before the kernel was called.
    IoArg,
    /// The kernel handed back zero as the counter's identifier.
    IoId,
    /// The counter could not be opened.
    OpenFail,
    /// The operation is a reserved extension point, not supported here.
    Unsupported,
}

/// Failures of the event catalog.
#[derive(Clone, Copy, Debug, PartialEq, Eq, Structural)]
pub enum EventErr {
    /// The event kind has no kernel attribute.
    InvalidEvent,
}

/// Failures to parse a name given on the command line.
#[derive(Clone, Copy, Debug, PartialEq, Eq, Structural)]
pub enum ParseError {
    /// The name is not one of the supported events.
    InvalidEvent,
}

impl SysErr {
    /// A short description of the failure.
    pub fn message(&self) -> (r: &'static str) {
        match self {
            SysErr::ReadFail => "reading the counter failed",
            SysErr::IoFail => "kernel counter control failed",
            SysErr::IoArg => "invalid argument for counter control",
            SysErr::IoId => "counter identifier could not be retrieved",
            SysErr::OpenFail => "event not supported on this host or not permitted",
            SysErr::Unsupported => "operation not supported",
        }
    }
}

} // verus!
