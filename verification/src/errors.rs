use vstd::prelude::*;

verus! {

/// Protocol-validation failures of the common-header codec. Every variant is
/// a cheap, freely copyable value: rejection is expected control flow in a
/// packet-processing path, never a process-fatal condition.
#[derive(Debug, Clone, Copy, PartialEq, Eq, Structural)]
pub enum Error {
    /// At encode time, `count` does not fit in its 5-bit field.
    InvalidHeader,
    /// At decode time, the version bits of the first octet are not 2.
    BadVersion,
    /// At decode time, the type octet matches no registered packet type.
    WrongType,
}

} // verus!
