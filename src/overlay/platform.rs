//! The choices of the attribute-aware file transfer: which attributes it
//! preserves, and whether it clones data instead of copying it.
use vstd::prelude::*;

verus! {

/// An attribute to carry over from the source after the data.
#[derive(Debug, Clone, Copy, PartialEq, Eq, Structural)]
pub enum Preserve {
    /// Owner and group.
    Ownership,
    /// Access and modification times.
    Timestamps,
}

/// When a copy-on-write clone is used for a file's data.
#[derive(Debug, Clone, Copy, PartialEq, Eq, Structural)]
pub enum Reflink {
    /// Always copy the bytes.
    Never,
    /// Clone, and fail where cloning fails.
    Always,
    /// Clone, and copy the bytes where cloning fails.
    Auto,
}

/// Options of the attribute-aware transfer.
#[derive(Debug, Clone, PartialEq, Eq)]
pub struct PlatformOptions {
    pub preserve: Vec<Preserve>,
    pub reflink: Reflink,
}

/// What a copy does next after an attempt to clone the data.
#[derive(Debug, Clone, Copy, PartialEq, Eq, Structural)]
pub enum CloneOutcome {
    /// The data is in place.
    Done,
    /// Copy the bytes.
    CopyBytes,
    /// The copy has failed.
    Fail,
}

impl Reflink {
    /// Whether a copy starts by trying to clone the data.
    pub fn tries_clone(&self) -> (r: bool)
        ensures
            r == !(*self is Never),
    {
        match self {
            Reflink::Never => false,
            _ => true,
        }
    }

    /// What follows an attempt to clone (`cloned` tells whether it
    /// succeeded); without an attempt, the bytes are copied.
    pub fn after_clone(&self, cloned: bool) -> (r: CloneOutcome)
        ensures
            *self is Never ==> r is CopyBytes,
            *self is Always ==> (if cloned { r is Done } else { r is Fail }),
            *self is Auto ==> (if cloned { r is Done } else { r is CopyBytes }),
    {
        match self {
            Reflink::Never => CloneOutcome::CopyBytes,
            Reflink::Always => if cloned {
                CloneOutcome::Done
            } else {
                CloneOutcome::Fail
            },
            Reflink::Auto => if cloned {
                CloneOutcome::Done
            } else {
                CloneOutcome::CopyBytes
            },
        }
    }
}

} // verus!
