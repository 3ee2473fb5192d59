//! Classification of the existence probe's exit code.

use vstd::prelude::*;

verus! {

/// What the probe's exit code says about the target session.
#[derive(Clone, Copy, Debug, PartialEq, Eq, Structural)]
pub enum Existence {
    /// Exit code 0: the session exists.
    Exists,
    /// Exit code 1: the session is absent.
    Absent,
    /// Any other exit code; the engine reports it and does nothing.
    UnknownStatus(i32),
}

/// Existence as a pure function of the probe's exit code.
pub open spec fn classification(code: i32) -> Existence {
    if code == 0 {
        Existence::Exists
    } else if code == 1 {
        Existence::Absent
    } else {
        Existence::UnknownStatus(code)
    }
}

/// Classifies the probe's exit code.
pub fn classify(code: i32) -> (r: Existence)
    ensures
        r == classification(code),
{
    if code == 0 {
        Existence::Exists
    } else if code == 1 {
        Existence::Absent
    } else {
        Existence::UnknownStatus(code)
    }
}

} // verus!
