//! The compile-time target operating system, as data.
//!
//! The per-OS choice of playback program is a build-time decision. The
//! surrounding application maps its build target to a [`TargetOs`] value
//! once and passes it down, which keeps the selection itself a pure,
//! verified function of that value.

use vstd::prelude::*;

verus! {

/// The operating system the application was built for, as far as the
/// dispatcher cares: the three systems with a configured playback program,
/// and everything else.
#[derive(Clone, Copy, PartialEq, Eq, Structural, Debug)]
pub enum TargetOs {
    MacOs,
    Linux,
    Windows,
    Other,
}

/// The separator of the target system's path convention.
pub open spec fn spec_path_separator(os: TargetOs) -> char {
    if os is Windows {
        '\\'
    } else {
        '/'
    }
}

/// Returns the character used to join path components on the target system.
pub fn path_separator(os: TargetOs) -> (c: char)
    ensures
        c == spec_path_separator(os),
{
    if os == TargetOs::Windows {
        '\\'
    } else {
        '/'
    }
}

} // verus!
