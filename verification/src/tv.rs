//! The television control capability and its no-op backend.

use vstd::prelude::*;

verus! {

/// Why a television command did not go through.
#[derive(Debug, Clone, Copy, PartialEq, Eq, Structural)]
pub enum TVError {
    /// The backend reported that the command failed.
    TVControlFailed,
}

/// The two commands a television backend accepts.
///
/// Nothing is promised of a backend in general: each command may fail, and
/// callers must cope with either outcome. A backend may say more of itself
/// through the three predicates, which by default say nothing.
pub trait TVController {
    /// Whether this backend is one whose commands cannot fail. A backend
    /// claims nothing unless it says otherwise.
    open spec fn never_fails(&self) -> bool {
        false
    }

    /// Whether a power-on command may take this backend to `after` with the
    /// outcome `r`.
    open spec fn turns_on(&self, after: &Self, r: Result<(), TVError>) -> bool {
        true
    }

    /// Whether a standby command may take this backend to `after` with the
    /// outcome `r`.
    open spec fn turns_off(&self, after: &Self, r: Result<(), TVError>) -> bool {
        true
    }

    /// Ask the television to power on.
    fn turn_on_tv(&mut self) -> (r: Result<(), TVError>)
        ensures
            old(self).turns_on(final(self), r),
            old(self).never_fails() ==> r is Ok && final(self).never_fails(),
    ;

    /// Ask the television to go to standby.
    fn turn_off_tv(&mut self) -> (r: Result<(), TVError>)
        ensures
            old(self).turns_off(final(self), r),
            old(self).never_fails() ==> r is Ok && final(self).never_fails(),
    ;
}

/// A backend that accepts every command and does nothing.
#[derive(Debug, Clone, Copy, PartialEq, Eq, Structural)]
pub struct FakeTVController;

impl FakeTVController {
    /// The no-op backend.
    pub fn new() -> (r: FakeTVController)
        ensures
            r == FakeTVController,
    {
        FakeTVController
    }
}

impl TVController for FakeTVController {
    open spec fn never_fails(&self) -> bool {
        true
    }

    open spec fn turns_on(&self, after: &Self, r: Result<(), TVError>) -> bool {
        r is Ok
    }

    open spec fn turns_off(&self, after: &Self, r: Result<(), TVError>) -> bool {
        r is Ok
    }

    fn turn_on_tv(&mut self) -> (r: Result<(), TVError>)
        ensures
            r is Ok,
    {
        Ok(())
    }

    fn turn_off_tv(&mut self) -> (r: Result<(), TVError>)
        ensures
            r is Ok,
    {
        Ok(())
    }
}

} // verus!
