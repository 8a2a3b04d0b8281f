//! Choosing the television backend when the service starts.
//!
//! The real backend is used when the link to the control bus comes up, the
//! no-op backend when it does not. The choice is made once.

use vstd::prelude::*;
use crate::cec::{CecError, Connection, InitReply, InitRequest};
use crate::tv::{FakeTVController, TVController, TVError};

verus! {

/// The backend in use: the real one, or the no-op one.
pub enum Backend<C> {
    /// Commands go to the television.
    Real(C),
    /// Commands go nowhere.
    Fake(FakeTVController),
}

impl<C: TVController> TVController for Backend<C> {
    open spec fn never_fails(&self) -> bool {
        match self {
            Backend::Real(c) => c.never_fails(),
            Backend::Fake(_) => true,
        }
    }

    open spec fn turns_on(&self, after: &Self, r: Result<(), TVError>) -> bool {
        match (self, after) {
            (Backend::Real(c), Backend::Real(d)) => c.turns_on(d, r),
            (Backend::Fake(f), Backend::Fake(g)) => f.turns_on(g, r),
            _ => false,
        }
    }

    open spec fn turns_off(&self, after: &Self, r: Result<(), TVError>) -> bool {
        match (self, after) {
            (Backend::Real(c), Backend::Real(d)) => c.turns_off(d, r),
            (Backend::Fake(f), Backend::Fake(g)) => f.turns_off(g, r),
            _ => false,
        }
    }

    fn turn_on_tv(&mut self) -> (r: Result<(), TVError>)
        ensures
            *old(self) is Fake ==> r is Ok,
            *old(self) is Fake <==> *final(self) is Fake,
    {
        match self {
            Backend::Real(c) => c.turn_on_tv(),
            Backend::Fake(f) => f.turn_on_tv(),
        }
    }

    fn turn_off_tv(&mut self) -> (r: Result<(), TVError>)
        ensures
            *old(self) is Fake ==> r is Ok,
            *old(self) is Fake <==> *final(self) is Fake,
    {
        match self {
            Backend::Real(c) => c.turn_off_tv(),
            Backend::Fake(f) => f.turn_off_tv(),
        }
    }
}

/// The backend that follows from an attempt to bring up the real one.
pub open spec fn select_backend<C>(attempt: Result<C, CecError>) -> Backend<C> {
    match attempt {
        Ok(c) => Backend::Real(c),
        Err(_) => Backend::Fake(FakeTVController),
    }
}

/// Take the real backend if it came up, the no-op backend if it did not.
pub fn init_tv_controller<C: TVController>(attempt: Result<C, CecError>) -> (backend: Backend<C>)
    ensures
        backend == select_backend(attempt),
{
    match attempt {
        Ok(c) => Backend::Real(c),
        Err(_) => Backend::Fake(FakeTVController::new()),
    }
}

/// When the real backend does not come up, whatever the reason, the backend
/// chosen is one whose commands cannot fail: every command it is given, then
/// and ever after, succeeds and leaves it the no-op backend.
pub proof fn lemma_fallback_never_fails<C: TVController>(
    reason: CecError,
    after: Backend<C>,
    r: Result<(), TVError>,
)
    ensures
        select_backend::<C>(Err(reason)) is Fake,
        select_backend::<C>(Err(reason)).never_fails(),
        select_backend::<C>(Err(reason)).turns_on(&after, r) ==> r is Ok && after is Fake
            && after.never_fails(),
        select_backend::<C>(Err(reason)).turns_off(&after, r) ==> r is Ok && after is Fake
            && after.never_fails(),
{
}

/// Begin bringing up the link to the control bus with the handle that the
/// adapter library returned: the connection and the first request to carry
/// out for it, or the reason why there is no connection.
pub fn init_cec_connection(handle: usize) -> (r: Result<(Connection, InitRequest), CecError>)
    ensures
        handle == 0 <==> r == Err::<(Connection, InitRequest), CecError>(CecError::InitFailed),
        handle != 0 ==> r is Ok && r->Ok_0.0.wf() && r->Ok_0.0.spec_handle() == handle
            && r->Ok_0.0.spec_stage() == crate::cec::stage_after(InitReply::Begin)
            && Ok::<InitRequest, CecError>(r->Ok_0.1) == crate::cec::init_step(InitReply::Begin),
{
    match Connection::new(handle) {
        Err(e) => Err(e),
        Ok(mut conn) => match conn.init(InitReply::Begin) {
            Err(e) => Err(e),
            Ok(request) => Ok((conn, request)),
        },
    }
}

} // verus!
