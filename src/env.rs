//! The context handle: the one gateway through which values are created and
//! read, and the place where status codes become results.
use vstd::prelude::*;
use crate::result::{NapiError, NapiResult};
use crate::sys::{NapiValueType, RawEnv, RawValue, Status};

verus! {

/// One execution context of the host runtime.
pub struct NapiEnv {
    pub(crate) raw: RawEnv,
}

impl NapiEnv {
    /// The raw context underneath.
    pub open(crate) spec fn sys(&self) -> RawEnv {
        self.raw
    }

    pub open(crate) spec fn wf(&self) -> bool {
        self.raw.wf()
    }

    /// The error that a failed status becomes: the pending exception, if the
    /// host has one, else the status itself.
    pub open(crate) spec fn status_error(&self, st: Status) -> NapiError {
        if self.raw.pending() {
            NapiError::PendingException
        } else {
            NapiError::Status(st)
        }
    }

    pub open(crate) spec fn status_result(&self, st: Status) -> NapiResult<()> {
        if st == Status::Success {
            Ok(())
        } else {
            Err(self.status_error(st))
        }
    }

    /// A fresh context with the given identity that holds at most `capacity`
    /// values.
    pub fn new(id: u64, capacity: usize) -> (r: NapiEnv)
        ensures
            r.wf(),
            r.sys().spec_id() == id,
            r.sys().values().len() == 0,
            r.sys().spec_capacity() == capacity,
            !r.sys().pending(),
    {
        NapiEnv { raw: RawEnv::new(id, capacity) }
    }

    /// Turns a status code into a result.
    pub fn handle_status(&self, st: Status) -> (r: NapiResult<()>)
        ensures
            r == self.status_result(st),
    {
        if st == Status::Success {
            Ok(())
        } else if self.raw.is_exception_pending() {
            Err(NapiError::PendingException)
        } else {
            Err(NapiError::Status(st))
        }
    }

    /// The raw context, for calling the ABI directly.
    pub fn as_sys_env(&self) -> (r: &RawEnv)
        ensures
            *r == self.sys(),
    {
        &self.raw
    }

    /// The identity of this context.
    pub fn id(&self) -> (r: u64)
        ensures
            r == self.sys().spec_id(),
    {
        self.raw.id
    }

    pub fn is_exception_pending(&self) -> (r: bool)
        ensures
            r == self.sys().pending(),
    {
        self.raw.is_exception_pending()
    }

    /// Makes a value of this context the pending exception.
    pub fn throw(&mut self, value: RawValue) -> (r: NapiResult<()>)
        ensures
            final(self).wf() == old(self).wf(),
            final(self).sys().values() == old(self).sys().values(),
            final(self).sys().spec_id() == old(self).sys().spec_id(),
            final(self).sys().spec_capacity() == old(self).sys().spec_capacity(),
            old(self).sys().valid(value) ==> r == Ok::<(), NapiError>(()) && final(self).sys().pending(),
            !old(self).sys().valid(value) ==> r == Err::<(), NapiError>(old(self).status_error(Status::InvalidArg))
                && final(self).sys().pending() == old(self).sys().pending(),
    {
        let st = self.raw.throw(value);
        self.handle_status(st)
    }

    /// Takes the pending exception away, if there is one.
    pub fn clear_exception(&mut self) -> (r: Option<RawValue>)
        ensures
            r == old(self).sys().pending_exception(),
            final(self).wf() == old(self).wf(),
            final(self).sys().values() == old(self).sys().values(),
            final(self).sys().spec_id() == old(self).sys().spec_id(),
            final(self).sys().spec_capacity() == old(self).sys().spec_capacity(),
            !final(self).sys().pending(),
    {
        self.raw.clear_exception()
    }

    /// Creates a number value.
    pub fn create_int64(&mut self, n: i64) -> (r: NapiResult<RawValue>)
        requires
            old(self).wf(),
        ensures
            final(self).wf(),
            final(self).sys().spec_id() == old(self).sys().spec_id(),
            final(self).sys().spec_capacity() == old(self).sys().spec_capacity(),
            final(self).sys().pending() == old(self).sys().pending(),
            old(self).sys().alloc_status() == Status::Success ==> r == Ok::<RawValue, NapiError>(
                old(self).sys().next_handle(),
            ) && final(self).sys().valid(old(self).sys().next_handle())
                && final(self).sys().type_at(old(self).sys().next_handle()) == NapiValueType::Number
                && (forall|w: RawValue| #[trigger] old(self).sys().valid(w) ==> final(self).sys().valid(w)
                    && final(self).sys().string_units(w) == old(self).sys().string_units(w)),
            old(self).sys().alloc_status() != Status::Success ==> r == Err::<RawValue, NapiError>(
                old(self).status_error(old(self).sys().alloc_status()),
            ) && final(self).sys().values() == old(self).sys().values(),
    {
        let mut v = RawValue { env: self.raw.id, slot: 0 };
        let st = self.raw.create_int64(n, &mut v);
        match self.handle_status(st) {
            Ok(()) => Ok(v),
            Err(e) => Err(e),
        }
    }
}

} // verus!
