//! The raw ABI: untyped value handles into a host runtime's managed heap,
//! status codes, and the primitives that create and read values.
use vstd::prelude::*;
use crate::unicode::{
    encode_utf16, latin1_of_units, latin1_to_utf16, text_to_utf16, units_of_latin1, utf16_to_latin1,
    utf16_to_utf8, utf8_of_units,
};

verus! {

/// The status code that every ABI primitive returns.
#[derive(Clone, Copy, Debug, PartialEq, Eq, Structural)]
pub enum Status {
    Success,
    InvalidArg,
    StringExpected,
    PendingException,
    GenericFailure,
}

/// The runtime type of a value, as the host reports it.
#[derive(Clone, Copy, Debug, PartialEq, Eq, Structural)]
pub enum NapiValueType {
    Undefined,
    Null,
    Boolean,
    Number,
    String,
    Object,
}

/// The most code units that a string of the host runtime can hold.
pub const MAX_STRING_LENGTH: usize = 0x1FFF_FFE8;

/// An opaque, copyable handle to a value in one context's heap. It says
/// nothing of the value's type.
#[derive(Clone, Copy, Debug, PartialEq, Eq, Structural)]
pub struct RawValue {
    pub(crate) env: u64,
    pub(crate) slot: usize,
}

impl RawValue {
    /// The identity of the context that the handle belongs to.
    pub open(crate) spec fn env_id(&self) -> u64 {
        self.env
    }

    pub fn env_of(&self) -> (r: u64)
        ensures
            r == self.env_id(),
    {
        self.env
    }
}

/// A value as the host runtime holds it; strings are UTF-16 code units.
pub enum HostValue {
    Undefined,
    Null,
    Boolean(bool),
    Number(i64),
    String(Vec<u16>),
    Object,
}

pub open spec fn type_of_host(h: HostValue) -> NapiValueType {
    match h {
        HostValue::Undefined => NapiValueType::Undefined,
        HostValue::Null => NapiValueType::Null,
        HostValue::Boolean(_) => NapiValueType::Boolean,
        HostValue::Number(_) => NapiValueType::Number,
        HostValue::String(_) => NapiValueType::String,
        HostValue::Object => NapiValueType::Object,
    }
}

/// One execution context of the host runtime: its heap of values, the most
/// values it can hold, and the exception it has pending, if any.
pub struct RawEnv {
    pub(crate) id: u64,
    pub(crate) heap: Vec<HostValue>,
    pub(crate) capacity: usize,
    pub(crate) exception: Option<RawValue>,
}

/// What a string-reading primitive leaves behind, given what it reports
/// (`expected`) and the elements of the string (`elems`). With a capacity of
/// zero it only reports the number of elements; otherwise it writes as many
/// as fit before one terminating element, and reports how many it wrote.
pub open spec fn read_post<T>(
    expected: Status,
    elems: Seq<T>,
    bufsize: usize,
    old_buf: Seq<T>,
    new_buf: Seq<T>,
    old_result: usize,
    new_result: usize,
    st: Status,
) -> bool {
    &&& st == expected
    &&& st != Status::Success ==> new_buf == old_buf && new_result == old_result
    &&& st == Status::Success && bufsize == 0 ==> new_result == elems.len() && new_buf == old_buf
    &&& st == Status::Success && bufsize > 0 ==> {
        &&& new_result == (if elems.len() < bufsize { elems.len() as int } else { bufsize - 1 })
        &&& new_buf.len() == old_buf.len()
        &&& new_buf.take(new_result as int) == elems.take(new_result as int)
        &&& new_buf.skip(new_result + 1) == old_buf.skip(new_result + 1)
    }
}

/// Writes elements into a caller's buffer as `read_post` describes for a
/// successful read.
fn copy_out<T: Copy>(elems: &Vec<T>, buf: &mut Vec<T>, bufsize: usize, result: &mut usize, nul: T)
    requires
        old(buf)@.len() >= bufsize,
    ensures
        read_post(Status::Success, elems@, bufsize, old(buf)@, final(buf)@, *old(result), *final(result), Status::Success),
{
    if bufsize == 0 {
        *result = elems.len();
        return;
    }
    let n: usize = if elems.len() < bufsize { elems.len() } else { bufsize - 1 };
    let mut i: usize = 0;
    while i < n
        invariant
            n <= elems@.len(),
            n < bufsize <= buf@.len(),
            buf@.len() == old(buf)@.len(),
            0 <= i <= n,
            buf@.take(i as int) == elems@.take(i as int),
            forall|j: int| i <= j < buf@.len() ==> buf@[j] == old(buf)@[j],
        decreases n - i,
    {
        buf.set(i, elems[i]);
        assert(buf@.take(i + 1) =~= elems@.take(i + 1));
        i = i + 1;
    }
    buf.set(n, nul);
    assert(buf@.take(n as int) =~= elems@.take(n as int));
    assert(buf@.skip(n + 1) =~= old(buf)@.skip(n + 1));
    *result = n;
}

impl RawEnv {
    pub open(crate) spec fn spec_id(&self) -> u64 {
        self.id
    }

    pub open(crate) spec fn values(&self) -> Seq<HostValue> {
        self.heap@
    }

    pub open(crate) spec fn spec_capacity(&self) -> nat {
        self.capacity as nat
    }

    pub open(crate) spec fn pending_exception(&self) -> Option<RawValue> {
        self.exception
    }

    pub open(crate) spec fn pending(&self) -> bool {
        self.exception is Some
    }

    /// Every string in the heap is within the host's length limit.
    pub open(crate) spec fn wf(&self) -> bool {
        forall|i: int|
            0 <= i < self.heap@.len() ==> match #[trigger] self.heap@[i] {
                HostValue::String(u) => u@.len() <= MAX_STRING_LENGTH,
                _ => true,
            }
    }

    /// The handle belongs to this context and names a value in its heap.
    pub open(crate) spec fn valid(&self, v: RawValue) -> bool {
        v.env == self.id && v.slot < self.heap@.len()
    }

    pub open(crate) spec fn type_at(&self, v: RawValue) -> NapiValueType
        recommends
            self.valid(v),
    {
        type_of_host(self.heap@[v.slot as int])
    }

    /// The code units of the string that the handle names, if it names one.
    pub open(crate) spec fn string_units(&self, v: RawValue) -> Option<Seq<u16>> {
        if self.valid(v) {
            match self.heap@[v.slot as int] {
                HostValue::String(u) => Some(u@),
                _ => None,
            }
        } else {
            None
        }
    }

    /// The code units of the string that the handle names; none if it
    /// names no string.
    pub open(crate) spec fn units_or_empty(&self, v: RawValue) -> Seq<u16> {
        match self.string_units(v) {
            Some(u) => u,
            None => Seq::empty(),
        }
    }

    /// What reading the handle as a string reports.
    pub open(crate) spec fn read_status(&self, v: RawValue) -> Status {
        if !self.valid(v) {
            Status::InvalidArg
        } else if self.type_at(v) != NapiValueType::String {
            Status::StringExpected
        } else {
            Status::Success
        }
    }

    /// What asking for a new value reports.
    pub open(crate) spec fn alloc_status(&self) -> Status {
        if self.pending() {
            Status::PendingException
        } else if self.heap@.len() >= self.capacity {
            Status::GenericFailure
        } else {
            Status::Success
        }
    }

    /// What asking for a new string of `len` code units reports.
    pub open(crate) spec fn create_status(&self, len: nat) -> Status {
        if self.pending() {
            Status::PendingException
        } else if len > MAX_STRING_LENGTH {
            Status::InvalidArg
        } else {
            self.alloc_status()
        }
    }

    /// The handle that the next value created gets.
    pub open(crate) spec fn next_handle(&self) -> RawValue {
        RawValue { env: self.id, slot: self.heap@.len() as usize }
    }

    /// A context with the given identity that holds at most `capacity` values.
    pub fn new(id: u64, capacity: usize) -> (r: RawEnv)
        ensures
            r.spec_id() == id,
            r.wf(),
            r.values().len() == 0,
            r.spec_capacity() == capacity,
            !r.pending(),
    {
        RawEnv { id, heap: Vec::new(), capacity, exception: None }
    }

    pub fn is_exception_pending(&self) -> (r: bool)
        ensures
            r == self.pending(),
    {
        self.exception.is_some()
    }

    /// Makes a value of this context the pending exception.
    pub fn throw(&mut self, v: RawValue) -> (st: Status)
        ensures
            st == (if old(self).valid(v) { Status::Success } else { Status::InvalidArg }),
            final(self).spec_id() == old(self).spec_id(),
            final(self).values() == old(self).values(),
            final(self).wf() == old(self).wf(),
            final(self).spec_capacity() == old(self).spec_capacity(),
            final(self).pending() == (old(self).pending() || old(self).valid(v)),
    {
        if v.env == self.id && v.slot < self.heap.len() {
            self.exception = Some(v);
            Status::Success
        } else {
            Status::InvalidArg
        }
    }

    /// Takes the pending exception away, if there is one.
    pub fn clear_exception(&mut self) -> (r: Option<RawValue>)
        ensures
            r == old(self).pending_exception(),
            final(self).spec_id() == old(self).spec_id(),
            final(self).values() == old(self).values(),
            final(self).wf() == old(self).wf(),
            final(self).spec_capacity() == old(self).spec_capacity(),
            !final(self).pending(),
    {
        let r = self.exception;
        self.exception = None;
        r
    }

    /// Puts a new value in the heap, unless an exception is pending or the
    /// heap is full.
    fn allocate(&mut self, h: HostValue, result: &mut RawValue) -> (st: Status)
        ensures
            st == old(self).alloc_status(),
            final(self).spec_id() == old(self).spec_id(),
            final(self).spec_capacity() == old(self).spec_capacity(),
            final(self).pending_exception() == old(self).pending_exception(),
            st == Status::Success ==> final(self).values() == old(self).values().push(h)
                && *final(result) == old(self).next_handle(),
            st != Status::Success ==> final(self).values() == old(self).values()
                && *final(result) == *old(result),
    {
        if self.exception.is_some() {
            Status::PendingException
        } else if self.heap.len() >= self.capacity {
            Status::GenericFailure
        } else {
            *result = RawValue { env: self.id, slot: self.heap.len() };
            self.heap.push(h);
            Status::Success
        }
    }

    /// The runtime type of the value that a handle names.
    pub fn type_of(&self, v: RawValue, result: &mut NapiValueType) -> (st: Status)
        ensures
            st == (if self.valid(v) { Status::Success } else { Status::InvalidArg }),
            st == Status::Success ==> *final(result) == self.type_at(v),
            st != Status::Success ==> *final(result) == *old(result),
    {
        if v.env != self.id || v.slot >= self.heap.len() {
            return Status::InvalidArg;
        }
        *result = match &self.heap[v.slot] {
            HostValue::Undefined => NapiValueType::Undefined,
            HostValue::Null => NapiValueType::Null,
            HostValue::Boolean(_) => NapiValueType::Boolean,
            HostValue::Number(_) => NapiValueType::Number,
            HostValue::String(_) => NapiValueType::String,
            HostValue::Object => NapiValueType::Object,
        };
        Status::Success
    }

    /// The code units of the string that a handle names.
    pub fn units_of(&self, v: RawValue) -> (r: Option<&Vec<u16>>)
        ensures
            match r {
                Some(u) => self.string_units(v) == Some(u@),
                None => self.string_units(v) is None,
            },
    {
        if v.env != self.id || v.slot >= self.heap.len() {
            return None;
        }
        match &self.heap[v.slot] {
            HostValue::String(u) => Some(u),
            _ => None,
        }
    }
}

impl RawEnv {
    /// Reads a string as UTF-8 bytes.
    pub fn get_value_string_utf8(
        &self,
        v: RawValue,
        buf: &mut Vec<u8>,
        bufsize: usize,
        result: &mut usize,
    ) -> (st: Status)
        requires
            old(buf)@.len() >= bufsize,
        ensures
            read_post(self.read_status(v), utf8_of_units(self.units_or_empty(v)), bufsize,
                old(buf)@, final(buf)@, *old(result), *final(result), st),
    {
        if v.env != self.id || v.slot >= self.heap.len() {
            return Status::InvalidArg;
        }
        match self.units_of(v) {
            Some(u) => {
                let elems = utf16_to_utf8(u);
                copy_out(&elems, buf, bufsize, result, 0u8);
                Status::Success
            },
            None => Status::StringExpected,
        }
    }

    /// Reads a string as Latin-1 bytes: each code unit cut to its low eight
    /// bits.
    pub fn get_value_string_latin1(
        &self,
        v: RawValue,
        buf: &mut Vec<u8>,
        bufsize: usize,
        result: &mut usize,
    ) -> (st: Status)
        requires
            old(buf)@.len() >= bufsize,
        ensures
            read_post(self.read_status(v), latin1_of_units(self.units_or_empty(v)), bufsize,
                old(buf)@, final(buf)@, *old(result), *final(result), st),
    {
        if v.env != self.id || v.slot >= self.heap.len() {
            return Status::InvalidArg;
        }
        match self.units_of(v) {
            Some(u) => {
                let elems = utf16_to_latin1(u);
                copy_out(&elems, buf, bufsize, result, 0u8);
                Status::Success
            },
            None => Status::StringExpected,
        }
    }

    /// Reads a string as UTF-16 code units.
    pub fn get_value_string_utf16(
        &self,
        v: RawValue,
        buf: &mut Vec<u16>,
        bufsize: usize,
        result: &mut usize,
    ) -> (st: Status)
        requires
            old(buf)@.len() >= bufsize,
        ensures
            read_post(self.read_status(v), self.units_or_empty(v), bufsize,
                old(buf)@, final(buf)@, *old(result), *final(result), st),
    {
        if v.env != self.id || v.slot >= self.heap.len() {
            return Status::InvalidArg;
        }
        match self.units_of(v) {
            Some(u) => {
                copy_out(u, buf, bufsize, result, 0u16);
                Status::Success
            },
            None => Status::StringExpected,
        }
    }

    /// Creates a string from UTF-8 text.
    pub fn create_string_utf8(&mut self, s: &str, result: &mut RawValue) -> (st: Status)
        requires
            old(self).wf(),
        ensures
            create_post(*old(self), *final(self), *old(result), *final(result), st,
                encode_utf16(s@)),
    {
        let u = text_to_utf16(s);
        self.create_string(u, result)
    }

    /// Puts a new string in the heap, unless an exception is pending, the
    /// string is too long or the heap is full.
    fn create_string(&mut self, u: Vec<u16>, result: &mut RawValue) -> (st: Status)
        requires
            old(self).wf(),
        ensures
            create_post(*old(self), *final(self), *old(result), *final(result), st, u@),
    {
        if self.exception.is_some() {
            return Status::PendingException;
        }
        if u.len() > MAX_STRING_LENGTH {
            return Status::InvalidArg;
        }
        let ghost units = u@;
        let st = self.allocate(HostValue::String(u), result);
        proof {
            if st == Status::Success {
                let n = old(self).values().len() as int;
                assert(final(self).values()[n] == HostValue::String(u));
                assert forall|i: int| 0 <= i < final(self).heap@.len() implies match #[trigger] final(self).heap@[i] {
                    HostValue::String(w) => w@.len() <= MAX_STRING_LENGTH,
                    _ => true,
                } by {
                    if i < n {
                        assert(final(self).heap@[i] == old(self).heap@[i]);
                    }
                }
            }
        }
        st
    }

    /// Creates a string from Latin-1 bytes.
    pub fn create_string_latin1(&mut self, b: &[u8], result: &mut RawValue) -> (st: Status)
        requires
            old(self).wf(),
        ensures
            create_post(*old(self), *final(self), *old(result), *final(result), st,
                units_of_latin1(b@)),
    {
        let u = latin1_to_utf16(b);
        self.create_string(u, result)
    }

    /// Creates a string from UTF-16 code units.
    pub fn create_string_utf16(&mut self, u: &[u16], result: &mut RawValue) -> (st: Status)
        requires
            old(self).wf(),
        ensures
            create_post(*old(self), *final(self), *old(result), *final(result), st, u@),
    {
        let v = vstd::slice::slice_to_vec(u);
        self.create_string(v, result)
    }

    /// Creates a number.
    pub fn create_int64(&mut self, n: i64, result: &mut RawValue) -> (st: Status)
        requires
            old(self).wf(),
        ensures
            final(self).wf(),
            st == old(self).alloc_status(),
            final(self).spec_id() == old(self).spec_id(),
            final(self).spec_capacity() == old(self).spec_capacity(),
            final(self).pending() == old(self).pending(),
            st == Status::Success ==> final(self).values().len() == old(self).values().len() + 1
                && *final(result) == old(self).next_handle()
                && final(self).valid(*final(result))
                && final(self).type_at(*final(result)) == NapiValueType::Number
                && (forall|w: RawValue| #[trigger] old(self).valid(w) ==> final(self).valid(w)
                    && final(self).string_units(w) == old(self).string_units(w)),
            st != Status::Success ==> final(self).values() == old(self).values()
                && *final(result) == *old(result),
    {
        let st = self.allocate(HostValue::Number(n), result);
        proof {
            if st == Status::Success {
                let k = old(self).values().len() as int;
                assert(final(self).values()[k] == HostValue::Number(n));
                assert forall|i: int| 0 <= i < final(self).heap@.len() implies match #[trigger] final(self).heap@[i] {
                    HostValue::String(w) => w@.len() <= MAX_STRING_LENGTH,
                    _ => true,
                } by {
                    if i < k {
                        assert(final(self).heap@[i] == old(self).heap@[i]);
                    }
                }
            }
        }
        st
    }
}

/// What a string-creating primitive leaves behind: on success a new string
/// with code units `u` at the next handle, every other value kept.
pub open spec fn create_post(
    old_env: RawEnv,
    new_env: RawEnv,
    old_result: RawValue,
    new_result: RawValue,
    st: Status,
    u: Seq<u16>,
) -> bool {
    &&& st == old_env.create_status(u.len())
    &&& new_env.wf()
    &&& new_env.spec_id() == old_env.spec_id()
    &&& new_env.spec_capacity() == old_env.spec_capacity()
    &&& new_env.pending_exception() == old_env.pending_exception()
    &&& st == Status::Success ==> {
        &&& new_env.values().len() == old_env.values().len() + 1
        &&& new_result == old_env.next_handle()
        &&& new_env.string_units(new_result) == Some(u)
        &&& forall|w: RawValue| #[trigger] old_env.valid(w) ==> new_env.valid(w)
            && new_env.string_units(w) == old_env.string_units(w)
    }
    &&& st != Status::Success ==> new_env.values() == old_env.values() && new_result == old_result
}

} // verus!
