//! String values: created from UTF-8, Latin-1 or UTF-16, checked from an
//! untyped handle, and read back in the same three encodings.
use vstd::prelude::*;
use vstd::utf8::{decode_utf8, encode_utf8_decode_utf8, encode_utf8_valid_utf8, valid_utf8};
use crate::env::NapiEnv;
use crate::result::{NapiError, NapiResult};
use crate::sys::{NapiValueType, RawEnv, RawValue, Status, MAX_STRING_LENGTH};
use crate::unicode::{
    encode_utf16, latin1_of_units, lemma_utf8_len_bound, units_of_latin1, utf16_text,
    utf8_of_units,
};
use crate::value::{NapiAny, NapiValue};

verus! {

/// A value that the host runtime reports as a string.
#[derive(Clone, Copy, Debug, PartialEq, Eq, Structural)]
pub struct NapiString {
    pub(crate) value: RawValue,
}

/// One of the encodings that a string can be read in: the element type, what
/// the string's elements are in it, and the ABI primitive that reads them.
pub trait StringEncoding {
    type Unit: Copy;

    /// The elements of a string with these UTF-16 code units.
    spec fn elements(u: Seq<u16>) -> Seq<Self::Unit>;

    proof fn lemma_elements_len(u: Seq<u16>)
        ensures
            Self::elements(u).len() <= 3 * u.len(),
    ;

    /// The element that fills a buffer before it is written.
    fn blank() -> Self::Unit;

    /// The ABI primitive: with `bufsize` zero it reports the number of
    /// elements; otherwise it writes what fits and a terminator.
    fn get_value(
        env: &RawEnv,
        value: RawValue,
        buf: &mut Vec<Self::Unit>,
        bufsize: usize,
        result: &mut usize,
    ) -> (st: Status)
        requires
            old(buf)@.len() >= bufsize,
        ensures
            crate::sys::read_post(env.read_status(value), Self::elements(env.units_or_empty(value)),
                bufsize, old(buf)@, final(buf)@, *old(result), *final(result), st),
    ;
}

/// Strings read as UTF-8 bytes.
pub struct Utf8;

/// Strings read as Latin-1 bytes.
pub struct Latin1;

/// Strings read as UTF-16 code units.
pub struct Utf16;

impl StringEncoding for Utf8 {
    type Unit = u8;

    open spec fn elements(u: Seq<u16>) -> Seq<u8> {
        utf8_of_units(u)
    }

    proof fn lemma_elements_len(u: Seq<u16>) {
        lemma_utf8_len_bound(u);
    }

    fn blank() -> u8 {
        0
    }

    fn get_value(
        env: &RawEnv,
        value: RawValue,
        buf: &mut Vec<u8>,
        bufsize: usize,
        result: &mut usize,
    ) -> (st: Status) {
        env.get_value_string_utf8(value, buf, bufsize, result)
    }
}

impl StringEncoding for Latin1 {
    type Unit = u8;

    open spec fn elements(u: Seq<u16>) -> Seq<u8> {
        latin1_of_units(u)
    }

    proof fn lemma_elements_len(u: Seq<u16>) {
    }

    fn blank() -> u8 {
        0
    }

    fn get_value(
        env: &RawEnv,
        value: RawValue,
        buf: &mut Vec<u8>,
        bufsize: usize,
        result: &mut usize,
    ) -> (st: Status) {
        env.get_value_string_latin1(value, buf, bufsize, result)
    }
}

impl StringEncoding for Utf16 {
    type Unit = u16;

    open spec fn elements(u: Seq<u16>) -> Seq<u16> {
        u
    }

    proof fn lemma_elements_len(u: Seq<u16>) {
    }

    fn blank() -> u16 {
        0
    }

    fn get_value(
        env: &RawEnv,
        value: RawValue,
        buf: &mut Vec<u16>,
        bufsize: usize,
        result: &mut usize,
    ) -> (st: Status) {
        env.get_value_string_utf16(value, buf, bufsize, result)
    }
}

/// What creating a string with code units `u` leaves behind: on success a
/// new string value at the next handle and every older value kept; on
/// failure the error, and the heap as it was.
pub open spec fn created(old_env: NapiEnv, new_env: NapiEnv, u: Seq<u16>, r: NapiResult<NapiString>) -> bool {
    let st = old_env.sys().create_status(u.len());
    &&& new_env.wf()
    &&& new_env.sys().spec_id() == old_env.sys().spec_id()
    &&& new_env.sys().spec_capacity() == old_env.sys().spec_capacity()
    &&& new_env.sys().pending_exception() == old_env.sys().pending_exception()
    &&& st == Status::Success ==> {
        &&& r is Ok
        &&& r->Ok_0.handle() == old_env.sys().next_handle()
        &&& new_env.sys().string_units(r->Ok_0.handle()) == Some(u)
        &&& new_env.sys().values().len() == old_env.sys().values().len() + 1
        &&& forall|w: RawValue| #[trigger] old_env.sys().valid(w) ==> new_env.sys().valid(w)
            && new_env.sys().string_units(w) == old_env.sys().string_units(w)
    }
    &&& st != Status::Success ==> {
        &&& r == Err::<NapiString, NapiError>(old_env.status_error(st))
        &&& new_env.sys().values() == old_env.sys().values()
    }
}

/// What reading a string's elements gives: the elements if the handle names
/// a string of this context, else the error of the status reported.
pub open spec fn extracted<T>(env: NapiEnv, s: NapiString, elems: Seq<T>, r: NapiResult<Vec<T>>) -> bool {
    let st = env.sys().read_status(s.handle());
    &&& st == Status::Success ==> r is Ok && r->Ok_0@ == elems
    &&& st != Status::Success ==> r == Err::<Vec<T>, NapiError>(env.status_error(st))
}

/// What reading a string as text gives: the text that its code units read as
/// if the handle names a string of this context, else the error of the status
/// reported.
pub open spec fn read_text(env: NapiEnv, s: NapiString, r: NapiResult<String>) -> bool {
    let st = env.sys().read_status(s.handle());
    &&& st == Status::Success ==> r is Ok && r->Ok_0@ == utf16_text(env.sys().units_or_empty(s.handle()))
    &&& st != Status::Success ==> r == Err::<String, NapiError>(env.status_error(st))
}

/// The elements of the string that a value names, in an encoding.
pub open spec fn string_elements<E: StringEncoding>(env: NapiEnv, s: NapiString) -> Seq<E::Unit> {
    E::elements(env.sys().units_or_empty(s.handle()))
}

/// The capacity of the fill buffer, from what the probe reported: the error
/// of a failed probe (and no buffer at all), else one element more than the
/// count, for the terminator.
pub open spec fn fill_plan(env: NapiEnv, probe: Status, count: usize, r: NapiResult<usize>) -> bool {
    &&& probe != Status::Success ==> r == Err::<usize, NapiError>(env.status_error(probe))
    &&& probe == Status::Success && count < usize::MAX ==> r == Ok::<usize, NapiError>((count + 1) as usize)
    &&& probe == Status::Success && count == usize::MAX ==> r == Err::<usize, NapiError>(
        NapiError::Status(Status::GenericFailure),
    )
}

/// Computes the capacity of the fill buffer as `fill_plan` says.
pub fn fill_capacity(env: &NapiEnv, probe: Status, count: usize) -> (r: NapiResult<usize>)
    ensures
        fill_plan(*env, probe, count, r),
{
    match env.handle_status(probe) {
        Ok(()) => {
            if count < usize::MAX {
                Ok(count + 1)
            } else {
                Err(NapiError::Status(Status::GenericFailure))
            }
        },
        Err(e) => Err(e),
    }
}

impl NapiString {
    pub open(crate) spec fn spec_value(&self) -> RawValue {
        self.value
    }

    /// Creates a string value from UTF-8 text.
    pub fn from_str(env: &mut NapiEnv, value: &str) -> (r: NapiResult<Self>)
        requires
            old(env).wf(),
        ensures
            created(*old(env), *final(env), encode_utf16(value@), r),
    {
        let mut sys_value = RawValue { env: env.raw.id, slot: 0 };
        let st = env.raw.create_string_utf8(value, &mut sys_value);
        match env.handle_status(st) {
            Ok(()) => Ok(NapiString { value: sys_value }),
            Err(e) => Err(e),
        }
    }

    /// Creates a string value from Latin-1 bytes.
    pub fn from_latin1(env: &mut NapiEnv, value: &[u8]) -> (r: NapiResult<Self>)
        requires
            old(env).wf(),
        ensures
            created(*old(env), *final(env), units_of_latin1(value@), r),
    {
        let mut sys_value = RawValue { env: env.raw.id, slot: 0 };
        let st = env.raw.create_string_latin1(value, &mut sys_value);
        match env.handle_status(st) {
            Ok(()) => Ok(NapiString { value: sys_value }),
            Err(e) => Err(e),
        }
    }

    /// Creates a string value from UTF-16 code units.
    pub fn from_utf16(env: &mut NapiEnv, value: &[u16]) -> (r: NapiResult<Self>)
        requires
            old(env).wf(),
        ensures
            created(*old(env), *final(env), value@, r),
    {
        let mut sys_value = RawValue { env: env.raw.id, slot: 0 };
        let st = env.raw.create_string_utf16(value, &mut sys_value);
        match env.handle_status(st) {
            Ok(()) => Ok(NapiString { value: sys_value }),
            Err(e) => Err(e),
        }
    }

    /// Reads the string's elements in an encoding: asks for their number,
    /// fills a buffer of one element more, and drops the terminator.
    fn to_vec<E: StringEncoding>(&self, env: &NapiEnv) -> (r: NapiResult<Vec<E::Unit>>)
        requires
            env.wf(),
        ensures
            extracted(*env, *self, string_elements::<E>(*env, *self), r),
    {
        let ghost elems = string_elements::<E>(*env, *self);
        proof {
            let u = env.sys().units_or_empty(self.value);
            E::lemma_elements_len(u);
            if env.sys().read_status(self.value) == Status::Success {
                let i = self.value.slot as int;
                assert(match env.sys().heap@[i] {
                    crate::sys::HostValue::String(w) => w@.len() <= MAX_STRING_LENGTH,
                    _ => true,
                });
            }
        }
        let mut bufsize: usize = 0;
        let mut probe_buf: Vec<E::Unit> = Vec::new();
        let st = E::get_value(env.as_sys_env(), self.value, &mut probe_buf, 0, &mut bufsize);
        let capacity = match fill_capacity(env, st, bufsize) {
            Ok(c) => c,
            Err(e) => {
                return Err(e);
            },
        };
        let mut buffer: Vec<E::Unit> = Vec::new();
        let blank = E::blank();
        let mut i: usize = 0;
        while i < capacity
            invariant
                buffer@.len() == i,
                i <= capacity,
            decreases capacity - i,
        {
            buffer.push(blank);
            i = i + 1;
        }
        let mut written: usize = 0;
        let st = E::get_value(env.as_sys_env(), self.value, &mut buffer, capacity, &mut written);
        match env.handle_status(st) {
            Ok(()) => {},
            Err(e) => {
                return Err(e);
            },
        }
        buffer.pop();
        assert(buffer@ =~= elems);
        Ok(buffer)
    }

    /// The string as UTF-8 bytes; a surrogate without its partner becomes
    /// U+FFFD.
    pub fn to_bytes(&self, env: &NapiEnv) -> (r: NapiResult<Vec<u8>>)
        requires
            env.wf(),
        ensures
            extracted(*env, *self, utf8_of_units(env.sys().units_or_empty(self.handle())), r),
    {
        self.to_vec::<Utf8>(env)
    }

    /// The string as Latin-1 bytes: each code unit cut to its low eight bits.
    pub fn to_latin1(&self, env: &NapiEnv) -> (r: NapiResult<Vec<u8>>)
        requires
            env.wf(),
        ensures
            extracted(*env, *self, latin1_of_units(env.sys().units_or_empty(self.handle())), r),
    {
        self.to_vec::<Latin1>(env)
    }

    /// The string as UTF-16 code units.
    pub fn to_utf16(&self, env: &NapiEnv) -> (r: NapiResult<Vec<u16>>)
        requires
            env.wf(),
        ensures
            extracted(*env, *self, env.sys().units_or_empty(self.handle()), r),
    {
        self.to_vec::<Utf16>(env)
    }

    /// The string as text. The bytes are checked to be UTF-8 before they
    /// become a `String`, rather than trusted; they always are.
    pub fn to_string(&self, env: &NapiEnv) -> (r: NapiResult<String>)
        requires
            env.wf(),
        ensures
            read_text(*env, *self, r),
    {
        let bytes = match self.to_bytes(env) {
            Ok(b) => b,
            Err(e) => {
                return Err(e);
            },
        };
        proof {
            let t = utf16_text(env.sys().units_or_empty(self.value));
            encode_utf8_valid_utf8(t);
            encode_utf8_decode_utf8(t);
        }
        match string_from_utf8(bytes) {
            Some(s) => Ok(s),
            None => Err(NapiError::Status(Status::StringExpected)),
        }
    }

    /// Wraps a handle known to name a string.
    pub(crate) fn construct(value: RawValue) -> (r: Self)
        ensures
            r.handle() == value,
    {
        NapiString { value }
    }
}

/// Relies on `String::from_utf8`: the text that the bytes encode if they are
/// UTF-8, and nothing otherwise.
#[verifier::external_body]
fn string_from_utf8(bytes: Vec<u8>) -> (r: Option<String>)
    ensures
        valid_utf8(bytes@) ==> r is Some && r->Some_0@ == decode_utf8(bytes@),
        !valid_utf8(bytes@) ==> r is None,
{
    String::from_utf8(bytes).ok()
}

impl NapiValue for NapiString {
    open spec fn handle(&self) -> RawValue {
        self.spec_value()
    }

    open spec fn runtime_type() -> NapiValueType {
        NapiValueType::String
    }

    open spec fn type_message() -> Seq<char> {
        seq!['S', 't', 'r', 'i', 'n', 'g', ' ', 'e', 'x', 'p', 'e', 'c', 't', 'e', 'd']
    }

    fn as_sys_value(&self) -> (r: RawValue) {
        self.value
    }

    fn env(&self) -> (r: u64) {
        self.value.env_of()
    }

    fn from_sys_checked(env: &mut NapiEnv, value: RawValue) -> (r: NapiResult<Self>) {
        let t = match NapiAny::with_value(value).value_type(env) {
            Ok(t) => t,
            Err(e) => {
                return Err(e);
            },
        };
        if t != NapiValueType::String {
            let msg = "String expected";
            proof {
                reveal_strlit("String expected");
                assert(msg@ =~= Self::type_message());
            }
            let message = match NapiString::from_str(env, msg) {
                Ok(m) => m,
                Err(e) => {
                    return Err(e);
                },
            };
            return Err(NapiError::type_error(message));
        }
        Ok(NapiString::construct(value))
    }
}

} // verus!
