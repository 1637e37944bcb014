//! The capability that every typed value offers, and the untyped value that
//! a type check starts from.
use vstd::prelude::*;
use crate::env::NapiEnv;
use crate::result::{NapiError, NapiResult};
use crate::sys::{NapiValueType, RawValue, Status};
use crate::unicode::encode_utf16;

verus! {

/// A value of one runtime type, bound to the context that it lives in.
pub trait NapiValue: Sized {
    /// The raw handle underneath.
    spec fn handle(&self) -> RawValue;

    /// The runtime type that every value of this kind has.
    spec fn runtime_type() -> NapiValueType;

    /// The message of the type error that a failed check reports.
    spec fn type_message() -> Seq<char>;

    /// The raw handle underneath.
    fn as_sys_value(&self) -> (r: RawValue)
        ensures
            r == self.handle(),
    ;

    /// The identity of the context that the value lives in.
    fn env(&self) -> (r: u64)
        ensures
            r == self.handle().env_id(),
    ;

    /// Wraps a raw handle after checking its runtime type; on a mismatch the
    /// result is a type error whose message is a new string value.
    fn from_sys_checked(env: &mut NapiEnv, value: RawValue) -> (r: NapiResult<Self>)
        requires
            old(env).wf(),
        ensures
            checked(*old(env), *final(env), value, Self::runtime_type(), Self::type_message(),
                match r {
                    Ok(v) => Ok::<RawValue, NapiError>(v.handle()),
                    Err(e) => Err(e),
                }),
    ;
}

/// What checking a raw handle for the runtime type `ty` gives, with the
/// handle of the typed value on success. A handle
/// of another context, or of no value, gives the status error; one of the
/// right type is wrapped as it is; one of another type gives a type error
/// whose message is a new string, unless creating that string fails, and then
/// that failure is what comes back.
pub open spec fn checked(
    old_env: NapiEnv,
    new_env: NapiEnv,
    value: RawValue,
    ty: NapiValueType,
    message: Seq<char>,
    r: NapiResult<RawValue>,
) -> bool {
    let e = old_env.sys();
    let msg = encode_utf16(message);
    let st = e.create_status(msg.len());
    &&& new_env.wf()
    &&& new_env.sys().spec_id() == e.spec_id()
    &&& new_env.sys().pending_exception() == e.pending_exception()
    &&& forall|w: RawValue| #[trigger] e.valid(w) ==> new_env.sys().valid(w)
        && new_env.sys().string_units(w) == e.string_units(w)
    &&& !e.valid(value) ==> r == Err::<RawValue, NapiError>(old_env.status_error(Status::InvalidArg))
        && new_env.sys().values() == e.values()
    &&& e.valid(value) && e.type_at(value) == ty ==> r == Ok::<RawValue, NapiError>(value) && new_env.sys().values() == e.values()
    &&& e.valid(value) && e.type_at(value) != ty && st == Status::Success ==> r is Err
        && r->Err_0 is TypeError && new_env.sys().string_units(r->Err_0->TypeError_0.spec_value()) == Some(msg)
    &&& e.valid(value) && e.type_at(value) != ty && st != Status::Success ==> r == Err::<RawValue, NapiError>(old_env.status_error(st))
        && new_env.sys().values() == e.values()
}

/// A value of any runtime type.
#[derive(Clone, Copy, Debug, PartialEq, Eq, Structural)]
pub struct NapiAny {
    pub(crate) value: RawValue,
}

impl NapiAny {
    pub open(crate) spec fn handle(&self) -> RawValue {
        self.value
    }

    pub fn with_value(value: RawValue) -> (r: NapiAny)
        ensures
            r.handle() == value,
    {
        NapiAny { value }
    }

    /// The runtime type of the value, as the context reports it.
    pub fn value_type(&self, env: &NapiEnv) -> (r: NapiResult<NapiValueType>)
        ensures
            env.sys().valid(self.handle()) ==> r == Ok::<NapiValueType, NapiError>(env.sys().type_at(self.handle())),
            !env.sys().valid(self.handle()) ==> r == Err::<NapiValueType, NapiError>(env.status_error(Status::InvalidArg)),
    {
        let mut t = NapiValueType::Undefined;
        let st = env.as_sys_env().type_of(self.value, &mut t);
        match env.handle_status(st) {
            Ok(()) => Ok(t),
            Err(e) => Err(e),
        }
    }
}

} // verus!
