//! What holds of string values across several operations.
use vstd::prelude::*;
use crate::env::NapiEnv;
use crate::result::{NapiError, NapiResult};
use crate::string::{created, extracted, fill_plan, read_text, NapiString};
use crate::sys::{read_post, NapiValueType, RawValue, Status, MAX_STRING_LENGTH};
use crate::unicode::{
    encode_utf16, latin1_of_units, lemma_utf16_round_trip, units_of_latin1, utf16_text,
};
use crate::value::{checked, NapiValue};

verus! {

/// Text that `from_str` stored reads back unchanged through `to_string`.
pub proof fn law_text_round_trip(
    e0: NapiEnv,
    e1: NapiEnv,
    s: Seq<char>,
    c: NapiResult<NapiString>,
    r: NapiResult<String>,
)
    requires
        created(e0, e1, encode_utf16(s), c),
        c is Ok,
        read_text(e1, c->Ok_0, r),
    ensures
        r is Ok,
        r->Ok_0@ == s,
{
    lemma_string_created(e0, e1, encode_utf16(s), c);
    lemma_utf16_round_trip(s);
}

/// Bytes that `from_latin1` stored read back unchanged through `to_latin1`.
pub proof fn law_latin1_round_trip(
    e0: NapiEnv,
    e1: NapiEnv,
    b: Seq<u8>,
    c: NapiResult<NapiString>,
    r: NapiResult<Vec<u8>>,
)
    requires
        created(e0, e1, units_of_latin1(b), c),
        c is Ok,
        extracted(e1, c->Ok_0, latin1_of_units(e1.sys().units_or_empty(c->Ok_0.handle())), r),
    ensures
        r is Ok,
        r->Ok_0@ == b,
{
    lemma_string_created(e0, e1, units_of_latin1(b), c);
    assert(latin1_of_units(units_of_latin1(b)) =~= b);
}

/// Code units that `from_utf16` stored read back unchanged through
/// `to_utf16`.
pub proof fn law_utf16_round_trip(
    e0: NapiEnv,
    e1: NapiEnv,
    u: Seq<u16>,
    c: NapiResult<NapiString>,
    r: NapiResult<Vec<u16>>,
)
    requires
        created(e0, e1, u, c),
        c is Ok,
        extracted(e1, c->Ok_0, e1.sys().units_or_empty(c->Ok_0.handle()), r),
    ensures
        r is Ok,
        r->Ok_0@ == u,
{
    lemma_string_created(e0, e1, u, c);
}

/// A handle that `from_str` made passes the string check as it is, and the
/// value it gives reads back as the text stored.
pub proof fn law_checked_created_string(
    e0: NapiEnv,
    e1: NapiEnv,
    e2: NapiEnv,
    s: Seq<char>,
    c: NapiResult<NapiString>,
    d: NapiResult<NapiString>,
    r: NapiResult<String>,
)
    requires
        created(e0, e1, encode_utf16(s), c),
        c is Ok,
        checked(e1, e2, c->Ok_0.handle(), NapiValueType::String, NapiString::type_message(),
            match d {
                Ok(v) => Ok::<RawValue, NapiError>(v.handle()),
                Err(e) => Err(e),
            }),
        d is Ok ==> read_text(e2, d->Ok_0, r),
    ensures
        d is Ok,
        d->Ok_0 == c->Ok_0,
        r is Ok,
        r->Ok_0@ == s,
{
    lemma_string_created(e0, e1, encode_utf16(s), c);
    let h = c->Ok_0.handle();
    assert(e1.sys().valid(h));
    assert(e1.sys().type_at(h) == NapiValueType::String);
    assert(d->Ok_0.spec_value() == c->Ok_0.spec_value());
    assert(e2.sys().string_units(h) == e1.sys().string_units(h));
    lemma_utf16_round_trip(s);
}

/// A handle of another runtime type fails the string check with a type
/// error whose message reads "String expected", once that message could be
/// created.
pub proof fn law_checked_other_type(
    e0: NapiEnv,
    e1: NapiEnv,
    v: RawValue,
    d: NapiResult<NapiString>,
    r: NapiResult<String>,
)
    requires
        e0.sys().valid(v),
        e0.sys().type_at(v) != NapiValueType::String,
        e0.sys().create_status(encode_utf16(NapiString::type_message()).len()) == Status::Success,
        checked(e0, e1, v, NapiValueType::String, NapiString::type_message(),
            match d {
                Ok(w) => Ok::<RawValue, NapiError>(w.handle()),
                Err(e) => Err(e),
            }),
        d is Err && d->Err_0 is TypeError ==> read_text(e1, d->Err_0->TypeError_0, r),
    ensures
        d is Err,
        d->Err_0 is TypeError,
        r is Ok,
        r->Ok_0@ == seq!['S', 't', 'r', 'i', 'n', 'g', ' ', 'e', 'x', 'p', 'e', 'c', 't', 'e', 'd'],
{
    let m = d->Err_0->TypeError_0;
    assert(m.handle() == m.spec_value());
    assert(e1.sys().read_status(m.handle()) == Status::Success);
    lemma_utf16_round_trip(NapiString::type_message());
}

/// For a string of `n` elements the probe reports `n`, writes nothing, and
/// the fill buffer is asked for with capacity `n + 1`.
pub proof fn law_buffer_sizing<T>(
    env: NapiEnv,
    elems: Seq<T>,
    old_buf: Seq<T>,
    new_buf: Seq<T>,
    old_count: usize,
    count: usize,
    st: Status,
    capacity: NapiResult<usize>,
)
    requires
        elems.len() <= 3 * MAX_STRING_LENGTH,
        read_post(Status::Success, elems, 0, old_buf, new_buf, old_count, count, st),
        fill_plan(env, st, count, capacity),
    ensures
        count == elems.len(),
        new_buf == old_buf,
        capacity == Ok::<usize, NapiError>((elems.len() + 1) as usize),
{
}

/// A probe that fails leaves the buffer untouched and gives no fill
/// capacity, only the error of the status it reported.
pub proof fn law_probe_failure<T>(
    env: NapiEnv,
    expected: Status,
    elems: Seq<T>,
    old_buf: Seq<T>,
    new_buf: Seq<T>,
    old_count: usize,
    count: usize,
    st: Status,
    capacity: NapiResult<usize>,
)
    requires
        expected != Status::Success,
        read_post(expected, elems, 0, old_buf, new_buf, old_count, count, st),
        fill_plan(env, st, count, capacity),
    ensures
        new_buf == old_buf,
        capacity == Err::<usize, NapiError>(env.status_error(expected)),
{
}

/// A string just created is a valid string of the new context.
proof fn lemma_string_created(e0: NapiEnv, e1: NapiEnv, u: Seq<u16>, c: NapiResult<NapiString>)
    requires
        created(e0, e1, u, c),
        c is Ok,
    ensures
        e1.sys().read_status(c->Ok_0.handle()) == Status::Success,
        e1.sys().units_or_empty(c->Ok_0.handle()) == u,
{
    if e0.sys().create_status(u.len()) != Status::Success {
        assert(c is Err);
    }
}

} // verus!
