use napi::env::NapiEnv;
use napi::result::NapiError;
use napi::string::{fill_capacity, NapiString};
use napi::sys::{NapiValueType, Status};
use napi::value::{NapiAny, NapiValue};

fn context() -> NapiEnv {
    NapiEnv::new(7, 64)
}

#[test]
fn text_round_trip() {
    let mut env = context();
    for text in ["hello", "héllo wörld", "€ and 😀", "日本語", "a\u{0}b"] {
        let s = NapiString::from_str(&mut env, text).unwrap();
        assert_eq!(s.to_string(&env), Ok(text.to_string()));
    }
}

#[test]
fn latin1_round_trip() {
    let mut env = context();
    let bytes: Vec<u8> = (0..=255u8).collect();
    let s = NapiString::from_latin1(&mut env, &bytes).unwrap();
    assert_eq!(s.to_latin1(&env), Ok(bytes));
}

#[test]
fn utf16_round_trip() {
    let mut env = context();
    let units: Vec<u16> = vec![0x48, 0xD83D, 0xDE00, 0xD800, 0x41, 0xDC00, 0xFFFF];
    let s = NapiString::from_utf16(&mut env, &units).unwrap();
    assert_eq!(s.to_utf16(&env), Ok(units));
}

#[test]
fn empty_string_round_trip() {
    let mut env = context();
    let s = NapiString::from_str(&mut env, "").unwrap();
    assert_eq!(s.to_string(&env), Ok(String::new()));
    assert_eq!(s.to_bytes(&env), Ok(vec![]));
    assert_eq!(s.to_latin1(&env), Ok(vec![]));
    assert_eq!(s.to_utf16(&env), Ok(vec![]));
}

#[test]
fn checked_handle_from_created_string() {
    let mut env = context();
    let s = NapiString::from_str(&mut env, "checked text").unwrap();
    let t = NapiString::from_sys_checked(&mut env, s.as_sys_value()).unwrap();
    assert_eq!(t, s);
    assert_eq!(t.to_string(&env), Ok("checked text".to_string()));
}

#[test]
fn checked_handle_of_number_is_type_error() {
    let mut env = context();
    let n = env.create_int64(42).unwrap();
    match NapiString::from_sys_checked(&mut env, n) {
        Err(NapiError::TypeError(message)) => {
            assert_eq!(message.to_string(&env), Ok("String expected".to_string()));
        }
        other => panic!("expected a type error, got {:?}", other),
    }
}

#[test]
fn checked_handle_type_error_message_fails_when_heap_full() {
    let mut env = NapiEnv::new(1, 1);
    let n = env.create_int64(5).unwrap();
    assert_eq!(
        NapiString::from_sys_checked(&mut env, n),
        Err(NapiError::Status(Status::GenericFailure))
    );
}

#[test]
fn checked_handle_of_other_context_is_invalid() {
    let mut env = context();
    let mut other = NapiEnv::new(8, 4);
    let s = NapiString::from_str(&mut other, "elsewhere").unwrap();
    assert_eq!(
        NapiString::from_sys_checked(&mut env, s.as_sys_value()),
        Err(NapiError::Status(Status::InvalidArg))
    );
    assert_eq!(s.to_string(&env), Err(NapiError::Status(Status::InvalidArg)));
}

#[test]
fn utf8_bytes_of_each_width() {
    let mut env = context();
    let s = NapiString::from_str(&mut env, "aé€😀").unwrap();
    assert_eq!(
        s.to_bytes(&env),
        Ok(vec![0x61, 0xC3, 0xA9, 0xE2, 0x82, 0xAC, 0xF0, 0x9F, 0x98, 0x80])
    );
    assert_eq!(s.to_utf16(&env), Ok(vec![0x61, 0xE9, 0x20AC, 0xD83D, 0xDE00]));
}

#[test]
fn lone_surrogate_reads_as_replacement() {
    let mut env = context();
    let s = NapiString::from_utf16(&mut env, &[0x41, 0xD800, 0x42]).unwrap();
    assert_eq!(s.to_bytes(&env), Ok(vec![0x41, 0xEF, 0xBF, 0xBD, 0x42]));
    assert_eq!(s.to_string(&env), Ok("A\u{FFFD}B".to_string()));
}

#[test]
fn latin1_keeps_low_byte() {
    let mut env = context();
    let s = NapiString::from_str(&mut env, "Āé").unwrap();
    assert_eq!(s.to_latin1(&env), Ok(vec![0x00, 0xE9]));
    let l = NapiString::from_latin1(&mut env, &[0xE9, 0x41]).unwrap();
    assert_eq!(l.to_string(&env), Ok("éA".to_string()));
}

#[test]
fn creation_fails_when_heap_full() {
    let mut env = NapiEnv::new(3, 1);
    assert!(NapiString::from_str(&mut env, "one").is_ok());
    assert_eq!(
        NapiString::from_str(&mut env, "two"),
        Err(NapiError::Status(Status::GenericFailure))
    );
    assert_eq!(
        NapiString::from_latin1(&mut env, b"two"),
        Err(NapiError::Status(Status::GenericFailure))
    );
    assert_eq!(
        NapiString::from_utf16(&mut env, &[0x74]),
        Err(NapiError::Status(Status::GenericFailure))
    );
}

#[test]
fn creation_with_pending_exception() {
    let mut env = context();
    let s = NapiString::from_str(&mut env, "boom").unwrap();
    assert_eq!(env.throw(s.as_sys_value()), Ok(()));
    assert!(env.is_exception_pending());
    assert_eq!(
        NapiString::from_str(&mut env, "later"),
        Err(NapiError::PendingException)
    );
    assert_eq!(env.clear_exception(), Some(s.as_sys_value()));
    assert!(!env.is_exception_pending());
    assert!(NapiString::from_str(&mut env, "later").is_ok());
}

#[test]
fn handle_status_results() {
    let mut env = context();
    assert_eq!(env.handle_status(Status::Success), Ok(()));
    assert_eq!(
        env.handle_status(Status::StringExpected),
        Err(NapiError::Status(Status::StringExpected))
    );
    let s = NapiString::from_str(&mut env, "x").unwrap();
    env.throw(s.as_sys_value()).unwrap();
    assert_eq!(
        env.handle_status(Status::GenericFailure),
        Err(NapiError::PendingException)
    );
}

#[test]
fn probe_failure_allocates_no_buffer() {
    let env = context();
    assert_eq!(
        fill_capacity(&env, Status::StringExpected, 0),
        Err(NapiError::Status(Status::StringExpected))
    );
    assert_eq!(
        fill_capacity(&env, Status::InvalidArg, 12),
        Err(NapiError::Status(Status::InvalidArg))
    );
}

#[test]
fn fill_capacity_is_count_plus_one() {
    let env = context();
    assert_eq!(fill_capacity(&env, Status::Success, 0), Ok(1));
    assert_eq!(fill_capacity(&env, Status::Success, 5), Ok(6));
    assert_eq!(
        fill_capacity(&env, Status::Success, usize::MAX),
        Err(NapiError::Status(Status::GenericFailure))
    );
}

#[test]
fn probe_and_fill_through_the_abi() {
    let mut env = context();
    let s = NapiString::from_str(&mut env, "héllo").unwrap();
    let raw = env.as_sys_env();
    let mut count = 0usize;
    let mut nothing: Vec<u8> = Vec::new();
    assert_eq!(
        raw.get_value_string_utf8(s.as_sys_value(), &mut nothing, 0, &mut count),
        Status::Success
    );
    assert_eq!(count, 6);
    let mut buf = vec![0xAAu8; count + 1];
    let mut written = 0usize;
    assert_eq!(
        raw.get_value_string_utf8(s.as_sys_value(), &mut buf, count + 1, &mut written),
        Status::Success
    );
    assert_eq!(written, 6);
    assert_eq!(buf, vec![0x68, 0xC3, 0xA9, 0x6C, 0x6C, 0x6F, 0x00]);
}

#[test]
fn short_buffer_is_cut_and_terminated() {
    let mut env = context();
    let s = NapiString::from_utf16(&mut env, &[1, 2, 3, 4]).unwrap();
    let mut buf = vec![9u16; 5];
    let mut written = 0usize;
    assert_eq!(
        env.as_sys_env()
            .get_value_string_utf16(s.as_sys_value(), &mut buf, 3, &mut written),
        Status::Success
    );
    assert_eq!(written, 2);
    assert_eq!(buf, vec![1, 2, 0, 9, 9]);
}

#[test]
fn reading_a_number_as_string_fails() {
    let mut env = context();
    let n = env.create_int64(1).unwrap();
    let mut count = 0usize;
    let mut nothing: Vec<u16> = Vec::new();
    assert_eq!(
        env.as_sys_env()
            .get_value_string_utf16(n, &mut nothing, 0, &mut count),
        Status::StringExpected
    );
    assert_eq!(NapiAny::with_value(n).value_type(&env), Ok(NapiValueType::Number));
}

#[test]
fn value_belongs_to_its_context() {
    let mut env = context();
    let s = NapiString::from_str(&mut env, "mine").unwrap();
    assert_eq!(s.env(), 7);
    assert_eq!(env.id(), 7);
    assert_eq!(
        NapiAny::with_value(s.as_sys_value()).value_type(&env),
        Ok(NapiValueType::String)
    );
}

#[test]
fn type_error_holds_its_message() {
    let mut env = context();
    let m = NapiString::from_str(&mut env, "bad").unwrap();
    assert_eq!(NapiError::type_error(m), NapiError::TypeError(m));
}
