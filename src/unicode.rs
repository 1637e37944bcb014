//! The encodings that string values cross the boundary in: UTF-8, Latin-1
//! and UTF-16 code units.
use vstd::prelude::*;
use vstd::utf8::*;

verus! {

broadcast use group_utf8_lib;

pub open spec fn is_surrogate(u: u16) -> bool {
    0xD800 <= u <= 0xDFFF
}

pub open spec fn is_high_surrogate(u: u16) -> bool {
    0xD800 <= u <= 0xDBFF
}

pub open spec fn is_low_surrogate(u: u16) -> bool {
    0xDC00 <= u <= 0xDFFF
}

/// The scalar value that a high and a low surrogate stand for together.
pub open spec fn pair_scalar(hi: u16, lo: u16) -> u32 {
    (0x10000 + (hi - 0xD800) * 0x400 + (lo - 0xDC00)) as u32
}

/// The scalar values that a sequence of UTF-16 code units decodes to; a
/// surrogate without its partner decodes to U+FFFD.
pub open spec fn decode_utf16(u: Seq<u16>) -> Seq<u32>
    decreases u.len(),
{
    if u.len() == 0 {
        seq![]
    } else if u.len() >= 2 && is_high_surrogate(u[0]) && is_low_surrogate(u[1]) {
        seq![pair_scalar(u[0], u[1])] + decode_utf16(u.skip(2))
    } else if is_surrogate(u[0]) {
        seq![0xFFFDu32] + decode_utf16(u.skip(1))
    } else {
        seq![u[0] as u32] + decode_utf16(u.skip(1))
    }
}

/// The text that a sequence of UTF-16 code units reads as.
pub open spec fn utf16_text(u: Seq<u16>) -> Seq<char> {
    decode_utf16(u).map_values(|v: u32| v as char)
}

/// The UTF-16 code units of one character.
pub open spec fn encode_char_utf16(c: char) -> Seq<u16> {
    let v = c as u32;
    if v < 0x10000 {
        seq![v as u16]
    } else {
        seq![(0xD800 + (v - 0x10000) / 0x400) as u16, (0xDC00 + (v - 0x10000) % 0x400) as u16]
    }
}

/// The UTF-16 code units of a text.
pub open spec fn encode_utf16(cs: Seq<char>) -> Seq<u16>
    decreases cs.len(),
{
    if cs.len() == 0 {
        seq![]
    } else {
        encode_char_utf16(cs[0]) + encode_utf16(cs.drop_first())
    }
}

/// Each code unit read as a Latin-1 byte: its low eight bits.
pub open spec fn latin1_of_units(u: Seq<u16>) -> Seq<u8> {
    u.map_values(|x: u16| x as u8)
}

/// Each Latin-1 byte as a UTF-16 code unit.
pub open spec fn units_of_latin1(b: Seq<u8>) -> Seq<u16> {
    b.map_values(|x: u8| x as u16)
}

/// The UTF-8 bytes of the text that a sequence of UTF-16 code units reads as.
pub open spec fn utf8_of_units(u: Seq<u16>) -> Seq<u8> {
    encode_utf8(utf16_text(u))
}

/// Decoding what a text encodes to gives the text back.
pub proof fn lemma_utf16_round_trip(cs: Seq<char>)
    ensures
        utf16_text(encode_utf16(cs)) == cs,
    decreases cs.len(),
{
    if cs.len() == 0 {
        assert(utf16_text(encode_utf16(cs)) =~= cs);
    } else {
        let rest = cs.drop_first();
        lemma_utf16_round_trip(rest);
        let c = cs[0];
        let v = c as u32;
        char_is_scalar(c);
        let e = encode_utf16(cs);
        let k = encode_char_utf16(c).len() as int;
        assert(e.skip(k) =~= encode_utf16(rest));
        if v < 0x10000 {
            assert(!is_surrogate(v as u16));
            assert(decode_utf16(e) == seq![v] + decode_utf16(encode_utf16(rest)));
        } else {
            let w = (v - 0x10000) as int;
            assert(0 <= w < 0x100000);
            assert(w == (w / 0x400) * 0x400 + w % 0x400) by (nonlinear_arith)
                requires 0 <= w;
            assert(w / 0x400 < 0x400) by (nonlinear_arith)
                requires 0 <= w < 0x100000;
            assert(pair_scalar(e[0], e[1]) == v);
            assert(decode_utf16(e) == seq![v] + decode_utf16(encode_utf16(rest)));
        }
        let d = decode_utf16(encode_utf16(rest));
        assert(decode_utf16(e) == seq![v] + d);
        assert(utf16_text(encode_utf16(rest)) == rest);
        char_u32_cast(c, v);
        assert forall|i: int| 0 <= i < cs.len() implies #[trigger] utf16_text(e)[i] == cs[i] by {
            if i > 0 {
                assert(utf16_text(encode_utf16(rest))[i - 1] == rest[i - 1]);
            }
        }
        assert(utf16_text(e) =~= cs);
    }
}

/// Reads one character of a text: the `char` at position `i`.
fn char_at(s: &str, i: usize) -> (c: char)
    requires
        i < s@.len(),
    ensures
        c == s@[i as int],
{
    s.get_char(i)
}

/// The UTF-16 code units of a text.
pub fn text_to_utf16(s: &str) -> (r: Vec<u16>)
    ensures
        r@ == encode_utf16(s@),
{
    let n = s.unicode_len();
    let mut out: Vec<u16> = Vec::new();
    let mut i: usize = 0;
    assert(s@.skip(0) =~= s@);
    while i < n
        invariant
            n == s@.len(),
            0 <= i <= n,
            encode_utf16(s@) == out@ + encode_utf16(s@.skip(i as int)),
        decreases n - i,
    {
        let c = char_at(s, i);
        let v = c as u32;
        proof {
            let rest = s@.skip(i as int);
            assert(rest.drop_first() =~= s@.skip(i + 1));
            assert(rest[0] == c);
        }
        if v < 0x10000 {
            out.push(v as u16);
            proof {
                assert(encode_char_utf16(c) =~= seq![v as u16]);
            }
        } else {
            let w = v - 0x10000;
            out.push((0xD800 + w / 0x400) as u16);
            out.push((0xDC00 + w % 0x400) as u16);
        }
        proof {
            let rest = s@.skip(i as int);
            assert(encode_utf16(rest) == encode_char_utf16(c) + encode_utf16(s@.skip(i + 1)));
        }
        assert(encode_utf16(s@) =~= out@ + encode_utf16(s@.skip(i + 1)));
        i = i + 1;
    }
    assert(s@.skip(n as int) =~= Seq::<char>::empty());
    assert(out@ =~= encode_utf16(s@));
    out
}

proof fn lemma_utf8_step(u: Seq<u16>, k: int, x: u32)
    requires
        0 <= k <= u.len(),
        decode_utf16(u) == seq![x] + decode_utf16(u.skip(k)),
        is_scalar(x),
    ensures
        utf8_of_units(u) == encode_scalar(x) + utf8_of_units(u.skip(k)),
{
    let t = utf16_text(u);
    assert(t.drop_first() =~= utf16_text(u.skip(k)));
    assert(t[0] == x as char);
}

/// A string's UTF-8 bytes number at most three per UTF-16 code unit.
pub proof fn lemma_utf8_len_bound(u: Seq<u16>)
    ensures
        utf8_of_units(u).len() <= 3 * u.len(),
    decreases u.len(),
{
    if u.len() == 0 {
        assert(utf16_text(u) =~= Seq::<char>::empty());
    } else {
        let paired = u.len() >= 2 && is_high_surrogate(u[0]) && is_low_surrogate(u[1]);
        let k: int = if paired { 2 } else { 1 };
        let x: u32 = if paired {
            pair_scalar(u[0], u[1])
        } else if is_surrogate(u[0]) {
            0xFFFDu32
        } else {
            u[0] as u32
        };
        assert(decode_utf16(u) == seq![x] + decode_utf16(u.skip(k)));
        assert(is_scalar(x));
        lemma_utf8_step(u, k, x);
        lemma_utf8_len_bound(u.skip(k));
        assert(!paired ==> x <= 0xFFFF);
    }
}

/// Appends the UTF-8 encoding of one scalar value.
fn push_scalar_utf8(out: &mut Vec<u8>, x: u32)
    requires
        is_scalar(x),
    ensures
        final(out)@ == old(out)@ + encode_scalar(x),
{
    if x <= 0x7F {
        out.push((x & 0x7F) as u8);
    } else if x <= 0x7FF {
        out.push(0xC0 | ((x >> 6) & 0x1F) as u8);
        out.push(0x80 | (x & 0x3F) as u8);
    } else if x <= 0xFFFF {
        out.push(0xE0 | ((x >> 12) & 0x0F) as u8);
        out.push(0x80 | ((x >> 6) & 0x3F) as u8);
        out.push(0x80 | (x & 0x3F) as u8);
    } else {
        out.push(0xF0 | ((x >> 18) & 0x7) as u8);
        out.push(0x80 | ((x >> 12) & 0x3F) as u8);
        out.push(0x80 | ((x >> 6) & 0x3F) as u8);
        out.push(0x80 | (x & 0x3F) as u8);
    }
    assert(final(out)@ =~= old(out)@ + encode_scalar(x));
}

/// The UTF-8 bytes of the text that UTF-16 code units read as; a surrogate
/// without its partner becomes U+FFFD.
#[verifier::rlimit(40)]
pub fn utf16_to_utf8(u: &Vec<u16>) -> (r: Vec<u8>)
    ensures
        r@ == utf8_of_units(u@),
{
    let n = u.len();
    let mut out: Vec<u8> = Vec::new();
    let mut i: usize = 0;
    assert(u@.skip(0) =~= u@);
    while i < n
        invariant
            n == u@.len(),
            0 <= i <= n,
            utf8_of_units(u@) == out@ + utf8_of_units(u@.skip(i as int)),
        decreases n - i,
    {
        let ghost rest = u@.skip(i as int);
        let a = u[i];
        let mut k: usize = 1;
        let x: u32;
        if i + 1 < n && 0xD800 <= a && a <= 0xDBFF && 0xDC00 <= u[i + 1] && u[i + 1] <= 0xDFFF {
            let b = u[i + 1];
            x = 0x10000 + (a as u32 - 0xD800) * 0x400 + (b as u32 - 0xDC00);
            k = 2;
            assert(rest.skip(2) =~= u@.skip(i + 2));
        } else if 0xD800 <= a && a <= 0xDFFF {
            x = 0xFFFD;
            assert(rest.skip(1) =~= u@.skip(i + 1));
        } else {
            x = a as u32;
            assert(rest.skip(1) =~= u@.skip(i + 1));
        }
        assert(decode_utf16(rest) == seq![x] + decode_utf16(rest.skip(k as int)));
        proof {
            lemma_utf8_step(rest, k as int, x);
        }
        push_scalar_utf8(&mut out, x);
        i = i + k;
        assert(utf8_of_units(u@) =~= out@ + utf8_of_units(u@.skip(i as int)));
    }
    assert(u@.skip(n as int) =~= Seq::<u16>::empty());
    assert(utf16_text(Seq::<u16>::empty()) =~= Seq::<char>::empty());
    assert(out@ =~= utf8_of_units(u@));
    out
}

/// Each Latin-1 byte as a UTF-16 code unit.
pub fn latin1_to_utf16(b: &[u8]) -> (r: Vec<u16>)
    ensures
        r@ == units_of_latin1(b@),
{
    let mut out: Vec<u16> = Vec::new();
    let mut i: usize = 0;
    while i < b.len()
        invariant
            0 <= i <= b@.len(),
            out@ =~= units_of_latin1(b@.take(i as int)),
        decreases b@.len() - i,
    {
        out.push(b[i] as u16);
        i = i + 1;
    }
    assert(b@.take(b@.len() as int) =~= b@);
    out
}

/// Each UTF-16 code unit cut to its low eight bits.
pub fn utf16_to_latin1(u: &Vec<u16>) -> (r: Vec<u8>)
    ensures
        r@ == latin1_of_units(u@),
{
    let mut out: Vec<u8> = Vec::new();
    let mut i: usize = 0;
    while i < u.len()
        invariant
            0 <= i <= u@.len(),
            out@ =~= latin1_of_units(u@.take(i as int)),
        decreases u@.len() - i,
    {
        out.push(u[i] as u8);
        i = i + 1;
    }
    assert(u@.take(u@.len() as int) =~= u@);
    out
}

} // verus!
