//! API keys at rest: the protected bytes are stored as base64 text.
use crate::error::{AppError, Result};
use crate::text::{owned, string_push, trim, trim_str};
use vstd::prelude::*;
use vstd::utf8::encode_utf8;

verus! {

/// The store of protected secrets for one purpose.
pub struct SecretStore {
    purpose: String,
}

impl SecretStore {
    /// A store for the given purpose, which describes the protected data.
    pub fn new(purpose: &str) -> (r: SecretStore)
        ensures
            r.purpose_text() == purpose@,
    {
        SecretStore { purpose: owned(purpose) }
    }

    /// The purpose given at creation.
    pub closed spec fn purpose_text(&self) -> Seq<char> {
        self.purpose@
    }

    /// The purpose given at creation.
    pub fn purpose(&self) -> (r: &str)
        ensures
            r@ == self.purpose_text(),
    {
        self.purpose.as_str()
    }
}

/// The base64 digit of a six-bit value.
pub open spec fn base64_digit(v: u8) -> char {
    if v < 26 {
        (('A' as u32) + v) as char
    } else if v < 52 {
        (('a' as u32) + (v - 26)) as char
    } else if v < 62 {
        (('0' as u32) + (v - 52)) as char
    } else if v == 62 {
        '+'
    } else {
        '/'
    }
}

/// The four characters for three bytes.
pub open spec fn encode_triple(b0: u8, b1: u8, b2: u8) -> Seq<char> {
    seq![
        base64_digit(b0 >> 2),
        base64_digit(((b0 & 3) << 4) | (b1 >> 4)),
        base64_digit(((b1 & 15) << 2) | (b2 >> 6)),
        base64_digit(b2 & 63),
    ]
}

/// The four characters for the last one or two bytes, padded with `=`.
pub open spec fn encode_tail(b: Seq<u8>) -> Seq<char> {
    if b.len() == 2 {
        seq![
            base64_digit(b[0] >> 2),
            base64_digit(((b[0] & 3) << 4) | (b[1] >> 4)),
            base64_digit((b[1] & 15) << 2),
            '=',
        ]
    } else if b.len() == 1 {
        seq![base64_digit(b[0] >> 2), base64_digit((b[0] & 3) << 4), '=', '=']
    } else {
        Seq::empty()
    }
}

/// Base64 of a whole number of three-byte groups.
pub open spec fn encode_groups(b: Seq<u8>) -> Seq<char>
    decreases b.len(),
{
    if b.len() < 3 {
        Seq::empty()
    } else {
        encode_groups(b.take(b.len() - 3)) + encode_triple(
            b[b.len() - 3],
            b[b.len() - 2],
            b[b.len() - 1],
        )
    }
}

/// Standard base64 with `=` padding.
pub open spec fn base64_text(b: Seq<u8>) -> Seq<char> {
    let whole = (b.len() / 3) * 3;
    encode_groups(b.take(whole as int)) + encode_tail(b.skip(whole as int))
}

/// The six-bit value of a base64 character, 64 for `=`, 255 for any other byte.
pub open spec fn base64_value(c: u8) -> u8 {
    if 65 <= c <= 90 {
        (c - 65) as u8
    } else if 97 <= c <= 122 {
        (c - 97 + 26) as u8
    } else if 48 <= c <= 57 {
        (c - 48 + 52) as u8
    } else if c == 43 {
        62
    } else if c == 47 {
        63
    } else if c == 61 {
        64
    } else {
        255
    }
}

/// The bytes of one group of four values.
pub open spec fn decode_quad(v0: u8, v1: u8, v2: u8, v3: u8) -> Seq<u8> {
    seq![((v0 << 2) | (v1 >> 4)) as u8] + (if v2 != 64 {
        seq![((v1 << 4) | (v2 >> 2)) as u8]
    } else {
        Seq::empty()
    }) + (if v3 != 64 {
        seq![((v2 << 6) | v3) as u8]
    } else {
        Seq::empty()
    })
}

/// Decodes groups of four bytes; `None` when a byte is not base64.
pub open spec fn decode_groups(b: Seq<u8>) -> Option<Seq<u8>>
    decreases b.len(),
{
    if b.len() < 4 {
        Some(Seq::empty())
    } else {
        match decode_groups(b.take(b.len() - 4)) {
            None => None,
            Some(out) => {
                let v0 = base64_value(b[b.len() - 4]);
                let v1 = base64_value(b[b.len() - 3]);
                let v2 = base64_value(b[b.len() - 2]);
                let v3 = base64_value(b[b.len() - 1]);
                if v0 == 255 || v1 == 255 || v2 == 255 || v3 == 255 {
                    None
                } else {
                    Some(out + decode_quad(v0, v1, v2, v3))
                }
            },
        }
    }
}

/// The message for a text whose length is not a multiple of four.
pub open spec fn bad_length_message() -> Seq<char> {
    "无效的 base64 密文长度"@
}

/// The message for a byte outside the base64 alphabet.
pub open spec fn bad_char_message() -> Seq<char> {
    "无效的 base64 字符"@
}

/// How a stored text is decoded: trimmed, then read byte by byte in groups
/// of four.
pub open spec fn base64_decoded(text: Seq<char>) -> std::result::Result<Seq<u8>, Seq<char>> {
    let bytes = encode_utf8(trim(text));
    if bytes.len() % 4 != 0 {
        Err(bad_length_message())
    } else {
        match decode_groups(bytes) {
            Some(out) => Ok(out),
            None => Err(bad_char_message()),
        }
    }
}

/// The base64 digit of a six-bit value.
fn base64_digit_char(v: u8) -> (c: char)
    requires
        v < 64,
    ensures
        c == base64_digit(v),
{
    if v < 26 {
        (65 + v) as char
    } else if v < 52 {
        (97 + (v - 26)) as char
    } else if v < 62 {
        (48 + (v - 52)) as char
    } else if v == 62 {
        '+'
    } else {
        '/'
    }
}

/// Standard base64 of `bytes`, with `=` padding.
pub fn base64_encode(bytes: &[u8]) -> (r: String)
    ensures
        r@ == base64_text(bytes@),
{
    let mut out = String::new();
    let n = bytes.len();
    let whole = (n / 3) * 3;
    let mut i: usize = 0;
    while i < whole
        invariant
            n == bytes.len(),
            whole == (n / 3) * 3,
            i <= whole,
            i % 3 == 0,
            out@ == encode_groups(bytes@.take(i as int)),
        decreases whole - i,
    {
        let b0 = bytes[i];
        let b1 = bytes[i + 1];
        let b2 = bytes[i + 2];
        assert((b0 >> 2) < 64 && (((b0 & 3) << 4) | (b1 >> 4)) < 64 && (((b1 & 15) << 2) | (b2 >> 6))
            < 64 && (b2 & 63) < 64) by (bit_vector);
        string_push(&mut out, base64_digit_char(b0 >> 2));
        string_push(&mut out, base64_digit_char(((b0 & 3) << 4) | (b1 >> 4)));
        string_push(&mut out, base64_digit_char(((b1 & 15) << 2) | (b2 >> 6)));
        string_push(&mut out, base64_digit_char(b2 & 63));
        proof {
            let t = bytes@.take(i + 3);
            assert(t.take(t.len() - 3) == bytes@.take(i as int));
            assert(t[t.len() - 3] == b0);
            assert(t[t.len() - 2] == b1);
            assert(t[t.len() - 1] == b2);
            assert(out@ =~= encode_groups(bytes@.take(i as int)) + encode_triple(b0, b1, b2));
        }
        i = i + 3;
    }
    let ghost rest = bytes@.skip(whole as int);
    if n - whole == 2 {
        let b0 = bytes[whole];
        let b1 = bytes[whole + 1];
        assert((b0 >> 2) < 64 && (((b0 & 3) << 4) | (b1 >> 4)) < 64 && ((b1 & 15) << 2) < 64)
            by (bit_vector);
        string_push(&mut out, base64_digit_char(b0 >> 2));
        string_push(&mut out, base64_digit_char(((b0 & 3) << 4) | (b1 >> 4)));
        string_push(&mut out, base64_digit_char((b1 & 15) << 2));
        string_push(&mut out, '=');
        assert(rest[0] == b0 && rest[1] == b1);
    } else if n - whole == 1 {
        let b0 = bytes[whole];
        assert((b0 >> 2) < 64 && ((b0 & 3) << 4) < 64) by (bit_vector);
        string_push(&mut out, base64_digit_char(b0 >> 2));
        string_push(&mut out, base64_digit_char((b0 & 3) << 4));
        string_push(&mut out, '=');
        string_push(&mut out, '=');
        assert(rest[0] == b0);
    }
    assert(out@ =~= base64_text(bytes@));
    out
}

/// The value of a base64 byte, 64 for `=`, 255 for any other byte.
fn base64_value_of(c: u8) -> (v: u8)
    ensures
        v == base64_value(c),
{
    if 65 <= c && c <= 90 {
        c - 65
    } else if 97 <= c && c <= 122 {
        c - 97 + 26
    } else if 48 <= c && c <= 57 {
        c - 48 + 52
    } else if c == 43 {
        62
    } else if c == 47 {
        63
    } else if c == 61 {
        64
    } else {
        255
    }
}

/// Decodes the base64 text of a stored secret.
pub fn base64_decode(input: &str) -> (r: Result<Vec<u8>>)
    ensures
        match base64_decoded(input@) {
            Ok(b) => r matches Ok(v) && v@ == b,
            Err(m) => r matches Err(e) && e matches AppError::Secret(x) && x@ == m,
        },
{
    let trimmed = trim_str(input);
    let cleaned = trimmed.as_str().as_bytes();
    assert(cleaned@ == encode_utf8(trim(input@)));
    if cleaned.len() % 4 != 0 {
        return Err(AppError::Secret(owned("无效的 base64 密文长度")));
    }
    let mut bytes: Vec<u8> = Vec::new();
    let mut i: usize = 0;
    while i < cleaned.len()
        invariant
            cleaned@ == encode_utf8(trim(input@)),
            cleaned.len() % 4 == 0,
            i <= cleaned.len(),
            i % 4 == 0,
            decode_groups(cleaned@.take(i as int)) == Some(bytes@),
        decreases cleaned.len() - i,
    {
        let v0 = base64_value_of(cleaned[i]);
        let v1 = base64_value_of(cleaned[i + 1]);
        let v2 = base64_value_of(cleaned[i + 2]);
        let v3 = base64_value_of(cleaned[i + 3]);
        proof {
            let t = cleaned@.take(i + 4);
            assert(t.take(t.len() - 4) == cleaned@.take(i as int));
            assert(t[t.len() - 4] == cleaned@[i as int]);
            assert(t[t.len() - 3] == cleaned@[i + 1]);
            assert(t[t.len() - 2] == cleaned@[i + 2]);
            assert(t[t.len() - 1] == cleaned@[i + 3]);
        }
        if v0 == 255 || v1 == 255 || v2 == 255 || v3 == 255 {
            proof {
                let t = cleaned@.take(i + 4);
                assert(t.len() == i + 4);
                assert(decode_groups(t) is None);
                lemma_decode_groups_none_stays(cleaned@, i as int + 4);
                assert(cleaned@.take(cleaned.len() as int) == cleaned@);
            }
            return Err(AppError::Secret(owned("无效的 base64 字符")));
        }
        let ghost before = bytes@;
        bytes.push((v0 << 2) | (v1 >> 4));
        if v2 != 64 {
            bytes.push((v1 << 4) | (v2 >> 2));
        }
        if v3 != 64 {
            bytes.push((v2 << 6) | v3);
        }
        assert(bytes@ =~= before + decode_quad(v0, v1, v2, v3));
        i = i + 4;
    }
    assert(cleaned@.take(cleaned.len() as int) == cleaned@);
    Ok(bytes)
}

proof fn lemma_decode_groups_none_stays(b: Seq<u8>, k: int)
    requires
        0 <= k <= b.len(),
        k % 4 == 0,
        b.len() % 4 == 0,
        decode_groups(b.take(k)) is None,
    ensures
        decode_groups(b) is None,
    decreases b.len() - k,
{
    if k < b.len() {
        let t = b.take(b.len() - 4);
        assert(t.take(k) == b.take(k));
        lemma_decode_groups_none_stays(t, k);
    } else {
        assert(b.take(k) == b);
    }
}


/// The bytes of an ASCII text.
pub open spec fn ascii_bytes(s: Seq<char>) -> Seq<u8> {
    s.map_values(|c: char| c as u8)
}

proof fn lemma_digit_round_trip(v: u8)
    requires
        v < 64,
    ensures
        base64_value(base64_digit(v) as u8) == v,
        '\0' <= base64_digit(v) <= '\u{7f}',
        !crate::text::is_white_space(base64_digit(v)),
        base64_digit(v) != '=',
{
}

/// Every character of `s` is a base64 digit or `=`.
pub open spec fn base64_alphabet_only(s: Seq<char>) -> bool {
    forall|i: int| 0 <= i < s.len() ==> {
        let c = #[trigger] s[i];
        '\0' <= c <= '\u{7f}' && !crate::text::is_white_space(c)
    }
}

proof fn lemma_triple_round_trip(b0: u8, b1: u8, b2: u8)
    ensures
        base64_alphabet_only(encode_triple(b0, b1, b2)),
        decode_quad(
            base64_value(encode_triple(b0, b1, b2)[0] as u8),
            base64_value(encode_triple(b0, b1, b2)[1] as u8),
            base64_value(encode_triple(b0, b1, b2)[2] as u8),
            base64_value(encode_triple(b0, b1, b2)[3] as u8),
        ) == seq![b0, b1, b2],
        base64_value(encode_triple(b0, b1, b2)[0] as u8) != 255,
        base64_value(encode_triple(b0, b1, b2)[1] as u8) != 255,
        base64_value(encode_triple(b0, b1, b2)[2] as u8) != 255,
        base64_value(encode_triple(b0, b1, b2)[3] as u8) != 255,
{
    let v0 = b0 >> 2;
    let v1 = ((b0 & 3) << 4) | (b1 >> 4);
    let v2 = ((b1 & 15) << 2) | (b2 >> 6);
    let v3 = b2 & 63;
    assert(v0 < 64 && v1 < 64 && v2 < 64 && v3 < 64) by (bit_vector)
        requires
            v0 == b0 >> 2,
            v1 == ((b0 & 3) << 4) | (b1 >> 4),
            v2 == ((b1 & 15) << 2) | (b2 >> 6),
            v3 == b2 & 63,
    ;
    lemma_digit_round_trip(v0);
    lemma_digit_round_trip(v1);
    lemma_digit_round_trip(v2);
    lemma_digit_round_trip(v3);
    assert(((v0 << 2) | (v1 >> 4)) == b0 && ((v1 << 4) | (v2 >> 2)) == b1 && ((v2 << 6) | v3) == b2)
        by (bit_vector)
        requires
            v0 == b0 >> 2,
            v1 == ((b0 & 3) << 4) | (b1 >> 4),
            v2 == ((b1 & 15) << 2) | (b2 >> 6),
            v3 == b2 & 63,
    ;
    assert(decode_quad(v0, v1, v2, v3) =~= seq![b0, b1, b2]);
}

proof fn lemma_tail_round_trip(t: Seq<u8>)
    requires
        1 <= t.len() <= 2,
    ensures
        encode_tail(t).len() == 4,
        base64_alphabet_only(encode_tail(t)),
        base64_value(encode_tail(t)[0] as u8) != 255,
        base64_value(encode_tail(t)[1] as u8) != 255,
        base64_value(encode_tail(t)[2] as u8) != 255,
        base64_value(encode_tail(t)[3] as u8) != 255,
        decode_quad(
            base64_value(encode_tail(t)[0] as u8),
            base64_value(encode_tail(t)[1] as u8),
            base64_value(encode_tail(t)[2] as u8),
            base64_value(encode_tail(t)[3] as u8),
        ) == t,
{
    let b0 = t[0];
    if t.len() == 2 {
        let b1 = t[1];
        let v0 = b0 >> 2;
        let v1 = ((b0 & 3) << 4) | (b1 >> 4);
        let v2 = (b1 & 15) << 2;
        assert(v0 < 64 && v1 < 64 && v2 < 64) by (bit_vector)
            requires
                v0 == b0 >> 2,
                v1 == ((b0 & 3) << 4) | (b1 >> 4),
                v2 == (b1 & 15) << 2,
        ;
        lemma_digit_round_trip(v0);
        lemma_digit_round_trip(v1);
        lemma_digit_round_trip(v2);
        assert(((v0 << 2) | (v1 >> 4)) == b0 && ((v1 << 4) | (v2 >> 2)) == b1) by (bit_vector)
            requires
                v0 == b0 >> 2,
                v1 == ((b0 & 3) << 4) | (b1 >> 4),
                v2 == (b1 & 15) << 2,
        ;
        assert(base64_value('=' as u8) == 64);
        assert(decode_quad(v0, v1, v2, 64) =~= t);
    } else {
        let v0 = b0 >> 2;
        let v1 = (b0 & 3) << 4;
        assert(v0 < 64 && v1 < 64) by (bit_vector)
            requires
                v0 == b0 >> 2,
                v1 == (b0 & 3) << 4,
        ;
        lemma_digit_round_trip(v0);
        lemma_digit_round_trip(v1);
        assert(((v0 << 2) | (v1 >> 4)) == b0) by (bit_vector)
            requires
                v0 == b0 >> 2,
                v1 == (b0 & 3) << 4,
        ;
        assert(base64_value('=' as u8) == 64);
        assert(decode_quad(v0, v1, 64, 64) =~= t);
    }
}

proof fn lemma_decode_append(x: Seq<u8>, q: Seq<u8>, out: Seq<u8>)
    requires
        x.len() % 4 == 0,
        q.len() == 4,
        decode_groups(x) == Some(out),
        base64_value(q[0]) != 255,
        base64_value(q[1]) != 255,
        base64_value(q[2]) != 255,
        base64_value(q[3]) != 255,
    ensures
        decode_groups(x + q) == Some(
            out + decode_quad(
                base64_value(q[0]),
                base64_value(q[1]),
                base64_value(q[2]),
                base64_value(q[3]),
            ),
        ),
{
    let y = x + q;
    assert(y.take(y.len() - 4) == x);
    assert(y[y.len() - 4] == q[0]);
    assert(y[y.len() - 3] == q[1]);
    assert(y[y.len() - 2] == q[2]);
    assert(y[y.len() - 1] == q[3]);
}

proof fn lemma_groups_round_trip(b: Seq<u8>)
    requires
        b.len() % 3 == 0,
    ensures
        encode_groups(b).len() == (b.len() / 3) * 4,
        base64_alphabet_only(encode_groups(b)),
        decode_groups(ascii_bytes(encode_groups(b))) == Some(b),
    decreases b.len(),
{
    if b.len() >= 3 {
        let p = b.take(b.len() - 3);
        lemma_groups_round_trip(p);
        let b0 = b[b.len() - 3];
        let b1 = b[b.len() - 2];
        let b2 = b[b.len() - 1];
        lemma_triple_round_trip(b0, b1, b2);
        let e = encode_groups(p);
        let q = encode_triple(b0, b1, b2);
        assert(encode_groups(b) == e + q);
        assert(ascii_bytes(e + q) =~= ascii_bytes(e) + ascii_bytes(q));
        let qb = ascii_bytes(q);
        assert(qb[0] == q[0] as u8 && qb[1] == q[1] as u8 && qb[2] == q[2] as u8 && qb[3] == q[3] as u8);
        lemma_decode_append(ascii_bytes(e), qb, p);
        assert(p + seq![b0, b1, b2] =~= b);
        assert(base64_alphabet_only(e + q)) by {
            assert forall|i: int| 0 <= i < (e + q).len() implies {
                let c = #[trigger] (e + q)[i];
                '\0' <= c <= '\u{7f}' && !crate::text::is_white_space(c)
            } by {
                if i < e.len() {
                    assert((e + q)[i] == e[i]);
                } else {
                    assert((e + q)[i] == q[i - e.len()]);
                }
            }
        }
    } else {
        assert(ascii_bytes(encode_groups(b)) =~= Seq::<u8>::empty());
        assert(b =~= Seq::<u8>::empty());
    }
}

proof fn lemma_trim_identity(s: Seq<char>)
    requires
        forall|i: int| 0 <= i < s.len() ==> !crate::text::is_white_space(#[trigger] s[i]),
    ensures
        trim(s) == s,
{
    if s.len() > 0 {
        assert(!crate::text::is_white_space(s[0]));
        assert(!crate::text::is_white_space(s[s.len() - 1]));
    }
}

/// A stored secret reads back to the same bytes: decoding the base64 text
/// of any bytes gives those bytes.
pub proof fn law_base64_round_trip(b: Seq<u8>)
    ensures
        base64_decoded(base64_text(b)) == Ok::<Seq<u8>, Seq<char>>(b),
{
    let whole = ((b.len() / 3) * 3) as int;
    let w = b.take(whole);
    let t = b.skip(whole);
    assert(w.len() % 3 == 0) by (nonlinear_arith)
        requires
            w.len() == (b.len() / 3) * 3,
    ;
    lemma_groups_round_trip(w);
    let e = encode_groups(w);
    let text = base64_text(b);
    let full = ascii_bytes(e);
    assert(full.len() % 4 == 0) by (nonlinear_arith)
        requires
            full.len() == (w.len() / 3) * 4,
    ;
    if t.len() == 0 {
        assert(encode_tail(t) =~= Seq::<char>::empty());
        assert(text =~= e);
        assert(w =~= b);
    } else {
        lemma_tail_round_trip(t);
        let q = encode_tail(t);
        assert(text == e + q);
        let qb = ascii_bytes(q);
        assert(ascii_bytes(e + q) =~= full + qb);
        assert(qb[0] == q[0] as u8 && qb[1] == q[1] as u8 && qb[2] == q[2] as u8 && qb[3] == q[3] as u8);
        lemma_decode_append(full, qb, w);
        assert(w + t =~= b);
        assert(base64_alphabet_only(e + q)) by {
            assert forall|i: int| 0 <= i < (e + q).len() implies {
                let c = #[trigger] (e + q)[i];
                '\0' <= c <= '\u{7f}' && !crate::text::is_white_space(c)
            } by {
                if i < e.len() {
                    assert((e + q)[i] == e[i]);
                } else {
                    assert((e + q)[i] == q[i - e.len()]);
                }
            }
        }
    }
    assert(base64_alphabet_only(text));
    lemma_trim_identity(text);
    assert(vstd::utf8::is_ascii_chars(text));
    vstd::utf8::is_ascii_chars_encode_utf8(text);
    assert(encode_utf8(text) =~= ascii_bytes(text));
}

/// A character of base64 text: a letter, a digit, `+`, `/` or the padding
/// `=`.
pub open spec fn is_base64_char(c: char) -> bool {
    ||| (65 <= c as u32 <= 90)
    ||| (97 <= c as u32 <= 122)
    ||| (48 <= c as u32 <= 57)
    ||| c == '+'
    ||| c == '/'
    ||| c == '='
}

/// Every character of `t` belongs to base64 text.
pub open spec fn all_base64_chars(t: Seq<char>) -> bool {
    forall|i: int| 0 <= i < t.len() ==> is_base64_char(#[trigger] t[i])
}

proof fn lemma_digit_is_base64(v: u8)
    ensures
        is_base64_char(base64_digit(v)),
{
}

proof fn lemma_groups_shape(b: Seq<u8>)
    ensures
        encode_groups(b).len() == 4 * (b.len() / 3),
        all_base64_chars(encode_groups(b)),
    decreases b.len(),
{
    if b.len() >= 3 {
        let rest = b.take(b.len() - 3);
        lemma_groups_shape(rest);
        let tri = encode_triple(b[b.len() - 3], b[b.len() - 2], b[b.len() - 1]);
        lemma_digit_is_base64(b[b.len() - 3] >> 2);
        lemma_digit_is_base64(((b[b.len() - 3] & 3) << 4) | (b[b.len() - 2] >> 4));
        lemma_digit_is_base64(((b[b.len() - 2] & 15) << 2) | (b[b.len() - 1] >> 6));
        lemma_digit_is_base64(b[b.len() - 1] & 63);
        assert(all_base64_chars(tri));
        let u = encode_groups(rest) + tri;
        assert forall|i: int| 0 <= i < u.len() implies is_base64_char(#[trigger] u[i]) by {
            if i < encode_groups(rest).len() {
                assert(u[i] == encode_groups(rest)[i]);
            } else {
                assert(u[i] == tri[i - encode_groups(rest).len()]);
            }
        }
    }
}

/// Base64 text is four characters for every three bytes begun, all of them
/// letters, digits, `+`, `/` or the padding `=`.
pub proof fn law_base64_text_shape(b: Seq<u8>)
    ensures
        base64_text(b).len() == 4 * ((b.len() + 2) / 3),
        all_base64_chars(base64_text(b)),
{
    let whole = ((b.len() / 3) * 3) as int;
    let w = b.take(whole);
    let t = b.skip(whole);
    lemma_groups_shape(w);
    assert(w.len() / 3 == b.len() / 3);
    let tail = encode_tail(t);
    if t.len() == 2 {
        lemma_digit_is_base64(t[0] >> 2);
        lemma_digit_is_base64(((t[0] & 3) << 4) | (t[1] >> 4));
        lemma_digit_is_base64((t[1] & 15) << 2);
    } else if t.len() == 1 {
        lemma_digit_is_base64(t[0] >> 2);
        lemma_digit_is_base64((t[0] & 3) << 4);
    }
    assert(all_base64_chars(tail));
    let u = encode_groups(w) + tail;
    assert forall|i: int| 0 <= i < u.len() implies is_base64_char(#[trigger] u[i]) by {
        if i < encode_groups(w).len() {
            assert(u[i] == encode_groups(w)[i]);
        } else {
            assert(u[i] == tail[i - encode_groups(w).len()]);
        }
    }
}

/// The standard base64 alphabet: digits 0 to 25 are `A` to `Z`, 26 to 51
/// are `a` to `z`, 52 to 61 are `0` to `9`, 62 is `+` and 63 is `/`.
/// Reading a digit's character gives the digit back, `+` reads as 62, `/`
/// as 63 and `=` as the padding.
pub proof fn law_base64_standard_alphabet()
    ensures
        forall|v: u8| v < 26 ==> #[trigger] base64_digit(v) as u32 == 65 + v,
        forall|v: u8| 26 <= v < 52 ==> #[trigger] base64_digit(v) as u32 == 97 + (v - 26),
        forall|v: u8| 52 <= v < 62 ==> #[trigger] base64_digit(v) as u32 == 48 + (v - 52),
        base64_digit(62) == '+',
        base64_digit(63) == '/',
        forall|v: u8| v < 64 ==> base64_value(#[trigger] base64_digit(v) as u8) == v,
        base64_value(43) == 62,
        base64_value(47) == 63,
        base64_value(61) == 64,
{
    assert forall|v: u8| v < 64 implies base64_value(#[trigger] base64_digit(v) as u8) == v by {
        if v < 26 {
            assert(base64_digit(v) as u32 == 65 + v);
        } else if v < 52 {
            assert(base64_digit(v) as u32 == 97 + (v - 26));
        } else if v < 62 {
            assert(base64_digit(v) as u32 == 48 + (v - 52));
        }
    }
}

} // verus!
