//! Starting with Windows: the Run entry and how its value is stored.
use crate::error::{AppError, Result};
use crate::text::{join3, owned};
use vstd::prelude::*;

verus! {

/// Where the auto-start entry is kept: a name-to-text store.
pub trait AutoStartStore {
    fn read_entry(&self, name: &str) -> Result<Option<String>>;

    fn write_entry(&self, name: &str, value: &str) -> Result<()>;

    fn delete_entry(&self, name: &str) -> Result<()>;
}

/// The name of the auto-start entry.
pub fn auto_start_entry_name() -> (r: &'static str)
    ensures
        r@ == "ait"@,
{
    "ait"
}

/// The command stored in the entry: the executable's path in double quotes.
pub fn auto_start_command_for_exe(exe_path: &str) -> (r: String)
    ensures
        r@ == "\""@ + exe_path@ + "\""@,
{
    join3("\"", exe_path, "\"")
}

/// Auto-start is on when the entry exists; a read error is passed on.
pub fn auto_start_enabled_from_entry(entry: Result<Option<String>>) -> (r: Result<bool>)
    ensures
        match entry {
            Ok(v) => r == Ok::<bool, AppError>(v is Some),
            Err(e) => r matches Err(x) && x == e,
        },
{
    match entry {
        Ok(v) => Ok(v.is_some()),
        Err(e) => Err(e),
    }
}

/// Whether the store holds the auto-start entry: what the store's read of
/// the entry `ait` gave, as `auto_start_enabled_from_entry` reads it.
pub fn is_auto_start_enabled_in_store<S: AutoStartStore>(store: &S) -> (r: Result<bool>)
    ensures
        exists|name: &str, entry: Result<Option<String>>|
            name@ == "ait"@ && call_ensures(S::read_entry, (store, name), entry) && match entry {
                Ok(v) => r == Ok::<bool, AppError>(v is Some),
                Err(e) => r matches Err(x) && x == e,
            },
{
    let name = auto_start_entry_name();
    let entry = store.read_entry(name);
    assert(call_ensures(S::read_entry, (store, name), entry));
    auto_start_enabled_from_entry(entry)
}

/// Writes the entry `ait` with the quoted executable path, or deletes it;
/// the result is what the store gave.
pub fn set_auto_start_enabled_in_store<S: AutoStartStore>(
    store: &S,
    enabled: bool,
    exe_path: &str,
) -> (r: Result<()>)
    ensures
        enabled ==> exists|name: &str, value: &str|
            name@ == "ait"@ && value@ == "\""@ + exe_path@ + "\""@ && call_ensures(
                S::write_entry,
                (store, name, value),
                r,
            ),
        !enabled ==> exists|name: &str|
            name@ == "ait"@ && call_ensures(S::delete_entry, (store, name), r),
{
    let name = auto_start_entry_name();
    if enabled {
        let command = auto_start_command_for_exe(exe_path);
        let value = command.as_str();
        let r = store.write_entry(name, value);
        assert(call_ensures(S::write_entry, (store, name, value), r));
        r
    } else {
        let r = store.delete_entry(name);
        assert(call_ensures(S::delete_entry, (store, name), r));
        r
    }
}

/// The UTF-16 code units of one character.
pub open spec fn utf16_of_char(c: char) -> Seq<u16> {
    let u = c as u32;
    if u < 0x10000 {
        seq![u as u16]
    } else {
        seq![(0xD800 + ((u - 0x10000) / 0x400)) as u16, (0xDC00 + ((u - 0x10000) % 0x400)) as u16]
    }
}

/// `str::encode_utf16`.
pub open spec fn utf16_of(s: Seq<char>) -> Seq<u16>
    decreases s.len(),
{
    if s.len() == 0 {
        Seq::empty()
    } else {
        utf16_of(s.drop_last()) + utf16_of_char(s.last())
    }
}

/// The bytes of code units, low byte first.
pub open spec fn le_bytes(units: Seq<u16>) -> Seq<u8>
    decreases units.len(),
{
    if units.len() == 0 {
        Seq::empty()
    } else {
        le_bytes(units.drop_last()) + seq![
            (units.last() % 256) as u8,
            (units.last() / 256) as u8,
        ]
    }
}

/// How a text is stored as a registry string: UTF-16, then a zero unit,
/// low byte first.
pub open spec fn registry_bytes(s: Seq<char>) -> Seq<u8> {
    le_bytes(utf16_of(s).push(0))
}

/// The code units of stored bytes: pairs read low byte first; a last odd
/// byte is ignored.
pub open spec fn units_of_bytes(b: Seq<u8>) -> Seq<u16> {
    Seq::new((b.len() / 2) as nat, |i: int| (b[2 * i] + 256 * b[2 * i + 1]) as u16)
}

/// The units before the first zero unit.
pub open spec fn until_zero(units: Seq<u16>) -> Seq<u16>
    decreases units.len(),
{
    if units.len() == 0 {
        units
    } else if units[0] == 0 {
        Seq::empty()
    } else {
        seq![units[0]] + until_zero(units.drop_first())
    }
}

/// `String::from_utf16`: the text, or nothing for a lone surrogate.
pub open spec fn decode_utf16(units: Seq<u16>) -> Option<Seq<char>>
    decreases units.len(),
{
    if units.len() == 0 {
        Some(Seq::empty())
    } else {
        let u = units[0];
        if u < 0xD800 || u > 0xDFFF {
            match decode_utf16(units.drop_first()) {
                Some(rest) => Some(seq![(u as u32) as char] + rest),
                None => None,
            }
        } else if u <= 0xDBFF && units.len() >= 2 && 0xDC00 <= units[1] <= 0xDFFF {
            let code = 0x10000 + (u - 0xD800) * 0x400 + (units[1] - 0xDC00);
            match decode_utf16(units.subrange(2, units.len() as int)) {
                Some(rest) => Some(seq![(code as u32) as char] + rest),
                None => None,
            }
        } else {
            None
        }
    }
}

/// The message of `String::from_utf16` for a lone surrogate.
pub open spec fn lone_surrogate_message() -> Seq<char> {
    "invalid utf-16: lone surrogate found"@
}

/// How a registry string is read back: the units up to the first zero unit,
/// decoded.
pub open spec fn registry_text(b: Seq<u8>) -> std::result::Result<Seq<char>, Seq<char>> {
    match decode_utf16(until_zero(units_of_bytes(b))) {
        Some(s) => Ok(s),
        None => Err(lone_surrogate_message()),
    }
}

/// `char::from_u32`: the character with the given code, when the code is a
/// Unicode scalar value (at most 0x10FFFF and not a surrogate), and nothing
/// otherwise, as its documentation says.
#[verifier::external_body]
fn char_from_code(u: u32) -> (r: Option<char>)
    ensures
        r is Some <==> (u <= 0x10FFFF && !(0xD800 <= u <= 0xDFFF)),
        r matches Some(c) ==> c as u32 == u,
{
    char::from_u32(u)
}

/// Stores a text as a registry string: UTF-16 with a final zero unit, low
/// byte first.
pub fn registry_string_to_bytes(value: &str) -> (r: Vec<u8>)
    ensures
        r@ == registry_bytes(value@),
{
    broadcast use vstd::utf8::char_is_scalar;

    let chars = crate::text::str_chars(value);
    let mut out: Vec<u8> = Vec::new();
    let mut i: usize = 0;
    while i < chars.len()
        invariant
            i <= chars.len(),
            out@ == le_bytes(utf16_of(chars@.take(i as int))),
        decreases chars.len() - i,
    {
        let c = chars[i];
        proof {
            vstd::utf8::char_is_scalar(c);
        }
        let u = c as u32;
        let ghost before = utf16_of(chars@.take(i as int));
        proof {
            assert(chars@.take(i + 1).drop_last() == chars@.take(i as int));
            assert(chars@.take(i + 1).last() == c);
        }
        if u < 0x10000 {
            let unit = u as u16;
            out.push((unit % 256) as u8);
            out.push((unit / 256) as u8);
            proof {
                lemma_le_bytes_push(before, unit);
                assert(utf16_of_char(c) == seq![unit]);
                assert(before + seq![unit] == before.push(unit));
                assert(utf16_of(chars@.take(i + 1)) == before + utf16_of_char(c));
            }
        } else {
            assert(u <= 0x10FFFF);
            let high = (0xD800 + (u - 0x10000) / 0x400) as u16;
            let low = (0xDC00 + (u - 0x10000) % 0x400) as u16;
            out.push((high % 256) as u8);
            out.push((high / 256) as u8);
            out.push((low % 256) as u8);
            out.push((low / 256) as u8);
            proof {
                lemma_le_bytes_push(before, high);
                lemma_le_bytes_push(before.push(high), low);
                assert(utf16_of_char(c) == seq![high, low]);
                assert(before.push(high).push(low) == before + utf16_of_char(c));
                assert(utf16_of(chars@.take(i + 1)) == before + utf16_of_char(c));
            }
        }
        i = i + 1;
    }
    assert(chars@.take(chars.len() as int) == chars@);
    out.push(0);
    out.push(0);
    proof {
        lemma_le_bytes_push(utf16_of(value@), 0);
    }
    out
}

proof fn lemma_le_bytes_push(units: Seq<u16>, u: u16)
    ensures
        le_bytes(units.push(u)) == le_bytes(units) + seq![(u % 256) as u8, (u / 256) as u8],
{
    assert(units.push(u).drop_last() == units);
}


/// `String::from_utf16`: the text, or nothing for a lone surrogate.
pub fn decode_utf16_units(units: &Vec<u16>) -> (r: Option<String>)
    ensures
        match decode_utf16(units@) {
            Some(s) => r matches Some(x) && x@ == s,
            None => r is None,
        },
{
    let mut out = String::new();
    let mut i: usize = 0;
    assert(units@.skip(0) == units@);
    while i < units.len()
        invariant
            i <= units.len(),
            decode_utf16(units@) == match decode_utf16(units@.skip(i as int)) {
                Some(rest) => Some(out@ + rest),
                None => None,
            },
        decreases units.len() - i,
    {
        let u = units[i];
        let ghost tail = units@.skip(i as int);
        assert(tail[0] == u);
        if u < 0xD800 || u > 0xDFFF {
            let c = match char_from_code(u as u32) {
                Some(c) => c,
                None => {
                    return None;
                },
            };
            proof {
                vstd::utf8::char_u32_cast(c, u as u32);
                assert(tail.drop_first() == units@.skip(i + 1));
                match decode_utf16(units@.skip(i + 1)) {
                    Some(rest) => {
                        assert(out@ + (seq![c] + rest) == out@.push(c) + rest);
                    },
                    None => {},
                }
            }
            crate::text::string_push(&mut out, c);
            i = i + 1;
        } else if u <= 0xDBFF && i + 1 < units.len() && 0xDC00 <= units[i + 1] && units[i + 1] <= 0xDFFF {
            let u2 = units[i + 1];
            let code: u32 = 0x10000 + ((u - 0xD800) as u32) * 0x400 + ((u2 - 0xDC00) as u32);
            let c = match char_from_code(code) {
                Some(c) => c,
                None => {
                    return None;
                },
            };
            proof {
                vstd::utf8::char_u32_cast(c, code);
                assert(tail[1] == u2);
                assert(tail.subrange(2, tail.len() as int) == units@.skip(i + 2));
                match decode_utf16(units@.skip(i + 2)) {
                    Some(rest) => {
                        assert(out@ + (seq![c] + rest) == out@.push(c) + rest);
                    },
                    None => {},
                }
            }
            crate::text::string_push(&mut out, c);
            i = i + 2;
        } else {
            return None;
        }
    }
    assert(units@.skip(i as int) == Seq::<u16>::empty());
    assert(out@ + Seq::<char>::empty() == out@);
    Some(out)
}

proof fn lemma_until_zero_prefix(units: Seq<u16>, k: int)
    requires
        0 <= k <= units.len(),
        forall|j: int| 0 <= j < k ==> units[j] != 0,
    ensures
        until_zero(units) == units.take(k) + until_zero(units.skip(k)),
    decreases k,
{
    if k > 0 {
        let t = units.drop_first();
        assert forall|j: int| 0 <= j < k - 1 implies t[j] != 0 by {
            assert(t[j] == units[j + 1]);
        }
        lemma_until_zero_prefix(t, k - 1);
        assert(t.skip(k - 1) == units.skip(k));
        assert(seq![units[0]] + t.take(k - 1) == units.take(k));
    } else {
        assert(units.skip(0) == units);
    }
}

/// Reads a registry string: the UTF-16 units before the first zero unit,
/// low byte first.
pub fn registry_string_from_bytes(bytes: &[u8]) -> (r: Result<String>)
    ensures
        match registry_text(bytes@) {
            Ok(s) => r matches Ok(x) && x@ == s,
            Err(m) => r matches Err(e) && e matches AppError::Config(x) && x@ == m,
        },
{
    let ghost all = units_of_bytes(bytes@);
    let mut units: Vec<u16> = Vec::new();
    let mut k: usize = 0;
    let n = bytes.len() / 2;
    while k < n
        invariant
            n == bytes.len() / 2,
            all == units_of_bytes(bytes@),
            all.len() == n,
            k <= n,
            units@ == all.take(k as int),
            forall|j: int| 0 <= j < k ==> all[j] != 0,
        ensures
            k <= n,
            units@ == all.take(k as int),
            forall|j: int| 0 <= j < k ==> all[j] != 0,
            k < n ==> all[k as int] == 0,
        decreases n - k,
    {
        let unit: u16 = (bytes[2 * k] as u16) + (bytes[2 * k + 1] as u16) * 256;
        assert(all[k as int] == unit);
        if unit == 0 {
            break;
        }
        units.push(unit);
        k = k + 1;
        assert(units@ == all.take(k as int));
    }
    proof {
        lemma_until_zero_prefix(all, k as int);
        if k < n {
            assert(all.skip(k as int)[0] == 0);
        } else {
            assert(all.skip(k as int) == Seq::<u16>::empty());
        }
        assert(units@ + Seq::<u16>::empty() == units@);
        assert(until_zero(all) == units@);
    }
    match decode_utf16_units(&units) {
        Some(s) => Ok(s),
        None => Err(AppError::Config(owned("invalid utf-16: lone surrogate found"))),
    }
}


proof fn lemma_units_of_le_bytes(units: Seq<u16>)
    ensures
        le_bytes(units).len() == 2 * units.len(),
        units_of_bytes(le_bytes(units)) == units,
    decreases units.len(),
{
    if units.len() > 0 {
        let p = units.drop_last();
        lemma_units_of_le_bytes(p);
        let x = le_bytes(p);
        let u = units.last();
        let y = le_bytes(units);
        assert(y == x + seq![(u % 256) as u8, (u / 256) as u8]);
        assert(units_of_bytes(y) =~= units) by {
            assert forall|i: int| 0 <= i < units.len() implies #[trigger] units_of_bytes(y)[i] == units[i] by {
                if i < p.len() {
                    assert(y[2 * i] == x[2 * i]);
                    assert(y[2 * i + 1] == x[2 * i + 1]);
                    assert(units_of_bytes(x)[i] == p[i]);
                } else {
                    assert(y[2 * i] == (u % 256) as u8);
                    assert(y[2 * i + 1] == (u / 256) as u8);
                }
            }
        }
    } else {
        assert(units_of_bytes(le_bytes(units)) =~= units);
    }
}

proof fn lemma_utf16_of_front(s: Seq<char>)
    requires
        s.len() > 0,
    ensures
        utf16_of(s) == utf16_of_char(s[0]) + utf16_of(s.drop_first()),
    decreases s.len(),
{
    if s.len() == 1 {
        assert(s.drop_last() == Seq::<char>::empty());
        assert(s.drop_first() == Seq::<char>::empty());
        assert(utf16_of(s) == Seq::<u16>::empty() + utf16_of_char(s[0]));
    } else {
        let p = s.drop_last();
        lemma_utf16_of_front(p);
        assert(p.drop_first() == s.drop_first().drop_last());
        assert(s.drop_first().last() == s.last());
        assert(p[0] == s[0]);
        assert(utf16_of(s.drop_first()) == utf16_of(p.drop_first()) + utf16_of_char(s.last()));
    }
}

proof fn lemma_decode_char_front(c: char, rest: Seq<u16>)
    ensures
        decode_utf16(utf16_of_char(c) + rest) == match decode_utf16(rest) {
            Some(r) => Some(seq![c] + r),
            None => None::<Seq<char>>,
        },
        forall|i: int| 0 <= i < utf16_of_char(c).len() ==> c != '\0' ==> #[trigger] utf16_of_char(c)[i] != 0,
{
    vstd::utf8::char_is_scalar(c);
    let v = c as u32;
    let us = utf16_of_char(c);
    let x = us + rest;
    if v < 0x10000 {
        let u = v as u16;
        assert(us == seq![u]);
        assert(x[0] == u);
        assert(x.drop_first() == rest);
        vstd::utf8::char_u32_cast(c, u as u32);
    } else {
        let hi = (0xD800 + ((v - 0x10000) / 0x400)) as u16;
        let lo = (0xDC00 + ((v - 0x10000) % 0x400)) as u16;
        assert(us == seq![hi, lo]);
        assert(x[0] == hi);
        assert(x[1] == lo);
        assert(x.subrange(2, x.len() as int) == rest);
        let code = 0x10000 + (hi - 0xD800) * 0x400 + (lo - 0xDC00);
        assert(code == v);
        vstd::utf8::char_u32_cast(c, code as u32);
    }
}

proof fn lemma_decode_utf16_of(s: Seq<char>)
    ensures
        decode_utf16(utf16_of(s)) == Some(s),
        (forall|i: int| 0 <= i < s.len() ==> #[trigger] s[i] != '\0') ==> forall|j: int|
            0 <= j < utf16_of(s).len() ==> #[trigger] utf16_of(s)[j] != 0,
    decreases s.len(),
{
    if s.len() > 0 {
        lemma_utf16_of_front(s);
        let t = s.drop_first();
        lemma_decode_utf16_of(t);
        lemma_decode_char_front(s[0], utf16_of(t));
        assert(seq![s[0]] + t == s);
        if forall|i: int| 0 <= i < s.len() ==> #[trigger] s[i] != '\0' {
            assert forall|i: int| 0 <= i < t.len() implies #[trigger] t[i] != '\0' by {
                assert(t[i] == s[i + 1]);
            }
            let a = utf16_of_char(s[0]);
            let b = utf16_of(t);
            assert forall|j: int| 0 <= j < (a + b).len() implies #[trigger] (a + b)[j] != 0 by {
                if j < a.len() {
                    assert(s[0] != '\0');
                    assert(a[j] != 0);
                } else {
                    assert((a + b)[j] == b[j - a.len()]);
                }
            }
        }
    } else {
        assert(utf16_of(s) == Seq::<u16>::empty());
        assert(decode_utf16(Seq::<u16>::empty()) == Some(Seq::<char>::empty()));
        assert(s == Seq::<char>::empty());
    }
}

/// A text without NUL characters stored as a registry string reads back
/// unchanged.
pub proof fn law_registry_string_round_trip(s: Seq<char>)
    requires
        forall|i: int| 0 <= i < s.len() ==> #[trigger] s[i] != '\0',
    ensures
        registry_text(registry_bytes(s)) == Ok::<Seq<char>, Seq<char>>(s),
{
    let u = utf16_of(s);
    lemma_decode_utf16_of(s);
    lemma_units_of_le_bytes(u.push(0));
    lemma_until_zero_prefix(u.push(0), u.len() as int);
    assert(u.push(0).take(u.len() as int) == u);
    let z = u.push(0).skip(u.len() as int);
    assert(z[0] == 0);
    assert(until_zero(z) == Seq::<u16>::empty());
    assert(u + Seq::<u16>::empty() == u);
}

} // verus!
