//! Global hotkeys: how a text such as `Ctrl+Alt+E` is read and written.
use crate::error::{AppError, Result};
use crate::text::{
    split_chars, split_on, text_views, chars_equal, decimal, is_white_space, parse_unsigned, parse_unsigned_chars, str_chars,
    string_from_chars, string_push, trim, trim_chars, u64_decimal, join2,
};
use vstd::prelude::*;

verus! {

/// The modifier keys held with the hotkey.
#[derive(Debug, Clone, Copy, PartialEq, Eq, Structural)]
pub struct Modifiers {
    pub ctrl: bool,
    pub alt: bool,
    pub shift: bool,
    pub win: bool,
}

impl Modifiers {
    /// At least one modifier is held.
    pub open spec fn spec_any(self) -> bool {
        self.ctrl || self.alt || self.shift || self.win
    }

    /// At least one modifier is held.
    pub fn any(self) -> (r: bool)
        ensures
            r == self.spec_any(),
    {
        self.ctrl || self.alt || self.shift || self.win
    }
}

/// The ordinary key of a hotkey: a character key or a function key `F1`..`F24`.
#[derive(Debug, Clone, Copy, PartialEq, Eq, Structural)]
pub enum KeyCode {
    Char(char),
    Function(u8),
}

/// A global hotkey: modifiers and one ordinary key.
#[derive(Debug, Clone, Copy, PartialEq, Eq, Structural)]
pub struct Hotkey {
    pub modifiers: Modifiers,
    pub key: KeyCode,
}

/// What has been read of a hotkey text so far.
#[derive(Debug, Clone, Copy, PartialEq, Eq, Structural)]
pub struct HotkeyDraft {
    pub modifiers: Modifiers,
    pub key: Option<KeyCode>,
}

/// `str::split('+')`: the pieces of `s` between the `+` signs.
pub open spec fn split_plus(s: Seq<char>) -> Seq<Seq<char>> {
    split_on(s, '+')
}

/// `char::to_ascii_lowercase`.
pub open spec fn ascii_lower(c: char) -> char {
    if 0x41 <= (c as u32) <= 0x5A {
        ((c as u32) + 32) as char
    } else {
        c
    }
}

/// `char::to_ascii_uppercase`.
pub open spec fn ascii_upper(c: char) -> char {
    if 0x61 <= (c as u32) <= 0x7A {
        ((c as u32) - 32) as char
    } else {
        c
    }
}

/// `str::to_ascii_lowercase`.
pub open spec fn lower_text(s: Seq<char>) -> Seq<char> {
    s.map_values(|c: char| ascii_lower(c))
}

/// The error for a piece that names no key.
pub open spec fn unsupported_key_message(value: Seq<char>) -> Seq<char> {
    "不支持的按键: "@ + value
}

/// The error for a function key out of `F1`..`F24`.
pub open spec fn unsupported_function_key_message(n: nat) -> Seq<char> {
    "不支持的功能键: F"@ + decimal(n)
}

/// Reads one piece of a hotkey text, already trimmed and lowered.
pub open spec fn apply_piece(d: HotkeyDraft, value: Seq<char>) -> std::result::Result<HotkeyDraft, Seq<char>> {
    if value == "ctrl"@ || value == "control"@ {
        Ok(HotkeyDraft { modifiers: Modifiers { ctrl: true, ..d.modifiers }, ..d })
    } else if value == "alt"@ {
        Ok(HotkeyDraft { modifiers: Modifiers { alt: true, ..d.modifiers }, ..d })
    } else if value == "shift"@ {
        Ok(HotkeyDraft { modifiers: Modifiers { shift: true, ..d.modifiers }, ..d })
    } else if value == "win"@ || value == "windows"@ || value == "super"@ {
        Ok(HotkeyDraft { modifiers: Modifiers { win: true, ..d.modifiers }, ..d })
    } else if value.len() == 0 {
        Ok(d)
    } else if value.len() == 1 && (value[0] as u32) < 0x80 {
        Ok(HotkeyDraft { key: Some(KeyCode::Char(ascii_upper(value[0]))), ..d })
    } else if value[0] == 'f' {
        match parse_unsigned(value.drop_first(), 255) {
            None => Err(unsupported_key_message(value)),
            Some(n) => if 1 <= n <= 24 {
                Ok(HotkeyDraft { key: Some(KeyCode::Function(n as u8)), ..d })
            } else {
                Err(unsupported_function_key_message(n))
            },
        }
    } else {
        Err(unsupported_key_message(value))
    }
}

/// The draft with nothing read yet.
pub open spec fn empty_draft() -> HotkeyDraft {
    HotkeyDraft { modifiers: Modifiers { ctrl: false, alt: false, shift: false, win: false }, key: None }
}

/// Reads the pieces of a hotkey text from left to right; the first error stops it.
pub open spec fn read_pieces(pieces: Seq<Seq<char>>) -> std::result::Result<HotkeyDraft, Seq<char>>
    decreases pieces.len(),
{
    if pieces.len() == 0 {
        Ok(empty_draft())
    } else {
        match read_pieces(pieces.drop_last()) {
            Err(m) => Err(m),
            Ok(d) => apply_piece(d, lower_text(trim(pieces.last()))),
        }
    }
}

/// How `Hotkey::from_str` reads a text: the hotkey, or the message of the error.
pub open spec fn parse_hotkey_text(s: Seq<char>) -> std::result::Result<Hotkey, Seq<char>> {
    match read_pieces(split_plus(s)) {
        Err(m) => Err(m),
        Ok(d) => match d.key {
            None => Err("快捷键必须包含一个普通按键"@),
            Some(k) => if d.modifiers.spec_any() {
                Ok(Hotkey { modifiers: d.modifiers, key: k })
            } else {
                Err("快捷键必须至少包含一个修饰键"@)
            },
        },
    }
}

/// The text of the ordinary key.
pub open spec fn key_text(k: KeyCode) -> Seq<char> {
    match k {
        KeyCode::Char(c) => seq![c],
        KeyCode::Function(n) => seq!['F'] + decimal(n as nat),
    }
}

/// `word+` when `held`, else nothing.
pub open spec fn modifier_prefix(held: bool, word: Seq<char>) -> Seq<char> {
    if held {
        word + seq!['+']
    } else {
        Seq::empty()
    }
}

/// How a hotkey is written: the held modifiers in the order Ctrl, Alt,
/// Shift, Win, then the key, joined by `+`.
pub open spec fn hotkey_text(h: Hotkey) -> Seq<char> {
    modifier_prefix(h.modifiers.ctrl, "Ctrl"@) + modifier_prefix(h.modifiers.alt, "Alt"@)
        + modifier_prefix(h.modifiers.shift, "Shift"@) + modifier_prefix(h.modifiers.win, "Win"@)
        + key_text(h.key)
}

/// `char::to_ascii_lowercase`.
pub fn ascii_lower_char(c: char) -> (r: char)
    ensures
        r == ascii_lower(c),
{
    let u = c as u32;
    if 0x41 <= u && u <= 0x5A {
        ((u + 32) as u8) as char
    } else {
        c
    }
}

/// `char::to_ascii_uppercase`.
pub fn ascii_upper_char(c: char) -> (r: char)
    ensures
        r == ascii_upper(c),
{
    let u = c as u32;
    if 0x61 <= u && u <= 0x7A {
        ((u - 32) as u8) as char
    } else {
        c
    }
}

/// `str::to_ascii_lowercase` on a character vector.
pub fn lower_chars(v: &Vec<char>) -> (r: Vec<char>)
    ensures
        r@ == lower_text(v@),
{
    let mut r: Vec<char> = Vec::new();
    let mut i: usize = 0;
    while i < v.len()
        invariant
            i <= v.len(),
            r@ == lower_text(v@.take(i as int)),
        decreases v.len() - i,
    {
        r.push(ascii_lower_char(v[i]));
        i = i + 1;
        assert(r@ =~= lower_text(v@.take(i as int)));
    }
    assert(v@.take(v.len() as int) == v@);
    r
}

/// `value` spells the literal `word`.
fn is_word(value: &Vec<char>, word: &str) -> (r: bool)
    ensures
        r == (value@ == word@),
{
    let w = str_chars(word);
    chars_equal(value, &w)
}

/// Reads one piece of a hotkey text, already trimmed and lowered.
pub fn apply_piece_chars(d: HotkeyDraft, value: &Vec<char>) -> (r: std::result::Result<HotkeyDraft, String>)
    ensures
        match r {
            Ok(x) => apply_piece(d, value@) == Ok::<HotkeyDraft, Seq<char>>(x),
            Err(m) => apply_piece(d, value@) == Err::<HotkeyDraft, Seq<char>>(m@),
        },
{
    if is_word(value, "ctrl") || is_word(value, "control") {
        Ok(HotkeyDraft { modifiers: Modifiers { ctrl: true, ..d.modifiers }, ..d })
    } else if is_word(value, "alt") {
        Ok(HotkeyDraft { modifiers: Modifiers { alt: true, ..d.modifiers }, ..d })
    } else if is_word(value, "shift") {
        Ok(HotkeyDraft { modifiers: Modifiers { shift: true, ..d.modifiers }, ..d })
    } else if is_word(value, "win") || is_word(value, "windows") || is_word(value, "super") {
        Ok(HotkeyDraft { modifiers: Modifiers { win: true, ..d.modifiers }, ..d })
    } else if value.len() == 0 {
        Ok(d)
    } else if value.len() == 1 && (value[0] as u32) < 0x80 {
        Ok(HotkeyDraft { key: Some(KeyCode::Char(ascii_upper_char(value[0]))), ..d })
    } else if value[0] == 'f' {
        let mut digits: Vec<char> = Vec::new();
        let mut i: usize = 1;
        while i < value.len()
            invariant
                1 <= i <= value.len(),
                digits@ == value@.subrange(1, i as int),
            decreases value.len() - i,
        {
            digits.push(value[i]);
            i = i + 1;
            assert(digits@ == value@.subrange(1, i as int));
        }
        assert(digits@ == value@.drop_first());
        match parse_unsigned_chars(&digits, 255) {
            None => Err(join2("不支持的按键: ", string_from_chars(value).as_str())),
            Some(n) => if 1 <= n && n <= 24 {
                Ok(HotkeyDraft { key: Some(KeyCode::Function(n as u8)), ..d })
            } else {
                Err(join2("不支持的功能键: F", u64_decimal(n).as_str()))
            },
        }
    } else {
        Err(join2("不支持的按键: ", string_from_chars(value).as_str()))
    }
}

/// Reads a hotkey text such as `Ctrl+Alt+E`: pieces between `+` signs are
/// trimmed and read without regard to ASCII case; the last key piece wins.
pub fn parse_hotkey(input: &str) -> (r: Result<Hotkey>)
    ensures
        match r {
            Ok(h) => parse_hotkey_text(input@) == Ok::<Hotkey, Seq<char>>(h),
            Err(e) => e matches AppError::Hotkey(m) && parse_hotkey_text(input@) == Err::<
                Hotkey,
                Seq<char>,
            >(m@),
        },
{
    let chars = str_chars(input);
    let pieces = split_chars(&chars, '+');
    let ghost all = text_views(pieces@);
    let mut d = HotkeyDraft {
        modifiers: Modifiers { ctrl: false, alt: false, shift: false, win: false },
        key: None,
    };
    let mut i: usize = 0;
    while i < pieces.len()
        invariant
            i <= pieces.len(),
            all == text_views(pieces@),
            all == split_plus(input@),
            read_pieces(all.take(i as int)) == Ok::<HotkeyDraft, Seq<char>>(d),
        decreases pieces.len() - i,
    {
        let value = lower_chars(&trim_chars(&pieces[i]));
        proof {
            assert(all.take(i + 1).drop_last() == all.take(i as int));
            assert(all.take(i + 1).last() == pieces@[i as int]@);
        }
        match apply_piece_chars(d, &value) {
            Ok(next) => {
                d = next;
            },
            Err(m) => {
                proof {
                    lemma_read_pieces_error_stays(all, i as int + 1, m@);
                    assert(all.take(all.len() as int) == all);
                }
                return Err(AppError::Hotkey(m));
            },
        }
        i = i + 1;
    }
    assert(all.take(all.len() as int) == all);
    match d.key {
        None => Err(AppError::Hotkey(crate::text::owned("快捷键必须包含一个普通按键"))),
        Some(k) => if d.modifiers.any() {
            Ok(Hotkey { modifiers: d.modifiers, key: k })
        } else {
            Err(AppError::Hotkey(crate::text::owned("快捷键必须至少包含一个修饰键")))
        },
    }
}

proof fn lemma_read_pieces_error_stays(all: Seq<Seq<char>>, k: int, m: Seq<char>)
    requires
        0 <= k <= all.len(),
        read_pieces(all.take(k)) == Err::<HotkeyDraft, Seq<char>>(m),
    ensures
        read_pieces(all) == Err::<HotkeyDraft, Seq<char>>(m),
    decreases all.len() - k,
{
    if k < all.len() {
        let t = all.drop_last();
        assert(t.take(k) == all.take(k));
        lemma_read_pieces_error_stays(t, k, m);
    } else {
        assert(all.take(k) == all);
    }
}


/// Writes a hotkey: the held modifiers in the order Ctrl, Alt, Shift, Win,
/// then the key, joined by `+`.
pub fn hotkey_display(h: Hotkey) -> (r: String)
    ensures
        r@ == hotkey_text(h),
{
    let mut out = String::new();
    if h.modifiers.ctrl {
        out.append("Ctrl+");
    }
    if h.modifiers.alt {
        out.append("Alt+");
    }
    if h.modifiers.shift {
        out.append("Shift+");
    }
    if h.modifiers.win {
        out.append("Win+");
    }
    proof {
        reveal_strlit("Ctrl+");
        reveal_strlit("Alt+");
        reveal_strlit("Shift+");
        reveal_strlit("Win+");
        reveal_strlit("Ctrl");
        reveal_strlit("Alt");
        reveal_strlit("Shift");
        reveal_strlit("Win");
        assert("Ctrl+"@ == "Ctrl"@ + seq!['+']);
        assert("Alt+"@ == "Alt"@ + seq!['+']);
        assert("Shift+"@ == "Shift"@ + seq!['+']);
        assert("Win+"@ == "Win"@ + seq!['+']);
    }
    let ghost prefix = out@;
    match h.key {
        KeyCode::Char(c) => {
            string_push(&mut out, c);
        },
        KeyCode::Function(n) => {
            string_push(&mut out, 'F');
            let digits = u64_decimal(n as u64);
            out.append(digits.as_str());
        },
    }
    assert(out@ =~= hotkey_text(h));
    out
}

impl Hotkey {
    /// The hotkey as text, such as `Ctrl+Alt+E`.
    pub fn display_string(&self) -> (r: String)
        ensures
            r@ == hotkey_text(*self),
    {
        hotkey_display(*self)
    }

    /// The flags of the held modifiers for `RegisterHotKey`: Alt 1, Ctrl 2,
    /// Shift 4, Win 8.
    pub fn win32_modifier_bits(self) -> (r: u32)
        ensures
            r == (if self.modifiers.alt {
                1int
            } else {
                0
            }) + (if self.modifiers.ctrl {
                2int
            } else {
                0
            }) + (if self.modifiers.shift {
                4int
            } else {
                0
            }) + (if self.modifiers.win {
                8int
            } else {
                0
            }),
    {
        let mut bits: u32 = 0;
        if self.modifiers.alt {
            bits = bits + 1;
        }
        if self.modifiers.ctrl {
            bits = bits + 2;
        }
        if self.modifiers.shift {
            bits = bits + 4;
        }
        if self.modifiers.win {
            bits = bits + 8;
        }
        bits
    }

    /// The virtual-key code of the ordinary key.
    pub fn win32_vk(self) -> (r: u32)
        ensures
            r == match self.key {
                KeyCode::Char(c) => (c as u32) as int,
                KeyCode::Function(n) => 0x70 + n - 1,
            },
    {
        match self.key {
            KeyCode::Char(ch) => ch as u32,
            KeyCode::Function(n) => 0x70 + (n as u32) - 1,
        }
    }
}

impl std::str::FromStr for Hotkey {
    type Err = AppError;

    fn from_str(input: &str) -> (r: Result<Self>)
        ensures
            match r {
                Ok(h) => parse_hotkey_text(input@) == Ok::<Hotkey, Seq<char>>(h),
                Err(e) => e matches AppError::Hotkey(m) && parse_hotkey_text(input@) == Err::<
                    Hotkey,
                    Seq<char>,
                >(m@),
            },
    {
        parse_hotkey(input)
    }
}


/// A key that writing and reading again gives back unchanged: a function
/// key `F1`..`F24`, or an ASCII character that is not `+`, not whitespace
/// and not a lowercase letter.
pub open spec fn valid_key(k: KeyCode) -> bool {
    match k {
        KeyCode::Char(c) => (c as u32) < 0x80 && !is_white_space(c) && c != '+' && ascii_upper(
            ascii_lower(c),
        ) == c,
        KeyCode::Function(n) => 1 <= n <= 24,
    }
}

/// A hotkey that `Hotkey::from_str` can produce: at least one modifier and
/// a valid key.
pub open spec fn valid_hotkey(h: Hotkey) -> bool {
    h.modifiers.spec_any() && valid_key(h.key)
}

/// The piece of a hotkey text as it is read: trimmed, then lowered.
pub open spec fn normalized_piece(w: Seq<char>) -> Seq<char> {
    lower_text(trim(w))
}

/// `s` holds no `+` sign.
pub open spec fn plus_free(s: Seq<char>) -> bool {
    forall|i: int| 0 <= i < s.len() ==> s[i] != '+'
}

proof fn lemma_split_plus_nonempty(s: Seq<char>)
    ensures
        split_plus(s).len() >= 1,
    decreases s.len(),
{
    if s.len() > 0 {
        lemma_split_plus_nonempty(s.drop_last());
    }
}

proof fn lemma_split_plus_push_plus(s: Seq<char>)
    ensures
        split_plus(s.push('+')) == split_plus(s).push(Seq::<char>::empty()),
{
    assert(s.push('+').drop_last() == s);
}

proof fn lemma_split_plus_append(s: Seq<char>, b: Seq<char>)
    requires
        plus_free(b),
    ensures
        split_plus(s + b) == split_plus(s).update(
            split_plus(s).len() - 1,
            split_plus(s).last() + b,
        ),
    decreases b.len(),
{
    lemma_split_plus_nonempty(s);
    let r = split_plus(s);
    if b.len() == 0 {
        assert(s + b == s);
        assert(r.last() + b == r.last());
        assert(r.update(r.len() - 1, r.last()) == r);
    } else {
        let b0 = b.drop_last();
        assert(plus_free(b0));
        lemma_split_plus_append(s, b0);
        assert((s + b).drop_last() == s + b0);
        assert((s + b).last() == b.last());
        assert(b.last() != '+');
        let r0 = split_plus(s + b0);
        assert(split_plus(s + b) == r0.update(r0.len() - 1, r0.last().push(b.last())));
        assert(r0.len() == r.len());
        assert(r0.last() == r.last() + b0);
        assert(r0.last().push(b.last()) == r.last() + b);
        assert(r.last() + b0 + seq![b.last()] == r.last() + b);
        assert(split_plus(s + b) =~= r.update(r.len() - 1, r.last() + b));
    }
}

proof fn lemma_word_step(
    pieces: Seq<Seq<char>>,
    t: Seq<char>,
    w: Seq<char>,
    d: HotkeyDraft,
    d2: HotkeyDraft,
)
    requires
        split_plus(t) == pieces.push(Seq::<char>::empty()),
        read_pieces(pieces) == Ok::<HotkeyDraft, Seq<char>>(d),
        plus_free(w),
        apply_piece(d, normalized_piece(w)) == Ok::<HotkeyDraft, Seq<char>>(d2),
    ensures
        split_plus(t + (w + seq!['+'])) == pieces.push(w).push(Seq::<char>::empty()),
        read_pieces(pieces.push(w)) == Ok::<HotkeyDraft, Seq<char>>(d2),
{
    lemma_split_plus_append(t, w);
    assert(Seq::<char>::empty() + w == w);
    assert(pieces.push(Seq::<char>::empty()).update(pieces.len() as int, w) == pieces.push(w));
    lemma_split_plus_push_plus(t + w);
    assert((t + w).push('+') == t + (w + seq!['+']));
    assert(pieces.push(w).drop_last() == pieces);
}

proof fn lemma_modifier_step(
    pieces: Seq<Seq<char>>,
    t: Seq<char>,
    held: bool,
    w: Seq<char>,
    d: HotkeyDraft,
    d2: HotkeyDraft,
) -> (next: Seq<Seq<char>>)
    requires
        split_plus(t) == pieces.push(Seq::<char>::empty()),
        read_pieces(pieces) == Ok::<HotkeyDraft, Seq<char>>(d),
        plus_free(w),
        held ==> apply_piece(d, normalized_piece(w)) == Ok::<HotkeyDraft, Seq<char>>(d2),
        !held ==> d2 == d,
    ensures
        split_plus(t + modifier_prefix(held, w)) == next.push(Seq::<char>::empty()),
        read_pieces(next) == Ok::<HotkeyDraft, Seq<char>>(d2),
{
    if held {
        lemma_word_step(pieces, t, w, d, d2);
        pieces.push(w)
    } else {
        assert(t + modifier_prefix(held, w) == t);
        pieces
    }
}

proof fn lemma_trim_plain(s: Seq<char>)
    requires
        s.len() > 0,
        !is_white_space(s[0]),
        !is_white_space(s.last()),
    ensures
        trim(s) == s,
{
}

proof fn lemma_words(d: HotkeyDraft)
    ensures
        normalized_piece("Ctrl"@) == "ctrl"@,
        normalized_piece("Alt"@) == "alt"@,
        normalized_piece("Shift"@) == "shift"@,
        normalized_piece("Win"@) == "win"@,
        plus_free("Ctrl"@),
        plus_free("Alt"@),
        plus_free("Shift"@),
        plus_free("Win"@),
        apply_piece(d, "ctrl"@) == Ok::<HotkeyDraft, Seq<char>>(
            HotkeyDraft { modifiers: Modifiers { ctrl: true, ..d.modifiers }, ..d },
        ),
        apply_piece(d, "alt"@) == Ok::<HotkeyDraft, Seq<char>>(
            HotkeyDraft { modifiers: Modifiers { alt: true, ..d.modifiers }, ..d },
        ),
        apply_piece(d, "shift"@) == Ok::<HotkeyDraft, Seq<char>>(
            HotkeyDraft { modifiers: Modifiers { shift: true, ..d.modifiers }, ..d },
        ),
        apply_piece(d, "win"@) == Ok::<HotkeyDraft, Seq<char>>(
            HotkeyDraft { modifiers: Modifiers { win: true, ..d.modifiers }, ..d },
        ),
{
    reveal_strlit("Ctrl");
    reveal_strlit("Alt");
    reveal_strlit("Shift");
    reveal_strlit("Win");
    reveal_strlit("ctrl");
    reveal_strlit("control");
    reveal_strlit("alt");
    reveal_strlit("shift");
    reveal_strlit("win");
    lemma_trim_plain("Ctrl"@);
    lemma_trim_plain("Alt"@);
    lemma_trim_plain("Shift"@);
    lemma_trim_plain("Win"@);
    assert(normalized_piece("Ctrl"@) =~= "ctrl"@);
    assert(normalized_piece("Alt"@) =~= "alt"@);
    assert(normalized_piece("Shift"@) =~= "shift"@);
    assert(normalized_piece("Win"@) =~= "win"@);
    assert("alt"@ != "ctrl"@);
    assert("alt"@ != "control"@);
    assert("shift"@ != "ctrl"@);
    assert("shift"@ != "control"@);
    assert("shift"@ != "alt"@);
    assert("win"@ != "ctrl"@);
    assert("win"@ != "control"@);
    assert("win"@ != "alt"@);
    assert("win"@ != "shift"@);
}

proof fn lemma_key_piece(d: HotkeyDraft, key: KeyCode)
    requires
        valid_key(key),
    ensures
        plus_free(key_text(key)),
        apply_piece(d, normalized_piece(key_text(key))) == Ok::<HotkeyDraft, Seq<char>>(
            HotkeyDraft { key: Some(key), ..d },
        ),
{
    reveal_strlit("ctrl");
    reveal_strlit("control");
    reveal_strlit("alt");
    reveal_strlit("shift");
    reveal_strlit("win");
    reveal_strlit("windows");
    reveal_strlit("super");
    let k = key_text(key);
    let nk = normalized_piece(k);
    match key {
        KeyCode::Char(c) => {
            assert(k == seq![c]);
            assert(plus_free(k));
            lemma_trim_plain(k);
            assert(nk =~= seq![ascii_lower(c)]);
            assert(nk != "ctrl"@);
            assert(nk != "control"@);
            assert(nk != "alt"@);
            assert(nk != "shift"@);
            assert(nk != "win"@);
            assert(nk != "windows"@);
            assert(nk != "super"@);
        },
        KeyCode::Function(n) => {
            crate::text::lemma_decimal_digits(n as nat);
            let dec = decimal(n as nat);
            assert(plus_free(k)) by {
                assert forall|i: int| 0 <= i < k.len() implies k[i] != '+' by {
                    if i > 0 {
                        assert(k[i] == dec[i - 1]);
                        assert(crate::text::is_digit(dec[i - 1]));
                    }
                }
            }
            assert(crate::text::is_digit(dec.last()));
            assert(k.last() == dec.last());
            lemma_trim_plain(k);
            assert forall|i: int| 0 <= i < dec.len() implies ascii_lower(#[trigger] dec[i]) == dec[i] by {
                assert(crate::text::is_digit(dec[i]));
            }
            assert(nk =~= seq!['f'] + dec);
            assert(nk[0] == 'f');
            assert(nk != "ctrl"@);
            assert(nk != "control"@);
            assert(nk != "alt"@);
            assert(nk != "shift"@);
            assert(nk != "win"@);
            assert(nk != "windows"@);
            assert(nk != "super"@);
            assert(nk.drop_first() == dec);
            assert(crate::text::unsigned_body(dec) == dec);
            assert(parse_unsigned(nk.drop_first(), 255) == Some(n as nat));
        },
    }
}

/// Writing a valid hotkey and reading the text back gives the same hotkey.
#[verifier::rlimit(60)]
pub proof fn law_hotkey_text_round_trip(h: Hotkey)
    requires
        valid_hotkey(h),
    ensures
        parse_hotkey_text(hotkey_text(h)) == Ok::<Hotkey, Seq<char>>(h),
{
    let m = h.modifiers;
    let e = Seq::<char>::empty();
    let d0 = empty_draft();
    assert(split_plus(e) == Seq::<Seq<char>>::empty().push(e));
    assert(read_pieces(Seq::<Seq<char>>::empty()) == Ok::<HotkeyDraft, Seq<char>>(d0));
    let d1 = if m.ctrl { HotkeyDraft { modifiers: Modifiers { ctrl: true, ..d0.modifiers }, ..d0 } } else { d0 };
    let d2 = if m.alt { HotkeyDraft { modifiers: Modifiers { alt: true, ..d1.modifiers }, ..d1 } } else { d1 };
    let d3 = if m.shift { HotkeyDraft { modifiers: Modifiers { shift: true, ..d2.modifiers }, ..d2 } } else { d2 };
    let d4 = if m.win { HotkeyDraft { modifiers: Modifiers { win: true, ..d3.modifiers }, ..d3 } } else { d3 };
    lemma_words(d0);
    lemma_words(d1);
    lemma_words(d2);
    lemma_words(d3);
    let t1 = e + modifier_prefix(m.ctrl, "Ctrl"@);
    let p1 = lemma_modifier_step(Seq::<Seq<char>>::empty(), e, m.ctrl, "Ctrl"@, d0, d1);
    let t2 = t1 + modifier_prefix(m.alt, "Alt"@);
    let p2 = lemma_modifier_step(p1, t1, m.alt, "Alt"@, d1, d2);
    let t3 = t2 + modifier_prefix(m.shift, "Shift"@);
    let p3 = lemma_modifier_step(p2, t2, m.shift, "Shift"@, d2, d3);
    let t4 = t3 + modifier_prefix(m.win, "Win"@);
    let p4 = lemma_modifier_step(p3, t3, m.win, "Win"@, d3, d4);
    assert(d4.modifiers == m);
    assert(d4.key is None);
    let k = key_text(h.key);
    assert(hotkey_text(h) == t4 + k) by {
        assert(e + modifier_prefix(m.ctrl, "Ctrl"@) == modifier_prefix(m.ctrl, "Ctrl"@));
    }
    lemma_key_piece(d4, h.key);
    lemma_split_plus_append(t4, k);
    assert(e + k == k);
    assert(p4.push(e).update(p4.len() as int, k) == p4.push(k));
    assert(p4.push(k).drop_last() == p4);
    assert(p4.push(k).last() == k);
}


proof fn lemma_trim_start_shape(s: Seq<char>)
    ensures
        trim_start_len_ok(s),
    decreases s.len(),
{
    if s.len() > 0 && is_white_space(s[0]) {
        lemma_trim_start_shape(s.drop_first());
        let t = crate::text::trim_start(s.drop_first());
        assert(s.drop_first().subrange(s.drop_first().len() - t.len(), s.drop_first().len() as int)
            == s.subrange(s.len() - t.len(), s.len() as int));
    } else {
        assert(s.subrange(0, s.len() as int) == s);
    }
}

/// Trimming the start of `s` leaves its length within `usize`.
pub open spec fn trim_start_len_ok(s: Seq<char>) -> bool {
    let t = crate::text::trim_start(s);
    &&& t.len() <= s.len()
    &&& t == s.subrange(s.len() - t.len(), s.len() as int)
    &&& t.len() > 0 ==> !is_white_space(t[0])
}

proof fn lemma_trim_end_shape(s: Seq<char>)
    ensures
        crate::text::trim_end(s).len() <= s.len(),
        crate::text::trim_end(s) == s.subrange(0, crate::text::trim_end(s).len() as int),
        s.len() > 0 && !is_white_space(s[0]) ==> crate::text::trim_end(s).len() > 0,
    decreases s.len(),
{
    if s.len() > 0 && is_white_space(s.last()) {
        lemma_trim_end_shape(s.drop_last());
        let t = crate::text::trim_end(s.drop_last());
        assert(s.drop_last().subrange(0, t.len() as int) == s.subrange(0, t.len() as int));
        if s.len() > 0 && !is_white_space(s[0]) {
            assert(s.len() > 1);
            assert(s.drop_last()[0] == s[0]);
        }
    } else {
        assert(s.subrange(0, s.len() as int) == s);
    }
}

/// The trimmed text is part of the text, and starts with no whitespace.
proof fn lemma_trim_shape(s: Seq<char>)
    ensures
        plus_free(s) ==> plus_free(trim(s)),
        trim(s).len() > 0 ==> !is_white_space(trim(s)[0]),
{
    lemma_trim_start_shape(s);
    let a = crate::text::trim_start(s);
    lemma_trim_end_shape(a);
    let b = trim(s);
    if plus_free(s) {
        assert forall|i: int| 0 <= i < b.len() implies b[i] != '+' by {
            assert(b[i] == a[i]);
            assert(a[i] == s[s.len() - a.len() + i]);
        }
    }
    if b.len() > 0 {
        assert(b[0] == a[0]);
    }
}

proof fn lemma_split_plus_pieces_plus_free(s: Seq<char>)
    ensures
        forall|i: int| 0 <= i < split_plus(s).len() ==> plus_free(#[trigger] split_plus(s)[i]),
    decreases s.len(),
{
    if s.len() > 0 {
        lemma_split_plus_pieces_plus_free(s.drop_last());
        lemma_split_plus_nonempty(s.drop_last());
        let r = split_plus(s.drop_last());
        if s.last() != '+' {
            let r2 = split_plus(s);
            assert forall|i: int| 0 <= i < r2.len() implies plus_free(#[trigger] r2[i]) by {
                if i == r.len() - 1 {
                    assert(plus_free(r[i]));
                    let x = r[i].push(s.last());
                    assert(r2[i] == x);
                    assert forall|j: int| 0 <= j < x.len() implies x[j] != '+' by {
                        if j < r[i].len() {
                            assert(x[j] == r[i][j]);
                        }
                    }
                } else {
                    assert(r2[i] == r[i]);
                }
            }
        } else {
            let r2 = split_plus(s);
            assert forall|i: int| 0 <= i < r2.len() implies plus_free(#[trigger] r2[i]) by {
                if i < r.len() {
                    assert(r2[i] == r[i]);
                }
            }
        }
    }
}

proof fn lemma_read_pieces_valid(pieces: Seq<Seq<char>>)
    requires
        forall|i: int| 0 <= i < pieces.len() ==> plus_free(#[trigger] pieces[i]),
    ensures
        read_pieces(pieces) matches Ok(d) ==> (d.key matches Some(k) ==> valid_key(k)),
    decreases pieces.len(),
{
    if pieces.len() > 0 {
        let p0 = pieces.drop_last();
        assert forall|i: int| 0 <= i < p0.len() implies plus_free(#[trigger] p0[i]) by {
            assert(p0[i] == pieces[i]);
        }
        lemma_read_pieces_valid(p0);
        let w = pieces.last();
        assert(plus_free(w));
        lemma_trim_shape(w);
        let t = trim(w);
        let v = lower_text(t);
        if v.len() == 1 && (v[0] as u32) < 0x80 {
            let c = ascii_upper(v[0]);
            assert(v[0] == ascii_lower(t[0]));
            assert(t[0] != '+');
            assert(!is_white_space(t[0]));
        }
    }
}

/// The text of any hotkey that is read successfully reads back to that
/// same hotkey: writing normalizes.
pub proof fn law_parsed_hotkey_round_trips(s: Seq<char>)
    ensures
        parse_hotkey_text(s) matches Ok(h) ==> valid_hotkey(h) && parse_hotkey_text(
            hotkey_text(h),
        ) == Ok::<Hotkey, Seq<char>>(h),
{
    lemma_split_plus_pieces_plus_free(s);
    lemma_read_pieces_valid(split_plus(s));
    if let Ok(h) = parse_hotkey_text(s) {
        law_hotkey_text_round_trip(h);
    }
}

/// The pieces `control` and `ctrl` name the same modifier: each sets Ctrl
/// and changes nothing else of what was read.
pub proof fn law_control_is_ctrl(d: HotkeyDraft)
    ensures
        apply_piece(d, "control"@) == apply_piece(d, "ctrl"@),
        apply_piece(d, "ctrl"@) == Ok::<HotkeyDraft, Seq<char>>(
            HotkeyDraft { modifiers: Modifiers { ctrl: true, ..d.modifiers }, ..d },
        ),
{
}

/// Reading a hotkey gives the same whether a piece says `Ctrl` or
/// `Control` (in any ASCII case, with any spaces around it): replacing one
/// spelling by the other anywhere leaves the reading unchanged.
pub proof fn law_control_reads_as_ctrl(pieces: Seq<Seq<char>>, i: int, other: Seq<char>)
    requires
        0 <= i < pieces.len(),
        lower_text(trim(pieces[i])) == "ctrl"@ || lower_text(trim(pieces[i])) == "control"@,
        lower_text(trim(other)) == "ctrl"@ || lower_text(trim(other)) == "control"@,
    ensures
        read_pieces(pieces.update(i, other)) == read_pieces(pieces),
    decreases pieces.len(),
{
    let q = pieces.update(i, other);
    if i == pieces.len() - 1 {
        assert(q.drop_last() == pieces.drop_last());
        assert(q.last() == other);
        match read_pieces(pieces.drop_last()) {
            Err(_) => {},
            Ok(d) => {
                law_control_is_ctrl(d);
            },
        }
    } else {
        assert(q.drop_last() == pieces.drop_last().update(i, other));
        assert(q.last() == pieces.last());
        law_control_reads_as_ctrl(pieces.drop_last(), i, other);
    }
}

} // verus!
