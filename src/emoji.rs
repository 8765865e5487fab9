//! Team emoji: reading them from the schedule's text and padding them to two
//! columns.
use vstd::prelude::*;
use vstd::utf8::is_ascii_chars;
use crate::text::{chars_of, string_of, unsigned_digits};

verus! {

#[derive(Clone, Copy, Debug, PartialEq, Eq, Structural)]
pub enum EmojiError {
    /// The text is empty.
    NoChars,
    /// The text is not a hexadecimal number that fits in 32 bits.
    BadNumber,
    /// The number is not a Unicode scalar value.
    NotAChar,
}

/// The text with every leading `0x` removed, as `str::trim_start_matches("0x")`
/// leaves it.
pub open spec fn strip_hex_prefix(s: Seq<char>) -> Seq<char>
    decreases s.len(),
{
    if s.len() >= 2 && s[0] == '0' && s[1] == 'x' {
        strip_hex_prefix(s.subrange(2, s.len() as int))
    } else {
        s
    }
}

pub open spec fn hex_digit_value(c: char) -> int {
    if '0' <= c && c <= '9' {
        c as int - '0' as int
    } else if 'a' <= c && c <= 'f' {
        c as int - 'a' as int + 10
    } else if 'A' <= c && c <= 'F' {
        c as int - 'A' as int + 10
    } else {
        -1
    }
}

pub open spec fn hex_value(s: Seq<char>) -> nat
    decreases s.len(),
{
    if s.len() == 0 {
        0
    } else {
        hex_value(s.drop_last()) * 16 + hex_digit_value(s.last()) as nat
    }
}

/// How `u32::from_str_radix(_, 16)` reads a string: an optional `+`, then one
/// or more hexadecimal digits of either case whose value fits in 32 bits.
pub open spec fn parse_hex_u32_spec(s: Seq<char>) -> Option<u32> {
    let d = unsigned_digits(s);
    if d.len() > 0 && (forall|i: int| 0 <= i < d.len() ==> hex_digit_value(#[trigger] d[i]) >= 0)
        && hex_value(d) <= u32::MAX {
        Some(hex_value(d) as u32)
    } else {
        None
    }
}

pub open spec fn char_code(c: char) -> u32 {
    c as u32
}

/// Whether a number is a Unicode scalar value.
pub open spec fn is_scalar_value(u: u32) -> bool {
    u < 0xD800 || (0xE000 <= u && u <= 0x10FFFF)
}

/// The emoji that a text denotes: its first character where the text is not
/// ASCII, else the character whose code is the hexadecimal number after any
/// `0x` prefixes.
pub open spec fn emoji_of(s: Seq<char>) -> Result<char, EmojiError> {
    if !is_ascii_chars(s) {
        if s.len() == 0 {
            Err(EmojiError::NoChars)
        } else {
            Ok(s[0])
        }
    } else {
        match parse_hex_u32_spec(strip_hex_prefix(s)) {
            None => Err(EmojiError::BadNumber),
            Some(u) => if is_scalar_value(u) {
                Ok(choose|c: char| #[trigger] char_code(c) == u)
            } else {
                Err(EmojiError::NotAChar)
            },
        }
    }
}

/// Relies on `u32::from_str_radix` with radix 16.
#[verifier::external_body]
fn parse_hex_u32(v: &[char]) -> (r: Option<u32>)
    ensures
        r == parse_hex_u32_spec(v@),
{
    let s: String = v.iter().collect();
    u32::from_str_radix(&s, 16).ok()
}

/// Relies on `char::from_u32`: the character of a scalar value, else `None`.
#[verifier::external_body]
fn char_from_u32(u: u32) -> (r: Option<char>)
    ensures
        r is Some <==> is_scalar_value(u),
        r is Some ==> r->Some_0 as u32 == u,
{
    char::from_u32(u)
}

fn strip_prefixes(s: &[char]) -> (r: Vec<char>)
    ensures
        r@ == strip_hex_prefix(s@),
{
    let n = s.len();
    let mut i: usize = 0;
    assert(s@.subrange(0, n as int) =~= s@);
    while i < n && i + 1 < n && s[i] == '0' && s[i + 1] == 'x'
        invariant
            i <= n,
            n == s@.len(),
            strip_hex_prefix(s@) == strip_hex_prefix(s@.subrange(i as int, n as int)),
        decreases n - i,
    {
        let ghost t = s@.subrange(i as int, n as int);
        assert(t.subrange(2, t.len() as int) =~= s@.subrange(i + 2, n as int));
        i += 2;
    }
    let mut r: Vec<char> = Vec::new();
    let mut k: usize = i;
    while k < n
        invariant
            i <= k <= n,
            n == s@.len(),
            r@ == s@.subrange(i as int, k as int),
        decreases n - k,
    {
        r.push(s[k]);
        assert(r@ =~= s@.subrange(i as int, k + 1));
        k += 1;
    }
    r
}

/// Reads an emoji from the schedule's text.
pub fn emoji_from_str(v: &str) -> (r: Result<char, EmojiError>)
    ensures
        r == emoji_of(v@),
{
    let chars = chars_of(v);
    if !v.is_ascii() {
        if chars.len() == 0 {
            Err(EmojiError::NoChars)
        } else {
            Ok(chars[0])
        }
    } else {
        let digits = strip_prefixes(chars.as_slice());
        match parse_hex_u32(digits.as_slice()) {
            None => Err(EmojiError::BadNumber),
            Some(u) => match char_from_u32(u) {
                None => Err(EmojiError::NotAChar),
                Some(c) => {
                    proof {
                        assert(char_code(c) == u);
                        let d = choose|d: char| #[trigger] char_code(d) == u;
                        vstd::utf8::char_u32_cast(c, u);
                        vstd::utf8::char_u32_cast(d, u);
                        assert(c == d);
                    }
                    Ok(c)
                },
            },
        }
    }
}

/// The display width of a character in columns, `None` for a control
/// character, as `unicode_width` measures it.
pub uninterp spec fn display_width(c: char) -> Option<usize>;

/// Relies on `unicode_width::UnicodeWidthChar::width`.
#[verifier::external_body]
fn char_width(c: char) -> (r: Option<usize>)
    ensures
        r == display_width(c),
{
    unicode_width::UnicodeWidthChar::width(c)
}

pub open spec fn padded(emoji: char, width: Option<usize>) -> Seq<char> {
    if width == Some(2usize) {
        seq![emoji]
    } else {
        seq![emoji, ' ']
    }
}

/// The emoji, followed by a space unless it is `width` columns wide with
/// `width` two.
pub fn pad_to_width(emoji: char, width: Option<usize>) -> (r: String)
    ensures
        r@ == padded(emoji, width),
{
    let v = if width == Some(2usize) {
        vec![emoji]
    } else {
        vec![emoji, ' ']
    };
    proof {
        if width == Some(2usize) {
            assert(v@ =~= seq![emoji]);
        } else {
            assert(v@ =~= seq![emoji, ' ']);
        }
    }
    string_of(v.as_slice())
}

/// The emoji padded to two columns.
pub fn pad(emoji: char) -> (r: String)
    ensures
        r@ == padded(emoji, display_width(emoji)),
{
    pad_to_width(emoji, char_width(emoji))
}

} // verus!
