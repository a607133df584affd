//! Quoted string values of the settings file: escaping a text so that it
//! reads back as itself, and reading an escaped value.
use vstd::prelude::*;

use crate::text::{char_from_u32, chars_of, is_control, is_control_char, is_scalar_value, push_char};

verus! {

/// The uppercase hexadecimal digit for `d` in `0..16`.
pub open spec fn hex_digit_char(d: int) -> char {
    if d < 10 {
        (('0' as int) + d) as char
    } else {
        (('A' as int) + d - 10) as char
    }
}

/// `value` in `width` uppercase hexadecimal digits, most significant first.
pub open spec fn hex_text(value: nat, width: nat) -> Seq<char>
    decreases width,
{
    if width == 0 {
        Seq::empty()
    } else {
        hex_text(value / 16, (width - 1) as nat).push(hex_digit_char((value % 16) as int))
    }
}

pub open spec fn pow16(n: nat) -> nat
    decreases n,
{
    if n == 0 {
        1
    } else {
        16 * pow16((n - 1) as nat)
    }
}

/// The value of a hexadecimal digit in either case, as `char::to_digit(16)`.
pub open spec fn hex_digit_value(c: char) -> Option<nat> {
    if '0' <= c <= '9' {
        Some((c as int - '0' as int) as nat)
    } else if 'a' <= c <= 'f' {
        Some((c as int - 'a' as int + 10) as nat)
    } else if 'A' <= c <= 'F' {
        Some((c as int - 'A' as int + 10) as nat)
    } else {
        None
    }
}

/// The value of a run of hexadecimal digits, when all are digits.
pub open spec fn hex_number(digits: Seq<char>) -> Option<nat>
    decreases digits.len(),
{
    if digits.len() == 0 {
        Some(0)
    } else {
        match (hex_number(digits.drop_last()), hex_digit_value(digits.last())) {
            (Some(v), Some(d)) => Some(v * 16 + d),
            _ => None,
        }
    }
}

/// How one character is written inside a quoted value: backslash, quote and
/// the common control characters by a letter, other control characters by
/// their code, and every other character as itself.
pub open spec fn escape_char(c: char) -> Seq<char> {
    if c == '\\' {
        seq!['\\', '\\']
    } else if c == '"' {
        seq!['\\', '"']
    } else if c == '\n' {
        seq!['\\', 'n']
    } else if c == '\r' {
        seq!['\\', 'r']
    } else if c == '\t' {
        seq!['\\', 't']
    } else if is_control_char(c) {
        if (c as u32) <= 0xffff {
            seq!['\\', 'u'] + hex_text(c as u32 as nat, 4)
        } else {
            seq!['\\', 'U'] + hex_text(c as u32 as nat, 8)
        }
    } else {
        seq![c]
    }
}

/// `s` with each character escaped.
pub open spec fn escaped(s: Seq<char>) -> Seq<char>
    decreases s.len(),
{
    if s.len() == 0 {
        Seq::empty()
    } else {
        escape_char(s[0]) + escaped(s.drop_first())
    }
}

/// `s` as a quoted value of the settings file.
pub open spec fn quoted(s: Seq<char>) -> Seq<char> {
    seq!['"'] + escaped(s) + seq!['"']
}

/// The character whose code is `code`.
pub open spec fn char_with_code(code: u32) -> char {
    choose|c: char| #[trigger] code_of(c) == code
}

proof fn lemma_code_injective(a: char, b: char)
    requires
        a as u32 == b as u32,
    ensures
        a == b,
{
}

/// The code of a character.
pub open spec fn code_of(c: char) -> u32 {
    c as u32
}

/// `c` in front of a text, if there is one.
pub open spec fn prepend(c: char, rest: Option<Seq<char>>) -> Option<Seq<char>> {
    match rest {
        Some(t) => Some(seq![c] + t),
        None => None,
    }
}

/// An escaped text read back: `\\`, `\"`, `\n`, `\r`, `\t`, and `\u` or `\U`
/// with four or eight hexadecimal digits naming a Unicode scalar value; none
/// for any other escape.
pub open spec fn unescaped(s: Seq<char>) -> Option<Seq<char>>
    decreases s.len(),
{
    if s.len() == 0 {
        Some(Seq::empty())
    } else if s[0] != '\\' {
        prepend(s[0], unescaped(s.drop_first()))
    } else if s.len() < 2 {
        None
    } else {
        let e = s[1];
        let rest = s.subrange(2, s.len() as int);
        if e == '\\' {
            prepend('\\', unescaped(rest))
        } else if e == '"' {
            prepend('"', unescaped(rest))
        } else if e == 'n' {
            prepend('\n', unescaped(rest))
        } else if e == 'r' {
            prepend('\r', unescaped(rest))
        } else if e == 't' {
            prepend('\t', unescaped(rest))
        } else if e == 'u' || e == 'U' {
            let n: int = if e == 'u' {
                4
            } else {
                8
            };
            if rest.len() < n {
                None
            } else {
                match hex_number(rest.take(n)) {
                    Some(v) => if v <= u32::MAX && is_scalar_value(v as u32) {
                        prepend(char_with_code(v as u32), unescaped(rest.skip(n)))
                    } else {
                        None
                    },
                    None => None,
                }
            }
        } else {
            None
        }
    }
}

proof fn lemma_escaped_push(s: Seq<char>, c: char)
    ensures
        escaped(s.push(c)) == escaped(s) + escape_char(c),
    decreases s.len(),
{
    if s.len() == 0 {
        assert(s.push(c).drop_first() == Seq::<char>::empty());
        assert(s.push(c)[0] == c);
        assert(escaped(s) == Seq::<char>::empty());
        assert(escaped(s.push(c)) == escape_char(c) + escaped(Seq::<char>::empty()));
        assert(escape_char(c) + Seq::<char>::empty() == escape_char(c));
        assert(Seq::<char>::empty() + escape_char(c) == escape_char(c));
    } else {
        lemma_escaped_push(s.drop_first(), c);
        assert(s.push(c).drop_first() == s.drop_first().push(c));
        assert(s.push(c)[0] == s[0]);
        assert((escape_char(s[0]) + escaped(s.drop_first())) + escape_char(c) == escape_char(s[0]) + (escaped(
            s.drop_first(),
        ) + escape_char(c)));
    }
}

fn push_hex(out: &mut String, value: u32, width: u32)
    requires
        width <= 8,
    ensures
        final(out)@ == old(out)@ + hex_text(value as nat, width as nat),
    decreases width,
{
    if width == 0 {
        assert(old(out)@ + Seq::<char>::empty() == old(out)@);
        return;
    }
    push_hex(out, value / 16, width - 1);
    let d = value % 16;
    let c = if d < 10 {
        if d == 0 { '0' } else if d == 1 { '1' } else if d == 2 { '2' } else if d == 3 { '3' } else if d == 4 { '4' } else if d == 5 { '5' } else if d == 6 { '6' } else if d == 7 { '7' } else if d == 8 { '8' } else { '9' }
    } else if d == 10 {
        'A'
    } else if d == 11 {
        'B'
    } else if d == 12 {
        'C'
    } else if d == 13 {
        'D'
    } else if d == 14 {
        'E'
    } else {
        'F'
    };
    assert(c == hex_digit_char(d as int));
    push_char(out, c);
    assert(hex_text(value as nat, width as nat) == hex_text((value / 16) as nat, (width - 1) as nat).push(
        hex_digit_char(d as int),
    ));
}

fn push_escaped_char(out: &mut String, c: char)
    ensures
        final(out)@ == old(out)@ + escape_char(c),
{
    if c == '\\' {
        push_char(out, '\\');
        push_char(out, '\\');
    } else if c == '"' {
        push_char(out, '\\');
        push_char(out, '"');
    } else if c == '\n' {
        push_char(out, '\\');
        push_char(out, 'n');
    } else if c == '\r' {
        push_char(out, '\\');
        push_char(out, 'r');
    } else if c == '\t' {
        push_char(out, '\\');
        push_char(out, 't');
    } else if is_control(c) {
        let code = c as u32;
        push_char(out, '\\');
        if code <= 0xffff {
            push_char(out, 'u');
            push_hex(out, code, 4);
        } else {
            push_char(out, 'U');
            push_hex(out, code, 8);
        }
    } else {
        push_char(out, c);
    }
}

/// `value` quoted, with backslash, quote and control characters escaped.
pub fn config_string_value(value: &str) -> (text: String)
    ensures
        text@ == quoted(value@),
{
    let chars = chars_of(value);
    let mut text = String::new();
    push_char(&mut text, '"');
    let mut i: usize = 0;
    while i < chars.len()
        invariant
            i <= chars@.len(),
            chars@ == value@,
            text@ == seq!['"'] + escaped(chars@.take(i as int)),
        decreases chars@.len() - i,
    {
        let ghost before = text@;
        push_escaped_char(&mut text, chars[i]);
        proof {
            lemma_escaped_push(chars@.take(i as int), chars@[i as int]);
            assert(chars@.take(i + 1) == chars@.take(i as int).push(chars@[i as int]));
        }
        i = i + 1;
    }
    push_char(&mut text, '"');
    assert(chars@.take(chars@.len() as int) == chars@);
    text
}

/// `prefix` in front of a text, if there is one.
pub open spec fn with_prefix(prefix: Seq<char>, rest: Option<Seq<char>>) -> Option<Seq<char>> {
    match rest {
        Some(t) => Some(prefix + t),
        None => None,
    }
}

fn hex_digit_of(c: char) -> (digit: Option<u64>)
    ensures
        match digit {
            Some(d) => hex_digit_value(c) == Some(d as nat) && d < 16,
            None => hex_digit_value(c) is None,
        },
{
    if '0' <= c && c <= '9' {
        Some((c as u32 - '0' as u32) as u64)
    } else if 'a' <= c && c <= 'f' {
        Some((c as u32 - 'a' as u32 + 10) as u64)
    } else if 'A' <= c && c <= 'F' {
        Some((c as u32 - 'A' as u32 + 10) as u64)
    } else {
        None
    }
}

proof fn lemma_pow16_values()
    ensures
        pow16(4) == 0x1_0000,
        pow16(8) == 0x1_0000_0000,
{
    reveal_with_fuel(pow16, 9);
}

/// The value of the `n` hexadecimal digits of `chars` at `start`.
fn read_hex(chars: &Vec<char>, start: usize, n: usize) -> (value: Option<u32>)
    requires
        start + n <= chars@.len(),
        n == 4 || n == 8,
    ensures
        match value {
            Some(v) => hex_number(chars@.subrange(start as int, start + n)) == Some(v as nat),
            None => hex_number(chars@.subrange(start as int, start + n)) is None,
        },
{
    proof {
        lemma_pow16_values();
    }
    let mut value: u64 = 0;
    let mut j: usize = 0;
    assert(chars@.subrange(start as int, start as int) == Seq::<char>::empty());
    while j < n
        invariant
            start + n <= chars.len(),
            n == 4 || n == 8,
            j <= n,
            hex_number(chars@.subrange(start as int, start + j)) == Some(value as nat),
            value < pow16(j as nat),
            pow16(4) == 0x1_0000,
            pow16(8) == 0x1_0000_0000,
        decreases n - j,
    {
        let ghost digits = chars@.subrange(start as int, start + j + 1);
        assert(digits.drop_last() == chars@.subrange(start as int, start + j));
        assert(digits.last() == chars@[start + j]);
        let index = start + j;
        match hex_digit_of(chars[index]) {
            Some(d) => {
                assert(pow16((j + 1) as nat) == 16 * pow16(j as nat));
                assert(value * 16 + d < pow16((j + 1) as nat)) by (nonlinear_arith)
                    requires
                        value < pow16(j as nat),
                        d < 16,
                        pow16((j + 1) as nat) == 16 * pow16(j as nat),
                ;
                assert(pow16(j as nat) <= 0x1000_0000) by {
                    reveal_with_fuel(pow16, 9);
                }
                value = value * 16 + d;
            },
            None => {
                proof {
                    lemma_hex_number_prefix_fails(chars@.subrange(start as int, start + n), j as int);
                    assert(chars@.subrange(start as int, start + n).take(j + 1) == digits);
                }
                return None;
            },
        }
        j = j + 1;
    }
    assert(value <= u32::MAX);
    Some(value as u32)
}

/// A run of digits with a non-digit in it has no value.
proof fn lemma_hex_number_prefix_fails(digits: Seq<char>, j: int)
    requires
        0 <= j < digits.len(),
        hex_digit_value(digits[j]) is None,
    ensures
        hex_number(digits) is None,
    decreases digits.len(),
{
    if j < digits.len() - 1 {
        lemma_hex_number_prefix_fails(digits.drop_last(), j);
    }
}

/// The text an escaped value stands for; none for a malformed escape.
pub fn unescape_config_value(value: &str) -> (text: Option<String>)
    ensures
        match text {
            Some(t) => unescaped(value@) == Some(t@),
            None => unescaped(value@) is None,
        },
{
    let chars = chars_of(value);
    let mut out = String::new();
    let mut i: usize = 0;
    assert(chars@.skip(0) == chars@);
    assert(Seq::<char>::empty() + unescaped(value@).unwrap_or(Seq::<char>::empty()) == unescaped(value@).unwrap_or(Seq::<char>::empty()));
    while i < chars.len()
        invariant
            chars@ == value@,
            i <= chars@.len(),
            unescaped(value@) == with_prefix(out@, unescaped(chars@.skip(i as int))),
        decreases chars@.len() - i,
    {
        let ghost s = chars@.skip(i as int);
        let ghost before = out@;
        let c = chars[i];
        assert(s[0] == c);
        if c != '\\' {
            push_char(&mut out, c);
            assert(s.drop_first() == chars@.skip(i + 1));
            proof {
                lemma_with_prefix_push(before, c, unescaped(s.drop_first()));
            }
            i = i + 1;
        } else {
            if i + 1 >= chars.len() {
                return None;
            }
            let e = chars[i + 1];
            assert(s[1] == e);
            assert(s.subrange(2, s.len() as int) == chars@.skip(i + 2));
            let ghost rest = chars@.skip(i + 2);
            if e == '\\' || e == '"' || e == 'n' || e == 'r' || e == 't' {
                let unescaped_char = if e == '\\' {
                    '\\'
                } else if e == '"' {
                    '"'
                } else if e == 'n' {
                    '\n'
                } else if e == 'r' {
                    '\r'
                } else {
                    '\t'
                };
                push_char(&mut out, unescaped_char);
                proof {
                    lemma_with_prefix_push(before, unescaped_char, unescaped(rest));
                }
                i = i + 2;
            } else if e == 'u' || e == 'U' {
                let n: usize = if e == 'u' {
                    4
                } else {
                    8
                };
                if chars.len() - (i + 2) < n {
                    return None;
                }
                assert(rest.take(n as int) == chars@.subrange(i + 2, i + 2 + n));
                match read_hex(&chars, i + 2, n) {
                    Some(code) => match char_from_u32(code) {
                        Some(ch) => {
                            push_char(&mut out, ch);
                            assert(rest.skip(n as int) == chars@.skip(i + 2 + n));
                            proof {
                                assert(code_of(ch) == code);
                                let other = char_with_code(code);
                                assert(code_of(other) == code);
                                lemma_code_injective(ch, other);
                            }
                            proof {
                                lemma_with_prefix_push(before, ch, unescaped(rest.skip(n as int)));
                            }
                            i = i + 2 + n;
                        },
                        None => {
                            return None;
                        },
                    },
                    None => {
                        return None;
                    },
                }
            } else {
                return None;
            }
        }
    }
    proof {
        assert(chars@.skip(chars@.len() as int) == Seq::<char>::empty());
        assert(out@ + Seq::<char>::empty() == out@);
    }
    Some(out)
}

proof fn lemma_with_prefix_push(prefix: Seq<char>, c: char, rest: Option<Seq<char>>)
    ensures
        with_prefix(prefix, prepend(c, rest)) == with_prefix(prefix.push(c), rest),
{
    if let Some(t) = rest {
        assert(prefix + (seq![c] + t) == prefix.push(c) + t);
    }
}

/// A value as written in the settings file read as text: without its quotes
/// when it is quoted (a lone opening quote is malformed), then unescaped.
pub open spec fn string_value(value: Seq<char>) -> Option<Seq<char>> {
    if value.len() >= 1 && value[0] == '"' {
        let inner = value.drop_first();
        if inner.len() >= 1 && inner.last() == '"' {
            unescaped(inner.drop_last())
        } else {
            None
        }
    } else {
        unescaped(value)
    }
}

/// The text a value of the settings file stands for, quoted or not.
pub fn config_value_text(value: &str) -> (text: Option<String>)
    ensures
        match text {
            Some(t) => string_value(value@) == Some(t@),
            None => string_value(value@) is None,
        },
{
    let len = value.unicode_len();
    if len >= 1 && value.get_char(0) == '"' {
        if len >= 2 && value.get_char(len - 1) == '"' {
            let inner = value.substring_char(1, len - 1);
            assert(inner@ == value@.drop_first().drop_last());
            unescape_config_value(inner)
        } else {
            assert(len < 2 ==> value@.drop_first().len() == 0);
            None
        }
    } else {
        unescape_config_value(value)
    }
}

proof fn lemma_hex_digit_round_trip(d: int)
    requires
        0 <= d < 16,
    ensures
        hex_digit_value(hex_digit_char(d)) == Some(d as nat),
{
}

proof fn lemma_hex_round_trip(value: nat, width: nat)
    requires
        value < pow16(width),
    ensures
        hex_number(hex_text(value, width)) == Some(value),
        hex_text(value, width).len() == width,
    decreases width,
{
    if width > 0 {
        assert(value / 16 < pow16((width - 1) as nat));
        lemma_hex_round_trip(value / 16, (width - 1) as nat);
        lemma_hex_digit_round_trip((value % 16) as int);
        let t = hex_text(value, width);
        assert(t.drop_last() == hex_text(value / 16, (width - 1) as nat));
        assert(value == (value / 16) * 16 + value % 16);
    }
}

proof fn lemma_unescape_escape_char(c: char, t: Seq<char>)
    ensures
        unescaped(escape_char(c) + t) == prepend(c, unescaped(t)),
{
    let x = escape_char(c) + t;
    if c == '\\' || c == '"' || c == '\n' || c == '\r' || c == '\t' {
        assert(x[0] == '\\');
        assert(x.subrange(2, x.len() as int) == t);
    } else if is_control_char(c) {
        let code = c as u32;
        assert(code <= 0x9f);
        lemma_pow16_values();
        lemma_hex_round_trip(code as nat, 4);
        let hex = hex_text(code as nat, 4);
        assert(x == seq!['\\', 'u'] + hex + t);
        let rest = x.subrange(2, x.len() as int);
        assert(rest == hex + t);
        assert(rest.take(4) == hex);
        assert(rest.skip(4) == t);
        assert(is_scalar_value(code));
        assert(code_of(c) == code);
        let other = char_with_code(code);
        assert(code_of(other) == code);
        lemma_code_injective(c, other);
    } else {
        assert(x[0] == c);
        assert(x.drop_first() == t);
    }
}

/// Reading an escaped text gives the text back.
pub proof fn law_unescape_undoes_escape(s: Seq<char>)
    ensures
        unescaped(escaped(s)) == Some(s),
        string_value(quoted(s)) == Some(s),
    decreases s.len(),
{
    if s.len() == 0 {
        assert(escaped(s) == Seq::<char>::empty());
    } else {
        law_unescape_undoes_escape(s.drop_first());
        lemma_unescape_escape_char(s[0], escaped(s.drop_first()));
        assert(seq![s[0]] + s.drop_first() == s);
    }
    let q = quoted(s);
    assert(q[0] == '"');
    assert(q.drop_first().drop_last() == escaped(s));
}

} // verus!
