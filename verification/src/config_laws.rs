//! What reading a written settings file gives back.
use vstd::prelude::*;

use crate::config::{
    config_bool, config_entries, config_integer, config_rgb, default_view_mode_for, digit_value,
    export_format_policy_name, first_index_of, is_decimal_digit, is_strict_text_key, last_value, law_names_read_back,
    line_error, line_form, mouse_shortcut_name, rgb_component, rgb_text, scaling_quality_name, scan_i128,
    ui_language_name, values_of, view_mode_name, AppConfigParseError, EntryView, LineForm,
};
use crate::config_file::{
    bool_text, config_lines, config_of_values, config_settings, display_settings, folder_settings, lines_text,
    remaining_settings, setting_line, signed_decimal, valid_config, window_settings, Setting, ViewerConfigView,
};
use crate::config_text::{
    escape_char, escaped, hex_digit_char, hex_text, law_unescape_undoes_escape, quoted, string_value, unescaped,
};
use crate::info::{decimal, digit_char};
use crate::memory::{limits_ordered, normalized_limits};
use crate::text::{is_whitespace_char, lemma_pieces_not_empty, pieces, trim_end, trim_start, trimmed};

verus! {

// ---------------------------------------------------------------------------
// Lines of text
// ---------------------------------------------------------------------------
proof fn lemma_pieces_append(s: Seq<char>, t: Seq<char>, sep: char)
    requires
        forall|i: int| 0 <= i < t.len() ==> t[i] != sep,
    ensures
        pieces(s + t, sep) == pieces(s, sep).update(
            pieces(s, sep).len() - 1,
            pieces(s, sep).last() + t,
        ),
    decreases t.len(),
{
    lemma_pieces_not_empty(s, sep);
    let p = pieces(s, sep);
    if t.len() == 0 {
        assert(s + t == s);
        assert(p.last() + t == p.last());
        assert(p.update(p.len() - 1, p.last()) == p);
    } else {
        let init = t.drop_last();
        lemma_pieces_append(s, init, sep);
        assert((s + t).drop_last() == s + init);
        assert((s + t).last() == t.last());
        lemma_pieces_not_empty(s + init, sep);
        assert(t.last() == t[t.len() - 1]);
        assert(t.last() != sep);
        let q = pieces(s + init, sep);
        assert(q == p.update(p.len() - 1, p.last() + init));
        assert(q.len() == p.len());
        assert(q.last() == p.last() + init);
        assert((p.last() + init).push(t.last()) == p.last() + t);
        assert(pieces(s + t, sep) == q.update(q.len() - 1, q.last().push(t.last())));
        assert(q.update(q.len() - 1, q.last().push(t.last())) =~= p.update(p.len() - 1, p.last() + t));
    }
}

/// A text made of lines without line breaks, each ended by one, splits at
/// its line breaks into those lines and an empty last piece.
pub proof fn lemma_pieces_of_lines(lines: Seq<Seq<char>>)
    requires
        forall|i: int, j: int| 0 <= i < lines.len() && 0 <= j < lines[i].len() ==> lines[i][j] != '\n',
    ensures
        pieces(lines_text(lines), '\n') == lines.push(Seq::empty()),
    decreases lines.len(),
{
    if lines.len() == 0 {
        assert(pieces(Seq::<char>::empty(), '\n') == seq![Seq::<char>::empty()]);
    } else {
        let init = lines.drop_last();
        let line = lines.last();
        lemma_pieces_of_lines(init);
        let before = lines_text(init);
        assert forall|j: int| 0 <= j < line.len() implies line[j] != '\n' by {
            assert(lines[lines.len() - 1] == line);
        }
        lemma_pieces_append(before, line, '\n');
        let text = lines_text(lines);
        assert(text == before + line + seq!['\n']);
        assert(text.drop_last() == before + line);
        assert(text.last() == '\n');
        assert(init.push(Seq::empty()).update(init.len() as int, Seq::<char>::empty() + line) == lines);
    }
}

// ---------------------------------------------------------------------------
// Reading one line
// ---------------------------------------------------------------------------
/// A key that can be written as is: not empty, not starting a comment, with
/// no `=` and no whitespace in it.
pub open spec fn plain_key(key: Seq<char>) -> bool {
    &&& key.len() > 0
    &&& key[0] != '#'
    &&& forall|i: int| 0 <= i < key.len() ==> key[i] != '=' && !is_whitespace_char(#[trigger] key[i])
}

/// What a value reads as after the line around it is trimmed.
pub open spec fn read_value(value: Seq<char>) -> Seq<char> {
    trimmed(trim_end(value))
}

proof fn lemma_trim_end_append(a: Seq<char>, b: Seq<char>)
    requires
        a.len() > 0,
        !is_whitespace_char(a.last()),
    ensures
        trim_end(a + b) == a + trim_end(b),
    decreases b.len(),
{
    if b.len() == 0 {
        assert(a + b == a);
        assert(a + Seq::<char>::empty() == a);
    } else if is_whitespace_char(b.last()) {
        assert((a + b).drop_last() == a + b.drop_last());
        lemma_trim_end_append(a, b.drop_last());
    } else {
        assert((a + b).last() == b.last());
    }
}

proof fn lemma_first_index_after(a: Seq<char>, b: Seq<char>, c: char)
    requires
        forall|i: int| 0 <= i < a.len() ==> a[i] != c,
        b.len() > 0,
        b[0] == c,
    ensures
        first_index_of(a + b, c) == a.len(),
    decreases a.len(),
{
    if a.len() > 0 {
        assert((a + b).drop_first() == a.drop_first() + b);
        lemma_first_index_after(a.drop_first(), b, c);
    } else {
        assert(a + b == b);
    }
}

/// A line made of a plain key, `=` and a value is an entry of that key and
/// the value as trimmed.
pub proof fn lemma_setting_line_form(key: Seq<char>, value: Seq<char>)
    requires
        plain_key(key),
    ensures
        line_form(setting_line(key, value)) == LineForm::Entry(key, read_value(value)),
{
    let line = setting_line(key, value);
    let head = key + seq!['='];
    assert(line == head + value);
    assert(line[0] == key[0]);
    assert(!is_whitespace_char(key[0]));
    assert(trim_start(line) == line);
    assert(head.last() == '=');
    lemma_trim_end_append(head, value);
    let t = trimmed(line);
    assert(t == head + trim_end(value));
    assert(t[0] == key[0]);
    assert forall|i: int| 0 <= i < key.len() implies key[i] != '=' by {
        assert(key[i] != '=' && !is_whitespace_char(key[i]));
    }
    assert(t == key + (seq!['='] + trim_end(value)));
    lemma_first_index_after(key, seq!['='] + trim_end(value), '=');
    assert(t.take(key.len() as int) == key);
    assert(t.skip(key.len() as int + 1) == trim_end(value));
    assert(!is_whitespace_char(key[0]));
    assert(!is_whitespace_char(key.last()));
    assert(trim_start(key) == key);
    assert(trim_end(key) == key);
}

/// A value with no whitespace at either end reads as itself.
pub proof fn lemma_read_value_exact(value: Seq<char>)
    requires
        value.len() > 0,
        !is_whitespace_char(value[0]),
        !is_whitespace_char(value.last()),
    ensures
        read_value(value) == value,
{
    assert(trim_end(value) == value);
    assert(trim_start(value) == value);
}

// ---------------------------------------------------------------------------
// Reading many lines
// ---------------------------------------------------------------------------
/// The entries that the lines of `settings` are read as.
pub open spec fn read_entries(settings: Seq<Setting>) -> Seq<EntryView> {
    Seq::new(
        settings.len(),
        |i: int| EntryView { line: (i + 1) as usize, key: settings[i].0, value: read_value(settings[i].1) },
    )
}

/// A setting whose line reads without an error: a plain key, the version
/// `1`, and a value that reads as text where the key asks for text.
pub open spec fn readable(setting: Setting) -> bool {
    &&& plain_key(setting.0)
    &&& (setting.0 == "version"@ ==> read_value(setting.1) == seq!['1'])
    &&& (is_strict_text_key(setting.0) ==> string_value(read_value(setting.1)) is Some)
}

pub open spec fn setting_lines(settings: Seq<Setting>) -> Seq<Seq<char>> {
    settings.map_values(|p: Setting| setting_line(p.0, p.1))
}

proof fn lemma_entries_of_settings(settings: Seq<Setting>)
    requires
        forall|i: int| 0 <= i < settings.len() ==> readable(#[trigger] settings[i]),
        settings.len() < usize::MAX,
    ensures
        config_entries(setting_lines(settings)) == Ok::<Seq<EntryView>, crate::config::AppConfigParseError>(
            read_entries(settings),
        ),
    decreases settings.len(),
{
    if settings.len() > 0 {
        let init = settings.drop_last();
        let last = settings.last();
        assert(readable(settings[settings.len() - 1]));
        lemma_entries_of_settings(init);
        assert(setting_lines(settings).drop_last() == setting_lines(init));
        assert(setting_lines(settings).last() == setting_line(last.0, last.1));
        lemma_setting_line_form(last.0, last.1);
        let number = settings.len() as usize;
        assert(line_error(setting_line(last.0, last.1), number) is None);
        assert(read_entries(init).push(
            EntryView { line: number, key: last.0, value: read_value(last.1) },
        ) =~= read_entries(settings));
    } else {
        assert(setting_lines(settings) =~= Seq::<Seq<char>>::empty());
        assert(read_entries(settings) =~= Seq::<EntryView>::empty());
    }
}

/// The lines of readable settings, followed by an empty line, are read as
/// their entries.
pub proof fn lemma_entries_of_setting_file(settings: Seq<Setting>)
    requires
        forall|i: int| 0 <= i < settings.len() ==> readable(#[trigger] settings[i]),
        settings.len() < usize::MAX,
    ensures
        config_entries(setting_lines(settings).push(Seq::empty())) == Ok::<
            Seq<EntryView>,
            crate::config::AppConfigParseError,
        >(read_entries(settings)),
{
    lemma_entries_of_settings(settings);
    let lines = setting_lines(settings).push(Seq::empty());
    assert(lines.drop_last() == setting_lines(settings));
    assert(trimmed(Seq::<char>::empty()).len() == 0);
    assert(line_form(lines.last()) == LineForm::Skipped);
}

/// The value of the last setting with `key`, as read.
pub open spec fn last_setting(settings: Seq<Setting>, key: Seq<char>) -> Option<Seq<char>>
    decreases settings.len(),
{
    if settings.len() == 0 {
        None
    } else if settings.last().0 == key {
        Some(read_value(settings.last().1))
    } else {
        last_setting(settings.drop_last(), key)
    }
}

pub proof fn lemma_last_value_of_settings(settings: Seq<Setting>, key: Seq<char>)
    ensures
        last_value(read_entries(settings), key) == last_setting(settings, key),
    decreases settings.len(),
{
    if settings.len() > 0 {
        assert(read_entries(settings).drop_last() =~= read_entries(settings.drop_last()));
        lemma_last_value_of_settings(settings.drop_last(), key);
    }
}

pub open spec fn has_key(settings: Seq<Setting>, key: Seq<char>) -> bool {
    exists|j: int| 0 <= j < settings.len() && settings[j].0 == key
}

/// The last setting with a key comes from the later part when the key is
/// there, and from the earlier part otherwise.
pub proof fn lemma_last_setting_split(a: Seq<Setting>, b: Seq<Setting>, key: Seq<char>)
    ensures
        last_setting(a + b, key) == (if has_key(b, key) {
            last_setting(b, key)
        } else {
            last_setting(a, key)
        }),
    decreases b.len(),
{
    if b.len() == 0 {
        assert(a + b == a);
    } else {
        assert((a + b).drop_last() == a + b.drop_last());
        assert((a + b).last() == b.last());
        lemma_last_setting_split(a, b.drop_last(), key);
        if b.last().0 != key {
            if has_key(b, key) {
                let j = choose|j: int| 0 <= j < b.len() && b[j].0 == key;
                assert(b.drop_last()[j].0 == key);
            }
            if has_key(b.drop_last(), key) {
                let j = choose|j: int| 0 <= j < b.drop_last().len() && b.drop_last()[j].0 == key;
                assert(b[j].0 == key);
            }
        } else {
            assert(b[b.len() - 1].0 == key);
        }
    }
}

/// A key that no later setting repeats is read with its own value.
pub proof fn lemma_last_setting_at(settings: Seq<Setting>, p: int)
    requires
        0 <= p < settings.len(),
        forall|j: int| p < j < settings.len() ==> #[trigger] settings[j].0 != settings[p].0,
    ensures
        last_setting(settings, settings[p].0) == Some(read_value(settings[p].1)),
        has_key(settings, settings[p].0),
    decreases settings.len(),
{
    if p < settings.len() - 1 {
        assert(settings[settings.len() - 1].0 != settings[p].0);
        let init = settings.drop_last();
        assert forall|j: int| p < j < init.len() implies #[trigger] init[j].0 != init[p].0 by {
            assert(init[j] == settings[j]);
        }
        lemma_last_setting_at(init, p);
    }
}

/// A key that no setting has is not read at all.
pub proof fn lemma_last_setting_absent(settings: Seq<Setting>, key: Seq<char>)
    requires
        !has_key(settings, key),
    ensures
        last_setting(settings, key) is None,
    decreases settings.len(),
{
    if settings.len() > 0 {
        assert(settings[settings.len() - 1].0 != key);
        if has_key(settings.drop_last(), key) {
            let j = choose|j: int| 0 <= j < settings.drop_last().len() && settings.drop_last()[j].0 == key;
            assert(settings[j].0 == key);
        }
        lemma_last_setting_absent(settings.drop_last(), key);
    }
}

// ---------------------------------------------------------------------------
// Numbers
// ---------------------------------------------------------------------------
pub open spec fn pow10(n: nat) -> nat
    decreases n,
{
    if n == 0 {
        1
    } else {
        10 * pow10((n - 1) as nat)
    }
}

/// The number that decimal digits stand for, read from the front.
pub open spec fn digits_value(s: Seq<char>) -> int
    decreases s.len(),
{
    if s.len() == 0 {
        0
    } else {
        digit_value(s[0]) * pow10((s.len() - 1) as nat) + digits_value(s.drop_first())
    }
}

pub open spec fn all_digits(s: Seq<char>) -> bool {
    forall|i: int| 0 <= i < s.len() ==> is_decimal_digit(#[trigger] s[i])
}

proof fn lemma_pow10_positive(n: nat)
    ensures
        pow10(n) >= 1,
    decreases n,
{
    if n > 0 {
        lemma_pow10_positive((n - 1) as nat);
    }
}

proof fn lemma_digits_value_nonnegative(s: Seq<char>)
    requires
        all_digits(s),
    ensures
        digits_value(s) >= 0,
    decreases s.len(),
{
    if s.len() > 0 {
        assert(is_decimal_digit(s[0]));
        lemma_pow10_positive((s.len() - 1) as nat);
        assert(all_digits(s.drop_first())) by {
            assert forall|i: int| 0 <= i < s.drop_first().len() implies is_decimal_digit(#[trigger] s.drop_first()[i]) by {
                assert(s.drop_first()[i] == s[i + 1]);
            }
        }
        lemma_digits_value_nonnegative(s.drop_first());
        assert(digit_value(s[0]) * pow10((s.len() - 1) as nat) >= 0) by (nonlinear_arith)
            requires
                digit_value(s[0]) >= 0,
                pow10((s.len() - 1) as nat) >= 1,
        ;
    }
}

proof fn lemma_digits_value_push(s: Seq<char>, c: char)
    ensures
        digits_value(s.push(c)) == digits_value(s) * 10 + digit_value(c),
    decreases s.len(),
{
    if s.len() == 0 {
        assert(s.push(c).drop_first() =~= Seq::<char>::empty());
        assert(pow10(0) == 1);
        assert(digits_value(Seq::<char>::empty()) == 0);
        assert(digits_value(s) == 0);
        assert(s.push(c)[0] == c);
        assert(digits_value(s.push(c)) == digit_value(c) * pow10(0) + digits_value(Seq::<char>::empty()));
    } else {
        assert(s.push(c).drop_first() =~= s.drop_first().push(c));
        lemma_digits_value_push(s.drop_first(), c);
        let p = pow10((s.len() - 1) as nat);
        assert(pow10(s.len() as nat) == 10 * p);
        let d = digit_value(s[0]);
        let r = digits_value(s.drop_first());
        let dc = digit_value(c);
        assert(s.push(c)[0] == s[0]);
        assert(s.push(c).len() - 1 == s.len());
        assert(digits_value(s.push(c)) == d * pow10(s.len() as nat) + digits_value(s.drop_first().push(c)));
        assert(digits_value(s) == d * p + r);
        assert(d * (10 * p) + (r * 10 + dc) == (d * p + r) * 10 + dc) by (nonlinear_arith);
    }
}

proof fn lemma_digit_char_value(d: int)
    requires
        0 <= d <= 9,
    ensures
        is_decimal_digit(digit_char(d)),
        digit_value(digit_char(d)) == d,
{
}

/// Decimal digits are digits, at least one, standing for the number.
pub proof fn lemma_decimal_digits(n: nat)
    ensures
        decimal(n).len() >= 1,
        all_digits(decimal(n)),
        digits_value(decimal(n)) == n,
    decreases n,
{
    if n < 10 {
        lemma_digit_char_value(n as int);
        assert(decimal(n).drop_first() =~= Seq::<char>::empty());
        assert(pow10(0) == 1);
        assert(digits_value(Seq::<char>::empty()) == 0);
        assert(decimal(n)[0] == digit_char(n as int));
        assert(digits_value(decimal(n)) == digit_value(decimal(n)[0]) * pow10(0) + digits_value(Seq::<char>::empty()));
    } else {
        lemma_decimal_digits(n / 10);
        lemma_digit_char_value(n as int % 10);
        lemma_digits_value_push(decimal(n / 10), digit_char(n as int % 10));
        let d = decimal(n);
        assert forall|i: int| 0 <= i < d.len() implies is_decimal_digit(#[trigger] d[i]) by {
            if i < d.len() - 1 {
                assert(d[i] == decimal(n / 10)[i]);
            }
        }
    }
}

proof fn lemma_scan_digits(s: Seq<char>, acc: int, negative: bool)
    requires
        all_digits(s),
        negative ==> acc <= 0 && acc * pow10(s.len()) - digits_value(s) >= i128::MIN,
        !negative ==> acc >= 0 && acc * pow10(s.len()) + digits_value(s) <= i128::MAX,
    ensures
        scan_i128(s, acc, negative) == Some(
            if negative {
                acc * pow10(s.len()) - digits_value(s)
            } else {
                acc * pow10(s.len()) + digits_value(s)
            },
        ),
    decreases s.len(),
{
    if s.len() == 0 {
        assert(pow10(0) == 1);
        assert(digits_value(s) == 0);
        assert(acc * 1 == acc);
    } else {
        let rest = s.drop_first();
        assert(is_decimal_digit(s[0]));
        let d = digit_value(s[0]);
        assert(0 <= d <= 9);
        let p = pow10(rest.len());
        assert(pow10(s.len()) == 10 * p);
        lemma_pow10_positive(rest.len());
        assert(all_digits(rest)) by {
            assert forall|i: int| 0 <= i < rest.len() implies is_decimal_digit(#[trigger] rest[i]) by {
                assert(rest[i] == s[i + 1]);
            }
        }
        lemma_digits_value_nonnegative(rest);
        let r = digits_value(rest);
        assert(digits_value(s) == d * p + r);
        if negative {
            let next = acc * 10 - d;
            assert(next * p - r == acc * (10 * p) - (d * p + r)) by (nonlinear_arith)
                requires
                    next == acc * 10 - d,
            ;
            assert(next <= 0);
            assert(next >= next * p) by (nonlinear_arith)
                requires
                    next <= 0,
                    p >= 1,
            ;
            assert(next >= i128::MIN);
            lemma_scan_digits(rest, next, true);
        } else {
            let next = acc * 10 + d;
            assert(next * p + r == acc * (10 * p) + (d * p + r)) by (nonlinear_arith)
                requires
                    next == acc * 10 + d,
            ;
            assert(next >= 0);
            assert(next <= next * p) by (nonlinear_arith)
                requires
                    next >= 0,
                    p >= 1,
            ;
            assert(next <= i128::MAX);
            lemma_scan_digits(rest, next, false);
        }
    }
}

/// A number written in decimal reads back as itself.
pub proof fn lemma_decimal_reads_back(n: nat)
    requires
        n <= i128::MAX,
    ensures
        config_integer(decimal(n)) == Some(n as int),
        config_integer(signed_decimal(n as int)) == Some(n as int),
        config_integer(signed_decimal(-(n as int))) == Some(-(n as int)),
{
    lemma_decimal_digits(n);
    let d = decimal(n);
    assert(is_decimal_digit(d[0]));
    assert(d[0] != '+' && d[0] != '-');
    assert(0 * pow10(d.len()) == 0);
    lemma_scan_digits(d, 0, false);
    lemma_scan_digits(d, 0, true);
    if n > 0 {
        let neg = seq!['-'] + d;
        assert(neg.drop_first() == d);
        assert(neg[0] == '-');
        assert(signed_decimal(-(n as int)) == neg);
    } else {
        assert(signed_decimal(-(n as int)) == d);
    }
}

// ---------------------------------------------------------------------------
// Quoted text
// ---------------------------------------------------------------------------
proof fn lemma_hex_text_no_newline(value: nat, width: nat)
    ensures
        forall|i: int| 0 <= i < hex_text(value, width).len() ==> #[trigger] hex_text(value, width)[i] != '\n',
        hex_text(value, width).len() == width,
    decreases width,
{
    if width > 0 {
        lemma_hex_text_no_newline(value / 16, (width - 1) as nat);
        let d = (value % 16) as int;
        assert(hex_digit_char(d) != '\n');
    }
}

proof fn lemma_escape_char_no_newline(c: char)
    ensures
        forall|i: int| 0 <= i < escape_char(c).len() ==> #[trigger] escape_char(c)[i] != '\n',
{
    lemma_hex_text_no_newline(c as u32 as nat, 4);
    lemma_hex_text_no_newline(c as u32 as nat, 8);
    let e = escape_char(c);
    if c != '\\' && c != '"' && c != '\n' && c != '\r' && c != '\t' && crate::text::is_control_char(c) {
        if (c as u32) <= 0xffff {
            assert forall|i: int| 0 <= i < e.len() implies #[trigger] e[i] != '\n' by {
                if i >= 2 {
                    assert(e[i] == hex_text(c as u32 as nat, 4)[i - 2]);
                }
            }
        } else {
            assert forall|i: int| 0 <= i < e.len() implies #[trigger] e[i] != '\n' by {
                if i >= 2 {
                    assert(e[i] == hex_text(c as u32 as nat, 8)[i - 2]);
                }
            }
        }
    }
}

/// Escaped text holds no line break.
pub proof fn lemma_escaped_no_newline(s: Seq<char>)
    ensures
        forall|i: int| 0 <= i < escaped(s).len() ==> #[trigger] escaped(s)[i] != '\n',
    decreases s.len(),
{
    if s.len() > 0 {
        lemma_escaped_no_newline(s.drop_first());
        lemma_escape_char_no_newline(s[0]);
        let head = escape_char(s[0]);
        let tail = escaped(s.drop_first());
        assert forall|i: int| 0 <= i < escaped(s).len() implies #[trigger] escaped(s)[i] != '\n' by {
            if i < head.len() {
                assert(escaped(s)[i] == head[i]);
            } else {
                assert(escaped(s)[i] == tail[i - head.len()]);
            }
        }
    }
}

// ---------------------------------------------------------------------------
// Reading values
// ---------------------------------------------------------------------------
/// A true or false value reads back as written.
pub proof fn lemma_bool_reads_back(b: bool)
    ensures
        read_value(bool_text(b)) == bool_text(b),
        config_bool(bool_text(b)) == Some(b),
        forall|i: int| 0 <= i < bool_text(b).len() ==> #[trigger] bool_text(b)[i] != '\n' && bool_text(b)[i] != '\\',
        bool_text(b).len() > 0 && bool_text(b)[0] != '"',
{
    reveal_strlit("true");
    reveal_strlit("false");
    reveal_strlit("yes");
    reveal_strlit("no");
    let t = bool_text(b);
    lemma_read_value_exact(t);
    assert(crate::text::equal_ignoring_ascii_case(t, t));
    if !b {
        assert(!crate::text::equal_ignoring_ascii_case(t, "true"@));
        assert(t != seq!['1']);
        assert(!crate::text::equal_ignoring_ascii_case(t, "yes"@));
    }
}

/// A number written in decimal (with its sign) reads as itself, with no
/// line break, backslash or quote in it.
pub proof fn lemma_number_text(n: int)
    requires
        i128::MIN < n <= i128::MAX,
    ensures
        read_value(signed_decimal(n)) == signed_decimal(n),
        config_integer(signed_decimal(n)) == Some(n),
        n >= 0 ==> signed_decimal(n) == decimal(n as nat),
        forall|i: int| 0 <= i < signed_decimal(n).len() ==> #[trigger] signed_decimal(n)[i] != '\n'
            && signed_decimal(n)[i] != '\\' && signed_decimal(n)[i] != ',',
        signed_decimal(n).len() > 0 && signed_decimal(n)[0] != '"',
{
    let m: nat = if n < 0 {
        (-n) as nat
    } else {
        n as nat
    };
    lemma_decimal_reads_back(m);
    lemma_decimal_digits(m);
    let d = decimal(m);
    let t = signed_decimal(n);
    assert(is_decimal_digit(d[0]));
    assert(is_decimal_digit(d[d.len() - 1]));
    if n < 0 {
        assert(t == seq!['-'] + d);
        assert(t[0] == '-');
        assert(t.last() == d.last());
        assert forall|i: int| 0 <= i < t.len() implies #[trigger] t[i] != '\n' && t[i] != '\\' && t[i] != ',' by {
            if i > 0 {
                assert(t[i] == d[i - 1]);
                assert(is_decimal_digit(d[i - 1]));
            }
        }
    } else {
        assert forall|i: int| 0 <= i < t.len() implies #[trigger] t[i] != '\n' && t[i] != '\\' && t[i] != ',' by {
            assert(is_decimal_digit(d[i]));
        }
    }
    lemma_read_value_exact(t);
}

/// Quoted text reads back as the text, with no line break in it.
pub proof fn lemma_quoted_reads_back(s: Seq<char>)
    ensures
        read_value(quoted(s)) == quoted(s),
        string_value(quoted(s)) == Some(s),
        forall|i: int| 0 <= i < quoted(s).len() ==> #[trigger] quoted(s)[i] != '\n',
{
    law_unescape_undoes_escape(s);
    lemma_escaped_no_newline(s);
    let q = quoted(s);
    assert(q[0] == '"');
    assert(q.last() == '"');
    lemma_read_value_exact(q);
    assert forall|i: int| 0 <= i < q.len() implies #[trigger] q[i] != '\n' by {
        if 0 < i < q.len() - 1 {
            assert(q[i] == escaped(s)[i - 1]);
        }
    }
}

proof fn lemma_comma_pieces(a: Seq<char>, b: Seq<char>, c: Seq<char>)
    requires
        forall|i: int| 0 <= i < a.len() ==> a[i] != ',',
        forall|i: int| 0 <= i < b.len() ==> b[i] != ',',
        forall|i: int| 0 <= i < c.len() ==> c[i] != ',',
    ensures
        pieces(a + seq![','] + b + seq![','] + c, ',') == seq![a, b, c],
{
    let e = Seq::<char>::empty();
    lemma_pieces_append(e, a, ',');
    assert(e + a == a);
    assert(pieces(e, ',') == seq![e]);
    assert(pieces(a, ',') == seq![a]);
    let x = a + seq![','];
    assert(x.drop_last() == a);
    assert(pieces(x, ',') == seq![a, e]);
    lemma_pieces_append(x, b, ',');
    assert(pieces(x + b, ',') == seq![a, b]);
    let y = x + b + seq![','];
    assert(y.drop_last() == x + b);
    assert(pieces(y, ',') == seq![a, b, e]);
    lemma_pieces_append(y, c, ',');
    assert(pieces(y + c, ',') == seq![a, b, c]);
}

/// A colour written as three numbers reads back as that colour.
pub proof fn lemma_rgb_reads_back(red: u8, green: u8, blue: u8)
    ensures
        config_rgb(rgb_text(red, green, blue)) == Some((red, green, blue)),
{
    lemma_number_text(red as int);
    lemma_number_text(green as int);
    lemma_number_text(blue as int);
    let r = decimal(red as nat);
    let g = decimal(green as nat);
    let b = decimal(blue as nat);
    lemma_comma_pieces(r, g, b);
    assert(trimmed(r) == r) by {
        lemma_read_value_exact(r);
    }
    assert(trimmed(g) == g) by {
        lemma_read_value_exact(g);
    }
    assert(trimmed(b) == b) by {
        lemma_read_value_exact(b);
    }
    assert(rgb_component(r) == Some(red));
    assert(rgb_component(g) == Some(green));
    assert(rgb_component(b) == Some(blue));
}

// ---------------------------------------------------------------------------
// The keys
// ---------------------------------------------------------------------------
/// The keys of the settings after the recent folder, in order.
pub open spec fn remaining_keys() -> Seq<Seq<char>> {
    seq![
        "export_default_quality"@,
        "animation_autoplay"@,
        "min_zoom_scale"@,
        "max_zoom_scale"@,
        "zoom_step_factor"@,
        "large_image_pixel_threshold"@,
        "max_image_pixels"@,
        "preview_max_pixels"@,
        "preview_oversample"@,
        "fallback_viewport_width"@,
        "fallback_viewport_height"@,
        "max_transient_decode_mib"@,
        "max_full_resolution_mib"@,
        "max_resident_mib"@,
        "max_cache_entry_mib"@,
        "max_cache_entries"@,
        "max_animation_metadata_frames"@,
        "full_resolution_request_scale"@,
        "default_frame_delay_ms"@,
        "min_frame_delay_ms"@,
        "max_frame_delay_ms"@,
        "wrap_navigation"@,
        "auto_skip_failed_navigation"@,
        "max_navigation_attempts_per_command"@,
        "default_export_format_policy"@,
        "export_filename_suffix"@,
        "jpeg_alpha_background_rgb"@,
        "show_status_bar"@,
        "detailed_status_text"@,
        "zoom_shortcut"@,
        "image_navigation_shortcut"@,
        "image_pan_shortcut"@,
        "window_move_shortcut"@,
    ]
}

/// The keys of the window placement settings, in order.
pub open spec fn window_keys() -> Seq<Seq<char>> {
    seq![
        "window.x"@,
        "window.y"@,
        "window.width"@,
        "window.height"@,
    ]
}

/// The keys of the language, view mode and scaling settings, in order.
pub open spec fn display_keys() -> Seq<Seq<char>> {
    seq![
        "ui_language"@,
        "default_view_mode"@,
        "scaling_quality"@,
    ]
}

/// Every key is plain, and no key is written twice.
pub proof fn lemma_keys_distinct()
    ensures
        forall|i: int| 0 <= i < 33 ==> plain_key(#[trigger] remaining_keys()[i]),
        forall|i: int| 0 <= i < 4 ==> plain_key(#[trigger] window_keys()[i]),
        forall|i: int| 0 <= i < 3 ==> plain_key(#[trigger] display_keys()[i]),
        plain_key("recent_folder"@),
        plain_key("version"@),
        forall|i: int, j: int| 0 <= i < j < 33 ==> remaining_keys()[i] != remaining_keys()[j],
        forall|i: int, j: int| 0 <= i < j < 4 ==> window_keys()[i] != window_keys()[j],
        forall|i: int, j: int| 0 <= i < j < 3 ==> display_keys()[i] != display_keys()[j],
        forall|i: int| 0 <= i < 33 ==> remaining_keys()[i] != "recent_folder"@ && remaining_keys()[i] != "version"@,
        forall|i: int, j: int| 0 <= i < 33 && 0 <= j < 4 ==> remaining_keys()[i] != window_keys()[j],
        forall|i: int, j: int| 0 <= i < 33 && 0 <= j < 3 ==> remaining_keys()[i] != display_keys()[j],
        forall|j: int| 0 <= j < 4 ==> window_keys()[j] != "recent_folder"@ && window_keys()[j] != "version"@,
        forall|j: int| 0 <= j < 3 ==> display_keys()[j] != "recent_folder"@ && display_keys()[j] != "version"@,
        forall|i: int, j: int| 0 <= i < 3 && 0 <= j < 4 ==> display_keys()[i] != window_keys()[j],
        "recent_folder"@ != "version"@,
{
    reveal_strlit("version");
    reveal_strlit("window.x");
    reveal_strlit("window.y");
    reveal_strlit("window.width");
    reveal_strlit("window.height");
    reveal_strlit("ui_language");
    reveal_strlit("default_view_mode");
    reveal_strlit("scaling_quality");
    reveal_strlit("recent_folder");
    reveal_strlit("export_default_quality");
    reveal_strlit("animation_autoplay");
    reveal_strlit("min_zoom_scale");
    reveal_strlit("max_zoom_scale");
    reveal_strlit("zoom_step_factor");
    reveal_strlit("large_image_pixel_threshold");
    reveal_strlit("max_image_pixels");
    reveal_strlit("preview_max_pixels");
    reveal_strlit("preview_oversample");
    reveal_strlit("fallback_viewport_width");
    reveal_strlit("fallback_viewport_height");
    reveal_strlit("max_transient_decode_mib");
    reveal_strlit("max_full_resolution_mib");
    reveal_strlit("max_resident_mib");
    reveal_strlit("max_cache_entry_mib");
    reveal_strlit("max_cache_entries");
    reveal_strlit("max_animation_metadata_frames");
    reveal_strlit("full_resolution_request_scale");
    reveal_strlit("default_frame_delay_ms");
    reveal_strlit("min_frame_delay_ms");
    reveal_strlit("max_frame_delay_ms");
    reveal_strlit("wrap_navigation");
    reveal_strlit("auto_skip_failed_navigation");
    reveal_strlit("max_navigation_attempts_per_command");
    reveal_strlit("default_export_format_policy");
    reveal_strlit("export_filename_suffix");
    reveal_strlit("jpeg_alpha_background_rgb");
    reveal_strlit("show_status_bar");
    reveal_strlit("detailed_status_text");
    reveal_strlit("zoom_shortcut");
    reveal_strlit("image_navigation_shortcut");
    reveal_strlit("image_pan_shortcut");
    reveal_strlit("window_move_shortcut");
    let r = remaining_keys();
    let w = window_keys();
    let d = display_keys();
    assert forall|i: int| 0 <= i < 33 implies plain_key(#[trigger] remaining_keys()[i]) by {
        assert(r[i].len() > 0);
    }
    assert forall|i: int, j: int| 0 <= i < j < 33 implies r[i] != r[j] by {
        if r[i].len() == r[j].len() {
            assert(r[i][0] != r[j][0] || r[i][1] != r[j][1] || r[i][r[i].len() - 1] != r[j][r[j].len() - 1]);
        }
    }
    assert forall|i: int, j: int| 0 <= i < j < 3 implies d[i] != d[j] by {
        assert(d[i].len() != d[j].len());
    }
    assert forall|i: int, j: int| 0 <= i < j < 4 implies w[i] != w[j] by {
        if w[i].len() == w[j].len() {
            assert(w[i][w[i].len() - 1] != w[j][w[j].len() - 1]);
        }
    }
    assert forall|i: int, j: int| 0 <= i < 33 && 0 <= j < 4 implies r[i] != w[j] by {
        if r[i].len() == w[j].len() {
            assert(r[i][0] != w[j][0] || r[i][1] != w[j][1] || r[i][r[i].len() - 1] != w[j][w[j].len() - 1]);
        }
    }
    assert forall|i: int, j: int| 0 <= i < 33 && 0 <= j < 3 implies r[i] != d[j] by {
        if r[i].len() == d[j].len() {
            assert(r[i][0] != d[j][0] || r[i][1] != d[j][1] || r[i][r[i].len() - 1] != d[j][d[j].len() - 1]);
        }
    }
    assert forall|i: int| 0 <= i < 33 implies r[i] != "recent_folder"@ && r[i] != "version"@ by {
        if r[i].len() == 13 {
            assert(r[i][0] != "recent_folder"@[0]);
        }
    }
    assert forall|i: int, j: int| 0 <= i < 3 && 0 <= j < 4 implies d[i] != w[j] by {
        if d[i].len() == w[j].len() {
            assert(d[i][0] != w[j][0]);
        }
    }
    assert("recent_folder"@.len() == 13);
    assert("version"@.len() == 7);
    assert forall|j: int| 0 <= j < 4 implies w[j] != "recent_folder"@ && w[j] != "version"@ by {
        if w[j].len() == 13 {
            assert(w[j][0] != "recent_folder"@[0]);
        }
    }
}

// ---------------------------------------------------------------------------
// Finding each setting again
// ---------------------------------------------------------------------------
proof fn lemma_segment_keys(
    c: ViewerConfigView,
    min_zoom_scale: Seq<char>,
    max_zoom_scale: Seq<char>,
    zoom_step_factor: Seq<char>,
    full_resolution_request_scale: Seq<char>,
)
    ensures
        remaining_settings(c, min_zoom_scale, max_zoom_scale, zoom_step_factor, full_resolution_request_scale).len() == 33,
        forall|i: int| 0 <= i < 33 ==> #[trigger] remaining_settings(
            c,
            min_zoom_scale,
            max_zoom_scale,
            zoom_step_factor,
            full_resolution_request_scale,
        )[i].0 == remaining_keys()[i],
        display_settings(c).len() == 3,
        forall|i: int| 0 <= i < 3 ==> #[trigger] display_settings(c)[i].0 == display_keys()[i],
        c.window_bounds is Some ==> window_settings(c.window_bounds).len() == 4,
        c.window_bounds is None ==> window_settings(c.window_bounds).len() == 0,
        forall|i: int| 0 <= i < window_settings(c.window_bounds).len() ==> #[trigger] window_settings(
            c.window_bounds,
        )[i].0 == window_keys()[i],
        c.recent_folder is Some ==> folder_settings(c.recent_folder).len() == 1 && folder_settings(
            c.recent_folder,
        )[0].0 == "recent_folder"@,
        c.recent_folder is None ==> folder_settings(c.recent_folder).len() == 0,
{
}

proof fn lemma_no_key_in_remaining(
    c: ViewerConfigView,
    min_zoom_scale: Seq<char>,
    max_zoom_scale: Seq<char>,
    zoom_step_factor: Seq<char>,
    full_resolution_request_scale: Seq<char>,
    key: Seq<char>,
)
    requires
        forall|i: int| 0 <= i < 33 ==> remaining_keys()[i] != key,
    ensures
        !has_key(remaining_settings(c, min_zoom_scale, max_zoom_scale, zoom_step_factor, full_resolution_request_scale), key),
{
    lemma_segment_keys(c, min_zoom_scale, max_zoom_scale, zoom_step_factor, full_resolution_request_scale);
}

/// Each of the settings after the recent folder is read with the value
/// written for it.
pub proof fn lemma_lookup_remaining(
    c: ViewerConfigView,
    min_zoom_scale: Seq<char>,
    max_zoom_scale: Seq<char>,
    zoom_step_factor: Seq<char>,
    full_resolution_request_scale: Seq<char>,
    p: int,
)
    requires
        0 <= p < 33,
    ensures
        last_setting(
            config_settings(c, min_zoom_scale, max_zoom_scale, zoom_step_factor, full_resolution_request_scale),
            remaining_keys()[p],
        ) == Some(
            read_value(
                remaining_settings(c, min_zoom_scale, max_zoom_scale, zoom_step_factor, full_resolution_request_scale)[p].1,
            ),
        ),
{
    let r = remaining_settings(c, min_zoom_scale, max_zoom_scale, zoom_step_factor, full_resolution_request_scale);
    let prefix = seq![("version"@, "1"@)] + window_settings(c.window_bounds) + display_settings(c) + folder_settings(
        c.recent_folder,
    );
    lemma_segment_keys(c, min_zoom_scale, max_zoom_scale, zoom_step_factor, full_resolution_request_scale);
    lemma_keys_distinct();
    assert forall|j: int| p < j < r.len() implies #[trigger] r[j].0 != r[p].0 by {
        assert(remaining_keys()[p] != remaining_keys()[j]);
    }
    lemma_last_setting_at(r, p);
    lemma_last_setting_split(prefix, r, remaining_keys()[p]);
}

/// Each of the language, view mode and scaling settings is read with the
/// value written for it.
pub proof fn lemma_lookup_display(
    c: ViewerConfigView,
    min_zoom_scale: Seq<char>,
    max_zoom_scale: Seq<char>,
    zoom_step_factor: Seq<char>,
    full_resolution_request_scale: Seq<char>,
    p: int,
)
    requires
        0 <= p < 3,
    ensures
        last_setting(
            config_settings(c, min_zoom_scale, max_zoom_scale, zoom_step_factor, full_resolution_request_scale),
            display_keys()[p],
        ) == Some(read_value(display_settings(c)[p].1)),
{
    let key = display_keys()[p];
    let r = remaining_settings(c, min_zoom_scale, max_zoom_scale, zoom_step_factor, full_resolution_request_scale);
    let v = seq![("version"@, "1"@)];
    let w = window_settings(c.window_bounds);
    let d = display_settings(c);
    let f = folder_settings(c.recent_folder);
    lemma_segment_keys(c, min_zoom_scale, max_zoom_scale, zoom_step_factor, full_resolution_request_scale);
    lemma_keys_distinct();
    lemma_no_key_in_remaining(c, min_zoom_scale, max_zoom_scale, zoom_step_factor, full_resolution_request_scale, key);
    lemma_last_setting_split(v + w + d + f, r, key);
    assert(!has_key(f, key));
    lemma_last_setting_split(v + w + d, f, key);
    assert forall|j: int| p < j < d.len() implies #[trigger] d[j].0 != d[p].0 by {
        assert(display_keys()[p] != display_keys()[j]);
    }
    lemma_last_setting_at(d, p);
    lemma_last_setting_split(v + w, d, key);
}

/// The recent folder is read when one was written, and not otherwise.
pub proof fn lemma_lookup_folder(
    c: ViewerConfigView,
    min_zoom_scale: Seq<char>,
    max_zoom_scale: Seq<char>,
    zoom_step_factor: Seq<char>,
    full_resolution_request_scale: Seq<char>,
)
    ensures
        last_setting(
            config_settings(c, min_zoom_scale, max_zoom_scale, zoom_step_factor, full_resolution_request_scale),
            "recent_folder"@,
        ) == (match c.recent_folder {
            Some(folder) => Some(read_value(quoted(folder))),
            None => None,
        }),
{
    let key = "recent_folder"@;
    let r = remaining_settings(c, min_zoom_scale, max_zoom_scale, zoom_step_factor, full_resolution_request_scale);
    let v = seq![("version"@, "1"@)];
    let w = window_settings(c.window_bounds);
    let d = display_settings(c);
    let f = folder_settings(c.recent_folder);
    lemma_segment_keys(c, min_zoom_scale, max_zoom_scale, zoom_step_factor, full_resolution_request_scale);
    lemma_keys_distinct();
    lemma_no_key_in_remaining(c, min_zoom_scale, max_zoom_scale, zoom_step_factor, full_resolution_request_scale, key);
    lemma_last_setting_split(v + w + d + f, r, key);
    lemma_last_setting_split(v + w + d, f, key);
    if c.recent_folder is Some {
        lemma_last_setting_at(f, 0);
    } else {
        assert(!has_key(f, key));
        assert(!has_key(d, key));
        assert(!has_key(w, key));
        assert(!has_key(v, key));
        lemma_last_setting_split(v + w, d, key);
        lemma_last_setting_split(v, w, key);
        lemma_last_setting_absent(v, key);
    }
}

/// Each window setting is read with the value written for it when a
/// placement was written, and not at all otherwise.
pub proof fn lemma_lookup_window(
    c: ViewerConfigView,
    min_zoom_scale: Seq<char>,
    max_zoom_scale: Seq<char>,
    zoom_step_factor: Seq<char>,
    full_resolution_request_scale: Seq<char>,
    p: int,
)
    requires
        0 <= p < 4,
    ensures
        last_setting(
            config_settings(c, min_zoom_scale, max_zoom_scale, zoom_step_factor, full_resolution_request_scale),
            window_keys()[p],
        ) == (if c.window_bounds is Some {
            Some(read_value(window_settings(c.window_bounds)[p].1))
        } else {
            None
        }),
{
    let key = window_keys()[p];
    let r = remaining_settings(c, min_zoom_scale, max_zoom_scale, zoom_step_factor, full_resolution_request_scale);
    let v = seq![("version"@, "1"@)];
    let w = window_settings(c.window_bounds);
    let d = display_settings(c);
    let f = folder_settings(c.recent_folder);
    lemma_segment_keys(c, min_zoom_scale, max_zoom_scale, zoom_step_factor, full_resolution_request_scale);
    lemma_keys_distinct();
    assert forall|i: int| 0 <= i < 33 implies remaining_keys()[i] != key by {
        assert(remaining_keys()[i] != window_keys()[p]);
    }
    lemma_no_key_in_remaining(c, min_zoom_scale, max_zoom_scale, zoom_step_factor, full_resolution_request_scale, key);
    lemma_last_setting_split(v + w + d + f, r, key);
    assert(!has_key(f, key));
    lemma_last_setting_split(v + w + d, f, key);
    assert(!has_key(d, key)) by {
        assert forall|j: int| 0 <= j < 3 implies d[j].0 != key by {
            assert(display_keys()[j] != window_keys()[p]);
        }
    }
    lemma_last_setting_split(v + w, d, key);
    lemma_last_setting_split(v, w, key);
    if c.window_bounds is Some {
        assert forall|j: int| p < j < w.len() implies #[trigger] w[j].0 != w[p].0 by {
            assert(window_keys()[p] != window_keys()[j]);
        }
        lemma_last_setting_at(w, p);
    } else {
        assert(!has_key(w, key));
        assert(!has_key(v, key));
        lemma_last_setting_absent(v, key);
    }
}

// ---------------------------------------------------------------------------
// Every line reads
// ---------------------------------------------------------------------------
/// A text with no line break in it.
pub open spec fn single_line(text: Seq<char>) -> bool {
    forall|i: int| 0 <= i < text.len() ==> #[trigger] text[i] != '\n'
}

/// A setting whose line reads without error and holds no line break.
pub open spec fn writable(setting: Setting) -> bool {
    readable(setting) && single_line(setting_line(setting.0, setting.1))
}

pub open spec fn all_writable(settings: Seq<Setting>) -> bool {
    forall|i: int| 0 <= i < settings.len() ==> writable(#[trigger] settings[i])
}

proof fn lemma_all_writable_append(a: Seq<Setting>, b: Seq<Setting>)
    requires
        all_writable(a),
        all_writable(b),
    ensures
        all_writable(a + b),
{
    assert forall|i: int| 0 <= i < (a + b).len() implies writable(#[trigger] (a + b)[i]) by {
        if i < a.len() {
            assert((a + b)[i] == a[i]);
        } else {
            assert((a + b)[i] == b[i - a.len()]);
        }
    }
}

/// Text with no backslash that does not start with a quote reads as itself.
proof fn lemma_plain_text_value(value: Seq<char>)
    requires
        forall|i: int| 0 <= i < value.len() ==> #[trigger] value[i] != '\\',
    ensures
        unescaped(value) == Some(value),
    decreases value.len(),
{
    if value.len() > 0 {
        assert forall|i: int| 0 <= i < value.drop_first().len() implies #[trigger] value.drop_first()[i] != '\\' by {
            assert(value.drop_first()[i] == value[i + 1]);
        }
        lemma_plain_text_value(value.drop_first());
        assert(value[0] != '\\');
        assert(seq![value[0]] + value.drop_first() == value);
    }
}

proof fn lemma_writable(key: Seq<char>, value: Seq<char>)
    requires
        plain_key(key),
        single_line(value),
        key == "version"@ ==> read_value(value) == seq!['1'],
        is_strict_text_key(key) ==> string_value(read_value(value)) is Some,
    ensures
        writable((key, value)),
{
    let line = setting_line(key, value);
    assert forall|i: int| 0 <= i < line.len() implies #[trigger] line[i] != '\n' by {
        if i < key.len() {
            assert(line[i] == key[i]);
            assert(!is_whitespace_char(key[i]));
        } else if i > key.len() {
            assert(line[i] == value[i - key.len() - 1]);
        }
    }
}

/// A number written for a setting that takes one.
proof fn lemma_number_writable(key: Seq<char>, n: int)
    requires
        plain_key(key),
        key != "version"@,
        0 <= n <= i128::MAX,
    ensures
        writable((key, decimal(n as nat))),
{
    lemma_number_text(n);
    let t = signed_decimal(n);
    assert forall|i: int| 0 <= i < t.len() implies #[trigger] t[i] != '\\' by {
    }
    lemma_plain_text_value(t);
    assert(string_value(t) == unescaped(t));
    lemma_writable(key, t);
}

proof fn lemma_bool_writable(key: Seq<char>, b: bool)
    requires
        plain_key(key),
        key != "version"@,
    ensures
        writable((key, bool_text(b))),
{
    lemma_bool_reads_back(b);
    lemma_plain_text_value(bool_text(b));
    lemma_writable(key, bool_text(b));
}

proof fn lemma_quoted_writable(key: Seq<char>, text: Seq<char>)
    requires
        plain_key(key),
        key != "version"@,
    ensures
        writable((key, quoted(text))),
{
    lemma_quoted_reads_back(text);
    lemma_writable(key, quoted(text));
}

proof fn lemma_strict_keys() 
    ensures
        !is_strict_text_key("min_zoom_scale"@),
        !is_strict_text_key("max_zoom_scale"@),
        !is_strict_text_key("zoom_step_factor"@),
        !is_strict_text_key("full_resolution_request_scale"@),
{
    reveal_strlit("min_zoom_scale");
    reveal_strlit("max_zoom_scale");
    reveal_strlit("zoom_step_factor");
    reveal_strlit("full_resolution_request_scale");
    reveal_strlit("ui_language");
    reveal_strlit("default_view_mode");
    reveal_strlit("scaling_quality");
    reveal_strlit("recent_folder");
    reveal_strlit("default_export_format_policy");
    reveal_strlit("zoom_shortcut");
    reveal_strlit("image_navigation_shortcut");
    reveal_strlit("image_pan_shortcut");
    reveal_strlit("window_move_shortcut");
    assert("ui_language"@.len() == 11);
    assert("default_view_mode"@.len() == 17);
    assert("scaling_quality"@.len() == 15);
    assert("recent_folder"@.len() == 13);
    assert("default_export_format_policy"@.len() == 28);
    assert("zoom_shortcut"@.len() == 13);
    assert("image_navigation_shortcut"@.len() == 25);
    assert("image_pan_shortcut"@.len() == 18);
    assert("window_move_shortcut"@.len() == 20);
    assert("min_zoom_scale"@.len() == 14);
    assert("max_zoom_scale"@.len() == 14);
    assert("zoom_step_factor"@.len() == 16);
    assert("full_resolution_request_scale"@.len() == 29);
}

proof fn lemma_text_writable(key: Seq<char>, text: Seq<char>)
    requires
        plain_key(key),
        key != "version"@,
        !is_strict_text_key(key),
        single_line(text),
    ensures
        writable((key, text)),
{
    lemma_writable(key, text);
}

proof fn lemma_signed_writable(key: Seq<char>, n: int)
    requires
        plain_key(key),
        key != "version"@,
        i32::MIN <= n <= i32::MAX,
    ensures
        writable((key, signed_decimal(n))),
{
    lemma_number_text(n);
    lemma_plain_text_value(signed_decimal(n));
    lemma_writable(key, signed_decimal(n));
}

#[verifier::rlimit(60)]
#[verifier::spinoff_prover]
proof fn lemma_remaining_writable(
    c: ViewerConfigView,
    min_zoom_scale: Seq<char>,
    max_zoom_scale: Seq<char>,
    zoom_step_factor: Seq<char>,
    full_resolution_request_scale: Seq<char>,
)
    requires
        valid_config(c),
        single_line(min_zoom_scale),
        single_line(max_zoom_scale),
        single_line(zoom_step_factor),
        single_line(full_resolution_request_scale),
    ensures
        all_writable(remaining_settings(c, min_zoom_scale, max_zoom_scale, zoom_step_factor, full_resolution_request_scale)),
{
    lemma_keys_distinct();
    lemma_strict_keys();
    lemma_segment_keys(c, min_zoom_scale, max_zoom_scale, zoom_step_factor, full_resolution_request_scale);
    lemma_number_writable(remaining_keys()[0], c.export_default_quality as int);
    lemma_bool_writable(remaining_keys()[1], c.animation_autoplay);
    lemma_text_writable(remaining_keys()[2], min_zoom_scale);
    lemma_text_writable(remaining_keys()[3], max_zoom_scale);
    lemma_text_writable(remaining_keys()[4], zoom_step_factor);
    lemma_number_writable(remaining_keys()[5], c.memory.large_image_pixel_threshold);
    lemma_number_writable(remaining_keys()[6], c.memory.max_image_pixels);
    lemma_number_writable(remaining_keys()[7], c.memory.preview_max_pixels);
    lemma_number_writable(remaining_keys()[8], c.memory.preview_oversample);
    lemma_number_writable(remaining_keys()[9], c.memory.fallback_viewport_width);
    lemma_number_writable(remaining_keys()[10], c.memory.fallback_viewport_height);
    lemma_number_writable(remaining_keys()[11], c.memory.max_transient_decode_mib);
    lemma_number_writable(remaining_keys()[12], c.memory.max_full_resolution_mib);
    lemma_number_writable(remaining_keys()[13], c.memory.max_resident_mib);
    lemma_number_writable(remaining_keys()[14], c.memory.max_cache_entry_mib);
    lemma_number_writable(remaining_keys()[15], c.memory.max_cache_entries);
    lemma_number_writable(remaining_keys()[16], c.memory.max_animation_metadata_frames);
    lemma_text_writable(remaining_keys()[17], full_resolution_request_scale);
    lemma_number_writable(remaining_keys()[18], c.timing.0);
    lemma_number_writable(remaining_keys()[19], c.timing.1);
    lemma_number_writable(remaining_keys()[20], c.timing.2);
    lemma_bool_writable(remaining_keys()[21], c.wrap_navigation);
    lemma_bool_writable(remaining_keys()[22], c.auto_skip_failed_navigation);
    lemma_number_writable(remaining_keys()[23], c.max_navigation_attempts);
    lemma_quoted_writable(remaining_keys()[24], export_format_policy_name(c.export_policy));
    lemma_quoted_writable(remaining_keys()[25], c.export_suffix);
    lemma_quoted_writable(remaining_keys()[26], rgb_text(c.jpeg_background.0, c.jpeg_background.1, c.jpeg_background.2));
    lemma_bool_writable(remaining_keys()[27], c.show_status_bar);
    lemma_bool_writable(remaining_keys()[28], c.detailed_status_text);
    lemma_quoted_writable(remaining_keys()[29], mouse_shortcut_name(c.shortcuts.0));
    lemma_quoted_writable(remaining_keys()[30], mouse_shortcut_name(c.shortcuts.1));
    lemma_quoted_writable(remaining_keys()[31], mouse_shortcut_name(c.shortcuts.2));
    lemma_quoted_writable(remaining_keys()[32], mouse_shortcut_name(c.shortcuts.3));
    let r = remaining_settings(c, min_zoom_scale, max_zoom_scale, zoom_step_factor, full_resolution_request_scale);
    assert forall|i: int| 0 <= i < r.len() implies writable(#[trigger] r[i]) by {
        assert(r[i].0 == remaining_keys()[i]);
    }
}

proof fn lemma_head_writable(c: ViewerConfigView)
    requires
        valid_config(c),
    ensures
        all_writable(seq![("version"@, "1"@)] + window_settings(c.window_bounds) + display_settings(c) + folder_settings(c.recent_folder)),
{
    lemma_keys_distinct();
    reveal_strlit("1");
    lemma_read_value_exact("1"@);
    lemma_plain_text_value("1"@);
    lemma_writable("version"@, "1"@);
    let v = seq![("version"@, "1"@)];
    assert(all_writable(v)) by {
        assert forall|i: int| 0 <= i < v.len() implies writable(#[trigger] v[i]) by {
            assert(v[i] == ("version"@, "1"@));
        }
    }
    let w = window_settings(c.window_bounds);
    if let Some((x, y, width, height)) = c.window_bounds {
        lemma_signed_writable(window_keys()[0], x as int);
        lemma_signed_writable(window_keys()[1], y as int);
        lemma_signed_writable(window_keys()[2], width as int);
        lemma_signed_writable(window_keys()[3], height as int);
        assert forall|i: int| 0 <= i < w.len() implies writable(#[trigger] w[i]) by {
        }
    }
    let d = display_settings(c);
    lemma_quoted_writable(display_keys()[0], ui_language_name(c.ui_language));
    lemma_quoted_writable(display_keys()[1], view_mode_name(c.default_view_mode));
    lemma_quoted_writable(display_keys()[2], scaling_quality_name(c.scaling_quality));
    assert forall|i: int| 0 <= i < d.len() implies writable(#[trigger] d[i]) by {
    }
    let f = folder_settings(c.recent_folder);
    if let Some(folder) = c.recent_folder {
        lemma_quoted_writable("recent_folder"@, folder);
        assert forall|i: int| 0 <= i < f.len() implies writable(#[trigger] f[i]) by {
        }
    }
    lemma_all_writable_append(v, w);
    lemma_all_writable_append(v + w, d);
    lemma_all_writable_append(v + w + d, f);
}

/// Every line written for a valid configuration reads without error and
/// holds no line break.
pub proof fn lemma_config_writable(
    c: ViewerConfigView,
    min_zoom_scale: Seq<char>,
    max_zoom_scale: Seq<char>,
    zoom_step_factor: Seq<char>,
    full_resolution_request_scale: Seq<char>,
)
    requires
        valid_config(c),
        single_line(min_zoom_scale),
        single_line(max_zoom_scale),
        single_line(zoom_step_factor),
        single_line(full_resolution_request_scale),
    ensures
        all_writable(config_settings(c, min_zoom_scale, max_zoom_scale, zoom_step_factor, full_resolution_request_scale)),
{
    lemma_head_writable(c);
    lemma_remaining_writable(c, min_zoom_scale, max_zoom_scale, zoom_step_factor, full_resolution_request_scale);
    lemma_all_writable_append(
        seq![("version"@, "1"@)] + window_settings(c.window_bounds) + display_settings(c) + folder_settings(c.recent_folder),
        remaining_settings(c, min_zoom_scale, max_zoom_scale, zoom_step_factor, full_resolution_request_scale),
    );
}

// ---------------------------------------------------------------------------
// Every value reads back
// ---------------------------------------------------------------------------
#[verifier::rlimit(60)]
#[verifier::spinoff_prover]
proof fn lemma_numbers_read_back(
    c: ViewerConfigView,
    min_zoom_scale: Seq<char>,
    max_zoom_scale: Seq<char>,
    zoom_step_factor: Seq<char>,
    full_resolution_request_scale: Seq<char>,
)
    requires
        valid_config(c),
    ensures
        values_of(read_entries(config_settings(c, min_zoom_scale, max_zoom_scale, zoom_step_factor, full_resolution_request_scale))).export_default_quality == Some(c.export_default_quality as int),
        values_of(read_entries(config_settings(c, min_zoom_scale, max_zoom_scale, zoom_step_factor, full_resolution_request_scale))).animation_autoplay == Some(c.animation_autoplay),
        values_of(read_entries(config_settings(c, min_zoom_scale, max_zoom_scale, zoom_step_factor, full_resolution_request_scale))).large_image_pixel_threshold == Some(c.memory.large_image_pixel_threshold),
        values_of(read_entries(config_settings(c, min_zoom_scale, max_zoom_scale, zoom_step_factor, full_resolution_request_scale))).max_image_pixels == Some(c.memory.max_image_pixels),
        values_of(read_entries(config_settings(c, min_zoom_scale, max_zoom_scale, zoom_step_factor, full_resolution_request_scale))).preview_max_pixels == Some(c.memory.preview_max_pixels),
        values_of(read_entries(config_settings(c, min_zoom_scale, max_zoom_scale, zoom_step_factor, full_resolution_request_scale))).preview_oversample == Some(c.memory.preview_oversample),
        values_of(read_entries(config_settings(c, min_zoom_scale, max_zoom_scale, zoom_step_factor, full_resolution_request_scale))).fallback_viewport_width == Some(c.memory.fallback_viewport_width),
        values_of(read_entries(config_settings(c, min_zoom_scale, max_zoom_scale, zoom_step_factor, full_resolution_request_scale))).fallback_viewport_height == Some(c.memory.fallback_viewport_height),
        values_of(read_entries(config_settings(c, min_zoom_scale, max_zoom_scale, zoom_step_factor, full_resolution_request_scale))).max_transient_decode_mib == Some(c.memory.max_transient_decode_mib),
        values_of(read_entries(config_settings(c, min_zoom_scale, max_zoom_scale, zoom_step_factor, full_resolution_request_scale))).max_full_resolution_mib == Some(c.memory.max_full_resolution_mib),
        values_of(read_entries(config_settings(c, min_zoom_scale, max_zoom_scale, zoom_step_factor, full_resolution_request_scale))).max_resident_mib == Some(c.memory.max_resident_mib),
        values_of(read_entries(config_settings(c, min_zoom_scale, max_zoom_scale, zoom_step_factor, full_resolution_request_scale))).max_cache_entry_mib == Some(c.memory.max_cache_entry_mib),
        values_of(read_entries(config_settings(c, min_zoom_scale, max_zoom_scale, zoom_step_factor, full_resolution_request_scale))).max_cache_entries == Some(c.memory.max_cache_entries),
        values_of(read_entries(config_settings(c, min_zoom_scale, max_zoom_scale, zoom_step_factor, full_resolution_request_scale))).max_animation_metadata_frames == Some(c.memory.max_animation_metadata_frames),
        values_of(read_entries(config_settings(c, min_zoom_scale, max_zoom_scale, zoom_step_factor, full_resolution_request_scale))).default_frame_delay_ms == Some(c.timing.0),
        values_of(read_entries(config_settings(c, min_zoom_scale, max_zoom_scale, zoom_step_factor, full_resolution_request_scale))).min_frame_delay_ms == Some(c.timing.1),
        values_of(read_entries(config_settings(c, min_zoom_scale, max_zoom_scale, zoom_step_factor, full_resolution_request_scale))).max_frame_delay_ms == Some(c.timing.2),
        values_of(read_entries(config_settings(c, min_zoom_scale, max_zoom_scale, zoom_step_factor, full_resolution_request_scale))).wrap_navigation == Some(c.wrap_navigation),
        values_of(read_entries(config_settings(c, min_zoom_scale, max_zoom_scale, zoom_step_factor, full_resolution_request_scale))).auto_skip_failed_navigation == Some(c.auto_skip_failed_navigation),
        values_of(read_entries(config_settings(c, min_zoom_scale, max_zoom_scale, zoom_step_factor, full_resolution_request_scale))).max_navigation_attempts_per_command == Some(c.max_navigation_attempts),
        values_of(read_entries(config_settings(c, min_zoom_scale, max_zoom_scale, zoom_step_factor, full_resolution_request_scale))).show_status_bar == Some(c.show_status_bar),
        values_of(read_entries(config_settings(c, min_zoom_scale, max_zoom_scale, zoom_step_factor, full_resolution_request_scale))).detailed_status_text == Some(c.detailed_status_text),
{
    let all = config_settings(c, min_zoom_scale, max_zoom_scale, zoom_step_factor, full_resolution_request_scale);
    lemma_segment_keys(c, min_zoom_scale, max_zoom_scale, zoom_step_factor, full_resolution_request_scale);
    lemma_last_value_of_settings(all, remaining_keys()[0]);
    lemma_lookup_remaining(c, min_zoom_scale, max_zoom_scale, zoom_step_factor, full_resolution_request_scale, 0);
    lemma_number_text(c.export_default_quality as int);
    lemma_last_value_of_settings(all, remaining_keys()[1]);
    lemma_lookup_remaining(c, min_zoom_scale, max_zoom_scale, zoom_step_factor, full_resolution_request_scale, 1);
    lemma_bool_reads_back(c.animation_autoplay);
    lemma_last_value_of_settings(all, remaining_keys()[5]);
    lemma_lookup_remaining(c, min_zoom_scale, max_zoom_scale, zoom_step_factor, full_resolution_request_scale, 5);
    lemma_number_text(c.memory.large_image_pixel_threshold);
    lemma_last_value_of_settings(all, remaining_keys()[6]);
    lemma_lookup_remaining(c, min_zoom_scale, max_zoom_scale, zoom_step_factor, full_resolution_request_scale, 6);
    lemma_number_text(c.memory.max_image_pixels);
    lemma_last_value_of_settings(all, remaining_keys()[7]);
    lemma_lookup_remaining(c, min_zoom_scale, max_zoom_scale, zoom_step_factor, full_resolution_request_scale, 7);
    lemma_number_text(c.memory.preview_max_pixels);
    lemma_last_value_of_settings(all, remaining_keys()[8]);
    lemma_lookup_remaining(c, min_zoom_scale, max_zoom_scale, zoom_step_factor, full_resolution_request_scale, 8);
    lemma_number_text(c.memory.preview_oversample);
    lemma_last_value_of_settings(all, remaining_keys()[9]);
    lemma_lookup_remaining(c, min_zoom_scale, max_zoom_scale, zoom_step_factor, full_resolution_request_scale, 9);
    lemma_number_text(c.memory.fallback_viewport_width);
    lemma_last_value_of_settings(all, remaining_keys()[10]);
    lemma_lookup_remaining(c, min_zoom_scale, max_zoom_scale, zoom_step_factor, full_resolution_request_scale, 10);
    lemma_number_text(c.memory.fallback_viewport_height);
    lemma_last_value_of_settings(all, remaining_keys()[11]);
    lemma_lookup_remaining(c, min_zoom_scale, max_zoom_scale, zoom_step_factor, full_resolution_request_scale, 11);
    lemma_number_text(c.memory.max_transient_decode_mib);
    lemma_last_value_of_settings(all, remaining_keys()[12]);
    lemma_lookup_remaining(c, min_zoom_scale, max_zoom_scale, zoom_step_factor, full_resolution_request_scale, 12);
    lemma_number_text(c.memory.max_full_resolution_mib);
    lemma_last_value_of_settings(all, remaining_keys()[13]);
    lemma_lookup_remaining(c, min_zoom_scale, max_zoom_scale, zoom_step_factor, full_resolution_request_scale, 13);
    lemma_number_text(c.memory.max_resident_mib);
    lemma_last_value_of_settings(all, remaining_keys()[14]);
    lemma_lookup_remaining(c, min_zoom_scale, max_zoom_scale, zoom_step_factor, full_resolution_request_scale, 14);
    lemma_number_text(c.memory.max_cache_entry_mib);
    lemma_last_value_of_settings(all, remaining_keys()[15]);
    lemma_lookup_remaining(c, min_zoom_scale, max_zoom_scale, zoom_step_factor, full_resolution_request_scale, 15);
    lemma_number_text(c.memory.max_cache_entries);
    lemma_last_value_of_settings(all, remaining_keys()[16]);
    lemma_lookup_remaining(c, min_zoom_scale, max_zoom_scale, zoom_step_factor, full_resolution_request_scale, 16);
    lemma_number_text(c.memory.max_animation_metadata_frames);
    lemma_last_value_of_settings(all, remaining_keys()[18]);
    lemma_lookup_remaining(c, min_zoom_scale, max_zoom_scale, zoom_step_factor, full_resolution_request_scale, 18);
    lemma_number_text(c.timing.0);
    lemma_last_value_of_settings(all, remaining_keys()[19]);
    lemma_lookup_remaining(c, min_zoom_scale, max_zoom_scale, zoom_step_factor, full_resolution_request_scale, 19);
    lemma_number_text(c.timing.1);
    lemma_last_value_of_settings(all, remaining_keys()[20]);
    lemma_lookup_remaining(c, min_zoom_scale, max_zoom_scale, zoom_step_factor, full_resolution_request_scale, 20);
    lemma_number_text(c.timing.2);
    lemma_last_value_of_settings(all, remaining_keys()[21]);
    lemma_lookup_remaining(c, min_zoom_scale, max_zoom_scale, zoom_step_factor, full_resolution_request_scale, 21);
    lemma_bool_reads_back(c.wrap_navigation);
    lemma_last_value_of_settings(all, remaining_keys()[22]);
    lemma_lookup_remaining(c, min_zoom_scale, max_zoom_scale, zoom_step_factor, full_resolution_request_scale, 22);
    lemma_bool_reads_back(c.auto_skip_failed_navigation);
    lemma_last_value_of_settings(all, remaining_keys()[23]);
    lemma_lookup_remaining(c, min_zoom_scale, max_zoom_scale, zoom_step_factor, full_resolution_request_scale, 23);
    lemma_number_text(c.max_navigation_attempts);
    lemma_last_value_of_settings(all, remaining_keys()[27]);
    lemma_lookup_remaining(c, min_zoom_scale, max_zoom_scale, zoom_step_factor, full_resolution_request_scale, 27);
    lemma_bool_reads_back(c.show_status_bar);
    lemma_last_value_of_settings(all, remaining_keys()[28]);
    lemma_lookup_remaining(c, min_zoom_scale, max_zoom_scale, zoom_step_factor, full_resolution_request_scale, 28);
    lemma_bool_reads_back(c.detailed_status_text);
}

#[verifier::rlimit(40)]
#[verifier::spinoff_prover]
proof fn lemma_display_reads_back(
    c: ViewerConfigView,
    min_zoom_scale: Seq<char>,
    max_zoom_scale: Seq<char>,
    zoom_step_factor: Seq<char>,
    full_resolution_request_scale: Seq<char>,
)
    requires
        valid_config(c),
    ensures
        values_of(read_entries(config_settings(c, min_zoom_scale, max_zoom_scale, zoom_step_factor, full_resolution_request_scale))).ui_language == Some(c.ui_language),
        values_of(read_entries(config_settings(c, min_zoom_scale, max_zoom_scale, zoom_step_factor, full_resolution_request_scale))).default_view_mode == Some(default_view_mode_for(c.default_view_mode)),
        values_of(read_entries(config_settings(c, min_zoom_scale, max_zoom_scale, zoom_step_factor, full_resolution_request_scale))).scaling_quality == Some(c.scaling_quality),
{
    let all = config_settings(c, min_zoom_scale, max_zoom_scale, zoom_step_factor, full_resolution_request_scale);
    lemma_segment_keys(c, min_zoom_scale, max_zoom_scale, zoom_step_factor, full_resolution_request_scale);
    lemma_last_value_of_settings(all, display_keys()[0]);
    lemma_last_value_of_settings(all, display_keys()[1]);
    lemma_last_value_of_settings(all, display_keys()[2]);
    lemma_lookup_display(c, min_zoom_scale, max_zoom_scale, zoom_step_factor, full_resolution_request_scale, 0);
    lemma_lookup_display(c, min_zoom_scale, max_zoom_scale, zoom_step_factor, full_resolution_request_scale, 1);
    lemma_lookup_display(c, min_zoom_scale, max_zoom_scale, zoom_step_factor, full_resolution_request_scale, 2);
    lemma_quoted_reads_back(ui_language_name(c.ui_language));
    lemma_quoted_reads_back(view_mode_name(c.default_view_mode));
    lemma_quoted_reads_back(scaling_quality_name(c.scaling_quality));
    law_names_read_back(c.ui_language, c.default_view_mode, c.scaling_quality, c.export_policy, c.shortcuts.0);
}

#[verifier::rlimit(40)]
#[verifier::spinoff_prover]
proof fn lemma_folder_reads_back(
    c: ViewerConfigView,
    min_zoom_scale: Seq<char>,
    max_zoom_scale: Seq<char>,
    zoom_step_factor: Seq<char>,
    full_resolution_request_scale: Seq<char>,
)
    requires
        valid_config(c),
    ensures
        values_of(read_entries(config_settings(c, min_zoom_scale, max_zoom_scale, zoom_step_factor, full_resolution_request_scale))).recent_folder == c.recent_folder,
{
    let all = config_settings(c, min_zoom_scale, max_zoom_scale, zoom_step_factor, full_resolution_request_scale);
    lemma_segment_keys(c, min_zoom_scale, max_zoom_scale, zoom_step_factor, full_resolution_request_scale);
    lemma_last_value_of_settings(all, "recent_folder"@);
    lemma_lookup_folder(c, min_zoom_scale, max_zoom_scale, zoom_step_factor, full_resolution_request_scale);
    if let Some(folder) = c.recent_folder {
        lemma_quoted_reads_back(folder);
    }
}

#[verifier::rlimit(40)]
#[verifier::spinoff_prover]
proof fn lemma_export_reads_back(
    c: ViewerConfigView,
    min_zoom_scale: Seq<char>,
    max_zoom_scale: Seq<char>,
    zoom_step_factor: Seq<char>,
    full_resolution_request_scale: Seq<char>,
)
    requires
        valid_config(c),
    ensures
        values_of(read_entries(config_settings(c, min_zoom_scale, max_zoom_scale, zoom_step_factor, full_resolution_request_scale))).default_export_format_policy == Some(c.export_policy),
        values_of(read_entries(config_settings(c, min_zoom_scale, max_zoom_scale, zoom_step_factor, full_resolution_request_scale))).export_filename_suffix == Some(c.export_suffix),
        values_of(read_entries(config_settings(c, min_zoom_scale, max_zoom_scale, zoom_step_factor, full_resolution_request_scale))).jpeg_alpha_background_rgb == Some(c.jpeg_background),
{
    let all = config_settings(c, min_zoom_scale, max_zoom_scale, zoom_step_factor, full_resolution_request_scale);
    lemma_segment_keys(c, min_zoom_scale, max_zoom_scale, zoom_step_factor, full_resolution_request_scale);
    lemma_last_value_of_settings(all, remaining_keys()[24]);
    lemma_lookup_remaining(c, min_zoom_scale, max_zoom_scale, zoom_step_factor, full_resolution_request_scale, 24);
    lemma_quoted_reads_back(export_format_policy_name(c.export_policy));
    law_names_read_back(c.ui_language, c.default_view_mode, c.scaling_quality, c.export_policy, c.shortcuts.0);
    lemma_last_value_of_settings(all, remaining_keys()[25]);
    lemma_lookup_remaining(c, min_zoom_scale, max_zoom_scale, zoom_step_factor, full_resolution_request_scale, 25);
    lemma_quoted_reads_back(c.export_suffix);
    lemma_last_value_of_settings(all, remaining_keys()[26]);
    lemma_lookup_remaining(c, min_zoom_scale, max_zoom_scale, zoom_step_factor, full_resolution_request_scale, 26);
    lemma_quoted_reads_back(rgb_text(c.jpeg_background.0, c.jpeg_background.1, c.jpeg_background.2));
    lemma_rgb_reads_back(c.jpeg_background.0, c.jpeg_background.1, c.jpeg_background.2);
}

#[verifier::rlimit(40)]
#[verifier::spinoff_prover]
proof fn lemma_shortcuts_read_back(
    c: ViewerConfigView,
    min_zoom_scale: Seq<char>,
    max_zoom_scale: Seq<char>,
    zoom_step_factor: Seq<char>,
    full_resolution_request_scale: Seq<char>,
)
    requires
        valid_config(c),
    ensures
        values_of(read_entries(config_settings(c, min_zoom_scale, max_zoom_scale, zoom_step_factor, full_resolution_request_scale))).zoom_shortcut == Some(c.shortcuts.0),
        values_of(read_entries(config_settings(c, min_zoom_scale, max_zoom_scale, zoom_step_factor, full_resolution_request_scale))).image_navigation_shortcut == Some(c.shortcuts.1),
        values_of(read_entries(config_settings(c, min_zoom_scale, max_zoom_scale, zoom_step_factor, full_resolution_request_scale))).image_pan_shortcut == Some(c.shortcuts.2),
        values_of(read_entries(config_settings(c, min_zoom_scale, max_zoom_scale, zoom_step_factor, full_resolution_request_scale))).window_move_shortcut == Some(c.shortcuts.3),
{
    let all = config_settings(c, min_zoom_scale, max_zoom_scale, zoom_step_factor, full_resolution_request_scale);
    lemma_segment_keys(c, min_zoom_scale, max_zoom_scale, zoom_step_factor, full_resolution_request_scale);
    lemma_last_value_of_settings(all, remaining_keys()[29]);
    lemma_lookup_remaining(c, min_zoom_scale, max_zoom_scale, zoom_step_factor, full_resolution_request_scale, 29);
    lemma_quoted_reads_back(mouse_shortcut_name(c.shortcuts.0));
    law_names_read_back(c.ui_language, c.default_view_mode, c.scaling_quality, c.export_policy, c.shortcuts.0);
    lemma_last_value_of_settings(all, remaining_keys()[30]);
    lemma_lookup_remaining(c, min_zoom_scale, max_zoom_scale, zoom_step_factor, full_resolution_request_scale, 30);
    lemma_quoted_reads_back(mouse_shortcut_name(c.shortcuts.1));
    law_names_read_back(c.ui_language, c.default_view_mode, c.scaling_quality, c.export_policy, c.shortcuts.1);
    lemma_last_value_of_settings(all, remaining_keys()[31]);
    lemma_lookup_remaining(c, min_zoom_scale, max_zoom_scale, zoom_step_factor, full_resolution_request_scale, 31);
    lemma_quoted_reads_back(mouse_shortcut_name(c.shortcuts.2));
    law_names_read_back(c.ui_language, c.default_view_mode, c.scaling_quality, c.export_policy, c.shortcuts.2);
    lemma_last_value_of_settings(all, remaining_keys()[32]);
    lemma_lookup_remaining(c, min_zoom_scale, max_zoom_scale, zoom_step_factor, full_resolution_request_scale, 32);
    lemma_quoted_reads_back(mouse_shortcut_name(c.shortcuts.3));
    law_names_read_back(c.ui_language, c.default_view_mode, c.scaling_quality, c.export_policy, c.shortcuts.3);
}

#[verifier::rlimit(40)]
#[verifier::spinoff_prover]
proof fn lemma_window_reads_back(
    c: ViewerConfigView,
    min_zoom_scale: Seq<char>,
    max_zoom_scale: Seq<char>,
    zoom_step_factor: Seq<char>,
    full_resolution_request_scale: Seq<char>,
)
    requires
        valid_config(c),
    ensures
        match c.window_bounds {
            Some((x, y, w, h)) => values_of(read_entries(config_settings(c, min_zoom_scale, max_zoom_scale, zoom_step_factor, full_resolution_request_scale))).window_x == Some(x) && values_of(read_entries(config_settings(c, min_zoom_scale, max_zoom_scale, zoom_step_factor, full_resolution_request_scale))).window_y
                == Some(y) && values_of(read_entries(config_settings(c, min_zoom_scale, max_zoom_scale, zoom_step_factor, full_resolution_request_scale))).window_width == Some(w) && values_of(read_entries(config_settings(c, min_zoom_scale, max_zoom_scale, zoom_step_factor, full_resolution_request_scale))).window_height
                == Some(h),
            None => values_of(read_entries(config_settings(c, min_zoom_scale, max_zoom_scale, zoom_step_factor, full_resolution_request_scale))).window_x is None,
        },
{
    let all = config_settings(c, min_zoom_scale, max_zoom_scale, zoom_step_factor, full_resolution_request_scale);
    lemma_segment_keys(c, min_zoom_scale, max_zoom_scale, zoom_step_factor, full_resolution_request_scale);
    lemma_last_value_of_settings(all, window_keys()[0]);
    lemma_last_value_of_settings(all, window_keys()[1]);
    lemma_last_value_of_settings(all, window_keys()[2]);
    lemma_last_value_of_settings(all, window_keys()[3]);
    lemma_lookup_window(c, min_zoom_scale, max_zoom_scale, zoom_step_factor, full_resolution_request_scale, 0);
    lemma_lookup_window(c, min_zoom_scale, max_zoom_scale, zoom_step_factor, full_resolution_request_scale, 1);
    lemma_lookup_window(c, min_zoom_scale, max_zoom_scale, zoom_step_factor, full_resolution_request_scale, 2);
    lemma_lookup_window(c, min_zoom_scale, max_zoom_scale, zoom_step_factor, full_resolution_request_scale, 3);
    if let Some((x, y, w, h)) = c.window_bounds {
        lemma_number_text(x as int);
        lemma_number_text(y as int);
        lemma_number_text(w as int);
        lemma_number_text(h as int);
    }
}

/// Reading the settings file written for a configuration gives that
/// configuration back: every line of the file reads without error, the file
/// has entries, and the values they hold give the same settings. This holds
/// whatever texts the four fractional settings are written as, so long as
/// they hold no line break.
#[verifier::rlimit(60)]
#[verifier::spinoff_prover]
pub proof fn law_settings_file_reads_back(
    c: ViewerConfigView,
    min_zoom_scale: Seq<char>,
    max_zoom_scale: Seq<char>,
    zoom_step_factor: Seq<char>,
    full_resolution_request_scale: Seq<char>,
)
    requires
        valid_config(c),
        single_line(min_zoom_scale),
        single_line(max_zoom_scale),
        single_line(zoom_step_factor),
        single_line(full_resolution_request_scale),
    ensures
        config_entries(
            pieces(
                lines_text(config_lines(c, min_zoom_scale, max_zoom_scale, zoom_step_factor, full_resolution_request_scale)),
                '\n',
            ),
        ) == Ok::<Seq<EntryView>, AppConfigParseError>(read_entries(config_settings(c, min_zoom_scale, max_zoom_scale, zoom_step_factor, full_resolution_request_scale))),
        read_entries(config_settings(c, min_zoom_scale, max_zoom_scale, zoom_step_factor, full_resolution_request_scale)).len() > 0,
        config_of_values(values_of(read_entries(config_settings(c, min_zoom_scale, max_zoom_scale, zoom_step_factor, full_resolution_request_scale)))) == c,
{
    let all = config_settings(c, min_zoom_scale, max_zoom_scale, zoom_step_factor, full_resolution_request_scale);
    lemma_config_writable(c, min_zoom_scale, max_zoom_scale, zoom_step_factor, full_resolution_request_scale);
    let lines = setting_lines(all);
    assert(config_lines(c, min_zoom_scale, max_zoom_scale, zoom_step_factor, full_resolution_request_scale) == lines);
    assert forall|i: int, j: int| 0 <= i < lines.len() && 0 <= j < lines[i].len() implies lines[i][j] != '\n' by {
        assert(writable(all[i]));
        assert(lines[i] == setting_line(all[i].0, all[i].1));
    }
    lemma_pieces_of_lines(lines);
    assert forall|i: int| 0 <= i < all.len() implies readable(#[trigger] all[i]) by {
        assert(writable(all[i]));
    }
    lemma_entries_of_setting_file(all);
    lemma_numbers_read_back(c, min_zoom_scale, max_zoom_scale, zoom_step_factor, full_resolution_request_scale);
    lemma_display_reads_back(c, min_zoom_scale, max_zoom_scale, zoom_step_factor, full_resolution_request_scale);
    lemma_folder_reads_back(c, min_zoom_scale, max_zoom_scale, zoom_step_factor, full_resolution_request_scale);
    lemma_export_reads_back(c, min_zoom_scale, max_zoom_scale, zoom_step_factor, full_resolution_request_scale);
    lemma_shortcuts_read_back(c, min_zoom_scale, max_zoom_scale, zoom_step_factor, full_resolution_request_scale);
    lemma_window_reads_back(c, min_zoom_scale, max_zoom_scale, zoom_step_factor, full_resolution_request_scale);
    let v = values_of(read_entries(all));
    let r = config_of_values(v);
    let m = c.memory;
    assert(r.memory == m) by {
        assert(limits_ordered(m));
        assert(normalized_limits(m) == m);
    }
    assert(r.timing == c.timing);
    assert(r.default_view_mode == c.default_view_mode);
    assert(r.recent_folder == c.recent_folder);
    assert(r.export_default_quality == c.export_default_quality);
    assert(r.window_bounds == c.window_bounds);
    assert(r.export_suffix == c.export_suffix);
    assert(r == c);
}

/// Whether line `i` (counted from zero) of `lines` is refused, numbered
/// from one as the error names it.
pub open spec fn line_refused(lines: Seq<Seq<char>>, i: int) -> bool {
    line_error(lines[i], (i + 1) as usize) is Some
}

/// Reading a settings text fails exactly when one of its lines is refused
/// (see [`line_error`]: a line that is not blank or a comment and has no `=`
/// or an empty key, a version other than 1, or a bad quoted value of a text
/// setting); the error is that of the first such line.
pub proof fn law_settings_text_fails_at_first_refused_line(lines: Seq<Seq<char>>)
    requires
        lines.len() <= usize::MAX,
    ensures
        config_entries(lines) is Err <==> exists|i: int| 0 <= i < lines.len() && #[trigger] line_refused(lines, i),
        config_entries(lines) matches Err(e) ==> exists|k: int|
            0 <= k < lines.len() && line_error(lines[k], (k + 1) as usize) == Some(e) && #[trigger] line_refused(
                lines,
                k,
            ) && forall|j: int| 0 <= j < k ==> !#[trigger] line_refused(lines, j),
    decreases lines.len(),
{
    if lines.len() > 0 {
        let prefix = lines.drop_last();
        law_settings_text_fails_at_first_refused_line(prefix);
        let n = lines.len() as int;
        assert forall|i: int| 0 <= i < prefix.len() implies line_refused(prefix, i) == line_refused(lines, i) by {
            assert(prefix[i] == lines[i]);
        }
        assert(lines.last() == lines[n - 1]);
        match config_entries(prefix) {
            Err(e) => {
                let k = choose|k: int|
                    0 <= k < prefix.len() && line_error(prefix[k], (k + 1) as usize) == Some(e) && #[trigger] line_refused(
                        prefix,
                        k,
                    ) && forall|j: int| 0 <= j < k ==> !#[trigger] line_refused(prefix, j);
                assert(prefix[k] == lines[k]);
                assert(line_refused(lines, k));
                assert forall|j: int| 0 <= j < k implies !#[trigger] line_refused(lines, j) by {
                    assert(!line_refused(prefix, j));
                }
            },
            Ok(_) => {
                if line_refused(lines, n - 1) {
                    assert forall|j: int| 0 <= j < n - 1 implies !#[trigger] line_refused(lines, j) by {
                        assert(!line_refused(prefix, j));
                    }
                } else {
                    assert forall|i: int| 0 <= i < n implies !#[trigger] line_refused(lines, i) by {
                        if i < n - 1 {
                            assert(!line_refused(prefix, i));
                        }
                    }
                }
            },
        }
    }
}

} // verus!
