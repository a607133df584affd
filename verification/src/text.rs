//! Character-level text rules: ASCII case folding, control and whitespace
//! characters, trimming and the code point order of strings.
use vstd::prelude::*;

verus! {

/// The characters of `s`, one per element.
pub fn chars_of(s: &str) -> (chars: Vec<char>)
    ensures
        chars@ == s@,
{
    let mut chars: Vec<char> = Vec::new();
    for c in it: s.chars()
        invariant
            it.seq() == s@,
            chars@ == it.seq().take(it.index() as int),
    {
        chars.push(c);
    }
    chars
}

/// `c` with an ASCII capital letter turned into its small letter.
pub open spec fn ascii_lower(c: char) -> char {
    if 'A' <= c <= 'Z' {
        ((c as u32) + 32) as char
    } else {
        c
    }
}

/// Whether two texts are equal once ASCII letters are folded to one case.
pub open spec fn equal_ignoring_ascii_case(a: Seq<char>, b: Seq<char>) -> bool {
    &&& a.len() == b.len()
    &&& forall|i: int| 0 <= i < a.len() ==> #[trigger] ascii_lower(a[i]) == ascii_lower(b[i])
}

fn to_ascii_lower(c: char) -> (lower: char)
    ensures
        lower == ascii_lower(c),
{
    if 'A' <= c && c <= 'Z' {
        let code: u8 = ((c as u32) + 32) as u8;
        code as char
    } else {
        c
    }
}

/// ASCII case-insensitive equality of two strings, as `str::eq_ignore_ascii_case`.
pub fn eq_ignore_ascii_case(a: &str, b: &str) -> (equal: bool)
    ensures
        equal == equal_ignoring_ascii_case(a@, b@),
{
    let len = a.unicode_len();
    if len != b.unicode_len() {
        return false;
    }
    let mut i: usize = 0;
    while i < len
        invariant
            len == a@.len(),
            len == b@.len(),
            i <= len,
            forall|j: int| 0 <= j < i ==> #[trigger] ascii_lower(a@[j]) == ascii_lower(b@[j]),
        decreases len - i,
    {
        if to_ascii_lower(a.get_char(i)) != to_ascii_lower(b.get_char(i)) {
            return false;
        }
        i = i + 1;
    }
    true
}

/// The control characters (general category Cc): U+0000..=U+001F and U+007F..=U+009F.
pub open spec fn is_control_char(c: char) -> bool {
    (c as u32) <= 0x1f || (0x7f <= (c as u32) && (c as u32) <= 0x9f)
}

pub fn is_control(c: char) -> (control: bool)
    ensures
        control == is_control_char(c),
{
    let code: u32 = c as u32;
    code <= 0x1f || (0x7f <= code && code <= 0x9f)
}

/// The characters with the Unicode White_Space property.
pub open spec fn is_whitespace_char(c: char) -> bool {
    let code = c as u32;
    ||| 0x09 <= code <= 0x0d
    ||| code == 0x20
    ||| code == 0x85
    ||| code == 0xa0
    ||| code == 0x1680
    ||| 0x2000 <= code <= 0x200a
    ||| code == 0x2028
    ||| code == 0x2029
    ||| code == 0x202f
    ||| code == 0x205f
    ||| code == 0x3000
}

pub fn is_whitespace(c: char) -> (whitespace: bool)
    ensures
        whitespace == is_whitespace_char(c),
{
    let code: u32 = c as u32;
    (0x09 <= code && code <= 0x0d) || code == 0x20 || code == 0x85 || code == 0xa0 || code == 0x1680
        || (0x2000 <= code && code <= 0x200a) || code == 0x2028 || code == 0x2029 || code == 0x202f
        || code == 0x205f || code == 0x3000
}

/// `s` without its leading whitespace.
pub open spec fn trim_start(s: Seq<char>) -> Seq<char>
    decreases s.len(),
{
    if s.len() > 0 && is_whitespace_char(s[0]) {
        trim_start(s.drop_first())
    } else {
        s
    }
}

/// `s` without its trailing whitespace.
pub open spec fn trim_end(s: Seq<char>) -> Seq<char>
    decreases s.len(),
{
    if s.len() > 0 && is_whitespace_char(s.last()) {
        trim_end(s.drop_last())
    } else {
        s
    }
}

/// `s` without leading and trailing whitespace, as `str::trim`.
pub open spec fn trimmed(s: Seq<char>) -> Seq<char> {
    trim_end(trim_start(s))
}

proof fn lemma_trim_start_skip(s: Seq<char>, i: int)
    requires
        0 <= i <= s.len(),
        forall|j: int| 0 <= j < i ==> is_whitespace_char(#[trigger] s[j]),
    ensures
        trim_start(s) == trim_start(s.subrange(i, s.len() as int)),
    decreases i,
{
    if i > 0 {
        assert(is_whitespace_char(s[0]));
        assert forall|j: int| 0 <= j < i - 1 implies is_whitespace_char(#[trigger] s.drop_first()[j]) by {
            assert(is_whitespace_char(s[j + 1]));
        }
        lemma_trim_start_skip(s.drop_first(), i - 1);
        assert(s.drop_first().subrange(i - 1, s.drop_first().len() as int) == s.subrange(i, s.len() as int));
    } else {
        assert(s.subrange(0, s.len() as int) == s);
    }
}

proof fn lemma_trim_end_skip(s: Seq<char>, k: int)
    requires
        0 <= k <= s.len(),
        forall|j: int| k <= j < s.len() ==> is_whitespace_char(#[trigger] s[j]),
    ensures
        trim_end(s) == trim_end(s.subrange(0, k)),
    decreases s.len() - k,
{
    if k < s.len() {
        assert(is_whitespace_char(s[s.len() - 1]));
        assert forall|j: int| k <= j < s.len() - 1 implies is_whitespace_char(#[trigger] s.drop_last()[j]) by {
            assert(is_whitespace_char(s[j]));
        }
        lemma_trim_end_skip(s.drop_last(), k);
        assert(s.drop_last().subrange(0, k) == s.subrange(0, k));
    } else {
        assert(s.subrange(0, k) == s);
    }
}

/// `s` without leading and trailing whitespace.
pub fn trim(s: &str) -> (t: &str)
    ensures
        t@ == trimmed(s@),
{
    let len = s.unicode_len();
    let mut start: usize = 0;
    while start < len && is_whitespace(s.get_char(start))
        invariant
            len == s@.len(),
            start <= len,
            forall|j: int| 0 <= j < start ==> is_whitespace_char(#[trigger] s@[j]),
        decreases len - start,
    {
        start = start + 1;
    }
    proof {
        lemma_trim_start_skip(s@, start as int);
    }
    let ghost rest = s@.subrange(start as int, len as int);
    assert(rest.len() == 0 || !is_whitespace_char(rest[0]));
    assert(trim_start(s@) == rest);
    let mut end: usize = len;
    while end > start && is_whitespace(s.get_char(end - 1))
        invariant
            len == s@.len(),
            start <= end <= len,
            rest == s@.subrange(start as int, len as int),
            forall|j: int| end - start <= j < rest.len() ==> is_whitespace_char(#[trigger] rest[j]),
        decreases end - start,
    {
        end = end - 1;
    }
    proof {
        lemma_trim_end_skip(rest, end - start);
        let kept = rest.subrange(0, end - start);
        assert(kept.len() == 0 || !is_whitespace_char(kept.last()));
        assert(kept == s@.subrange(start as int, end as int));
    }
    s.substring_char(start, end)
}

/// Code point order of two texts: the first differing character decides, and a
/// proper prefix comes first. This is the order of `str` and `String`, whose
/// UTF-8 bytes compare as their code points do.
pub open spec fn text_le(a: Seq<char>, b: Seq<char>) -> bool
    decreases a.len(),
{
    if a.len() == 0 {
        true
    } else if b.len() == 0 {
        false
    } else if a[0] != b[0] {
        (a[0] as int) < (b[0] as int)
    } else {
        text_le(a.drop_first(), b.drop_first())
    }
}

pub proof fn lemma_text_le_total(a: Seq<char>, b: Seq<char>)
    ensures
        text_le(a, b) || text_le(b, a),
    decreases a.len(),
{
    if a.len() > 0 && b.len() > 0 && a[0] == b[0] {
        lemma_text_le_total(a.drop_first(), b.drop_first());
    }
}

pub proof fn lemma_text_le_transitive(a: Seq<char>, b: Seq<char>, c: Seq<char>)
    requires
        text_le(a, b),
        text_le(b, c),
    ensures
        text_le(a, c),
    decreases a.len(),
{
    if a.len() > 0 && b.len() > 0 && c.len() > 0 && a[0] == b[0] && b[0] == c[0] {
        lemma_text_le_transitive(a.drop_first(), b.drop_first(), c.drop_first());
    }
}

pub proof fn lemma_text_le_antisymmetric(a: Seq<char>, b: Seq<char>)
    requires
        text_le(a, b),
        text_le(b, a),
    ensures
        a == b,
    decreases a.len(),
{
    if a.len() > 0 && b.len() > 0 {
        lemma_text_le_antisymmetric(a.drop_first(), b.drop_first());
        assert(a == seq![a[0]] + a.drop_first());
        assert(b == seq![b[0]] + b.drop_first());
    }
}

/// Whether `a` comes no later than `b` in code point order.
pub fn chars_le(a: &Vec<char>, b: &Vec<char>) -> (le: bool)
    ensures
        le == text_le(a@, b@),
{
    let mut i: usize = 0;
    assert(a@.subrange(0, a@.len() as int) == a@);
    assert(b@.subrange(0, b@.len() as int) == b@);
    while i < a.len() && i < b.len() && a[i] == b[i]
        invariant
            i <= a@.len(),
            i <= b@.len(),
            text_le(a@, b@) == text_le(a@.subrange(i as int, a@.len() as int), b@.subrange(i as int, b@.len() as int)),
        decreases a@.len() - i,
    {
        proof {
            let sa = a@.subrange(i as int, a@.len() as int);
            let sb = b@.subrange(i as int, b@.len() as int);
            assert(sa.drop_first() == a@.subrange(i + 1, a@.len() as int));
            assert(sb.drop_first() == b@.subrange(i + 1, b@.len() as int));
        }
        i = i + 1;
    }
    if i == a.len() {
        true
    } else if i == b.len() {
        false
    } else {
        assert(a@.subrange(i as int, a@.len() as int)[0] == a@[i as int]);
        assert(b@.subrange(i as int, b@.len() as int)[0] == b@[i as int]);
        a[i] < b[i]
    }
}

/// What `str::to_lowercase` gives: the Unicode lowercase of the text, where
/// most characters map on their own and a capital sigma depends on whether it
/// ends a word.
pub uninterp spec fn lowercase_of(s: Seq<char>) -> Seq<char>;

/// Calls `str::to_lowercase`.
#[verifier::external_body]
pub(crate) fn to_lowercase(s: &str) -> (lower: String)
    ensures
        lower@ == lowercase_of(s@),
{
    s.to_lowercase()
}

/// Whether two character vectors hold the same text.
pub fn chars_equal(a: &Vec<char>, b: &Vec<char>) -> (equal: bool)
    ensures
        equal == (a@ == b@),
{
    if a.len() != b.len() {
        return false;
    }
    let mut i: usize = 0;
    while i < a.len()
        invariant
            a@.len() == b@.len(),
            i <= a@.len(),
            forall|j: int| 0 <= j < i ==> a@[j] == b@[j],
        decreases a@.len() - i,
    {
        if a[i] != b[i] {
            return false;
        }
        i = i + 1;
    }
    assert(a@ == b@);
    true
}

/// Calls `String::push`, which appends one character.
#[verifier::external_body]
pub(crate) fn push_char(text: &mut String, c: char)
    ensures
        final(text)@ == old(text)@.push(c),
{
    text.push(c);
}

/// Whether `value` is a Unicode scalar value: at most U+10FFFF and not a
/// surrogate.
pub open spec fn is_scalar_value(value: u32) -> bool {
    value <= 0x10ffff && !(0xd800 <= value <= 0xdfff)
}

/// Calls `char::from_u32`, which gives the character with code `value` when
/// it is a Unicode scalar value and none otherwise.
#[verifier::external_body]
pub(crate) fn char_from_u32(value: u32) -> (c: Option<char>)
    ensures
        c is Some <==> is_scalar_value(value),
        c matches Some(ch) ==> ch as u32 == value,
{
    char::from_u32(value)
}

/// The texts of a sequence of strings.
pub open spec fn string_texts(v: Seq<String>) -> Seq<Seq<char>> {
    v.map_values(|t: String| t@)
}

/// `s` split at every `sep`, as `str::split` splits it: one more piece than
/// there are separators, empty pieces included.
pub open spec fn pieces(s: Seq<char>, sep: char) -> Seq<Seq<char>>
    decreases s.len(),
{
    if s.len() == 0 {
        seq![Seq::<char>::empty()]
    } else {
        let p = pieces(s.drop_last(), sep);
        if s.last() == sep {
            p.push(Seq::<char>::empty())
        } else {
            p.update(p.len() - 1, p.last().push(s.last()))
        }
    }
}

pub proof fn lemma_pieces_not_empty(s: Seq<char>, sep: char)
    ensures
        pieces(s, sep).len() >= 1,
    decreases s.len(),
{
    if s.len() > 0 {
        lemma_pieces_not_empty(s.drop_last(), sep);
    }
}

/// `text` split at every `sep`.
pub fn split_text(text: &str, sep: char) -> (parts: Vec<String>)
    ensures
        string_texts(parts@) == pieces(text@, sep),
{
    let chars = chars_of(text);
    let mut parts: Vec<String> = Vec::new();
    let mut current = String::new();
    let mut i: usize = 0;
    assert(chars@.take(0) == Seq::<char>::empty());
    assert(string_texts(parts@).push(current@) == seq![Seq::<char>::empty()]);
    while i < chars.len()
        invariant
            chars@ == text@,
            i <= chars@.len(),
            string_texts(parts@).push(current@) == pieces(chars@.take(i as int), sep),
        decreases chars@.len() - i,
    {
        let c = chars[i];
        let ghost prefix = chars@.take(i + 1);
        assert(prefix.drop_last() == chars@.take(i as int));
        assert(prefix.last() == c);
        proof {
            lemma_pieces_not_empty(chars@.take(i as int), sep);
        }
        if c == sep {
            let ghost before = string_texts(parts@);
            let mut done = String::new();
            std::mem::swap(&mut done, &mut current);
            parts.push(done);
            assert(string_texts(parts@) == before.push(done@));
        } else {
            let ghost before = string_texts(parts@);
            push_char(&mut current, c);
            assert(string_texts(parts@).push(current@) == before.push(current@));
        }
        i = i + 1;
    }
    assert(chars@.take(chars@.len() as int) == chars@);
    let ghost before = string_texts(parts@);
    parts.push(current);
    assert(string_texts(parts@) == before.push(current@));
    parts
}

} // verus!
