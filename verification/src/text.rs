//! Character-level text rules: Unicode whitespace, trimming, lines, decimal
//! parsing, string comparison, and HTML escaping.

use vstd::prelude::*;
use vstd::string::StringExecFns;

verus! {

/// Appends one character to a `String` with `String::push`.
#[verifier::external_body]
pub(crate) fn push_char(text: &mut String, c: char)
    ensures
        final(text)@ == old(text)@.push(c),
{
    text.push(c);
}

/// The characters of a string slice, in order.
pub fn chars_of(text: &str) -> (chars: Vec<char>)
    ensures
        chars@ == text@,
{
    let mut chars: Vec<char> = Vec::new();
    for c in iter: text.chars()
        invariant
            chars@ == iter.seq().take(iter.index() as int),
            iter.seq() == text@,
    {
        chars.push(c);
    }
    chars
}

/// A new `String` holding `chars[from..to]`.
pub fn string_from_chars(chars: &Vec<char>, from: usize, to: usize) -> (text: String)
    requires
        from <= to <= chars@.len(),
    ensures
        text@ == chars@.subrange(from as int, to as int),
{
    let mut text = String::new();
    let mut i = from;
    while i < to
        invariant
            from <= i <= to <= chars@.len(),
            text@ == chars@.subrange(from as int, i as int),
        decreases to - i,
    {
        push_char(&mut text, chars[i]);
        assert(chars@.subrange(from as int, i + 1) == chars@.subrange(from as int, i as int).push(
            chars@[i as int],
        ));
        i = i + 1;
    }
    text
}

/// A copy of a string slice as a `String`.
pub fn string_from_str(text: &str) -> (copy: String)
    ensures
        copy@ == text@,
{
    String::from_str(text)
}

/// Whether two string slices hold the same characters.
pub fn same_text(a: &str, b: &str) -> (same: bool)
    ensures
        same == (a@ == b@),
{
    let xs = chars_of(a);
    let ys = chars_of(b);
    if xs.len() != ys.len() {
        return false;
    }
    let mut i: usize = 0;
    while i < xs.len()
        invariant
            xs@ == a@,
            ys@ == b@,
            xs@.len() == ys@.len(),
            0 <= i <= xs@.len(),
            forall|j: int| 0 <= j < i ==> xs@[j] == ys@[j],
        decreases xs@.len() - i,
    {
        if xs[i] != ys[i] {
            return false;
        }
        i = i + 1;
    }
    assert(xs@ == ys@);
    true
}

/// The Unicode `White_Space` property, which `char::is_whitespace` tests:
/// U+0009..U+000D, U+0020, U+0085, U+00A0, U+1680, U+2000..U+200A, U+2028,
/// U+2029, U+202F, U+205F and U+3000.
pub open spec fn is_unicode_whitespace(c: char) -> bool {
    let v = c as u32;
    ||| 0x9 <= v <= 0xd
    ||| v == 0x20
    ||| v == 0x85
    ||| v == 0xa0
    ||| v == 0x1680
    ||| 0x2000 <= v <= 0x200a
    ||| v == 0x2028
    ||| v == 0x2029
    ||| v == 0x202f
    ||| v == 0x205f
    ||| v == 0x3000
}

/// Whether a character has the Unicode `White_Space` property.
pub fn is_whitespace(c: char) -> (ws: bool)
    ensures
        ws == is_unicode_whitespace(c),
{
    let v = c as u32;
    (0x9 <= v && v <= 0xd) || v == 0x20 || v == 0x85 || v == 0xa0 || v == 0x1680 || (0x2000 <= v
        && v <= 0x200a) || v == 0x2028 || v == 0x2029 || v == 0x202f || v == 0x205f || v == 0x3000
}

/// `s` with its leading whitespace removed.
pub open spec fn trim_start(s: Seq<char>) -> Seq<char>
    decreases s.len(),
{
    if s.len() > 0 && is_unicode_whitespace(s[0]) {
        trim_start(s.drop_first())
    } else {
        s
    }
}

/// `s` with its trailing whitespace removed.
pub open spec fn trim_end(s: Seq<char>) -> Seq<char>
    decreases s.len(),
{
    if s.len() > 0 && is_unicode_whitespace(s.last()) {
        trim_end(s.drop_last())
    } else {
        s
    }
}

/// `s` with leading and trailing whitespace removed (`str::trim`).
pub open spec fn trimmed(s: Seq<char>) -> Seq<char> {
    trim_end(trim_start(s))
}

/// Every character of `s` is whitespace (`s.trim().is_empty()`).
pub open spec fn is_blank(s: Seq<char>) -> bool {
    forall|i: int| 0 <= i < s.len() ==> is_unicode_whitespace(#[trigger] s[i])
}

proof fn lemma_trim_start_skip(s: Seq<char>, k: int)
    requires
        0 <= k <= s.len(),
        forall|i: int| 0 <= i < k ==> is_unicode_whitespace(#[trigger] s[i]),
        k == s.len() || !is_unicode_whitespace(s[k]),
    ensures
        trim_start(s) == s.skip(k),
    decreases k,
{
    if k > 0 {
        let t = s.drop_first();
        assert forall|i: int| 0 <= i < k - 1 implies is_unicode_whitespace(#[trigger] t[i]) by {
            assert(t[i] == s[i + 1]);
        }
        if k - 1 < t.len() {
            assert(t[k - 1] == s[k]);
        }
        lemma_trim_start_skip(t, k - 1);
        assert(t.skip(k - 1) == s.skip(k));
    } else {
        assert(s.skip(0) == s);
    }
}

proof fn lemma_trim_end_take(s: Seq<char>, k: int)
    requires
        0 <= k <= s.len(),
        forall|i: int| k <= i < s.len() ==> is_unicode_whitespace(#[trigger] s[i]),
        k == 0 || !is_unicode_whitespace(s[k - 1]),
    ensures
        trim_end(s) == s.take(k),
    decreases s.len() - k,
{
    if k < s.len() {
        let t = s.drop_last();
        assert forall|i: int| k <= i < t.len() implies is_unicode_whitespace(#[trigger] t[i]) by {
            assert(t[i] == s[i]);
        }
        if k > 0 {
            assert(t[k - 1] == s[k - 1]);
        }
        lemma_trim_end_take(t, k);
        assert(t.take(k) == s.take(k));
    } else {
        assert(s.take(k) == s);
    }
}

/// The bounds `[a, b)` of `chars[from..to]` trimmed of surrounding whitespace.
pub fn trim_bounds(chars: &Vec<char>, from: usize, to: usize) -> (bounds: (usize, usize))
    requires
        from <= to <= chars@.len(),
    ensures
        from <= bounds.0 <= bounds.1 <= to,
        chars@.subrange(bounds.0 as int, bounds.1 as int) == trimmed(
            chars@.subrange(from as int, to as int),
        ),
{
    let ghost seg = chars@.subrange(from as int, to as int);
    let mut a = from;
    while a < to && is_whitespace(chars[a])
        invariant
            from <= a <= to <= chars@.len(),
            forall|i: int| from <= i < a ==> is_unicode_whitespace(#[trigger] chars@[i]),
        decreases to - a,
    {
        a = a + 1;
    }
    proof {
        assert forall|i: int| 0 <= i < a - from implies is_unicode_whitespace(#[trigger] seg[i]) by {
            assert(seg[i] == chars@[from + i]);
        }
        if a < to {
            assert(seg[a - from] == chars@[a as int]);
        }
        lemma_trim_start_skip(seg, a - from);
    }
    let mut b = to;
    while b > a && is_whitespace(chars[b - 1])
        invariant
            from <= a <= b <= to <= chars@.len(),
            forall|i: int| b <= i < to ==> is_unicode_whitespace(#[trigger] chars@[i]),
        decreases b - a,
    {
        b = b - 1;
    }
    proof {
        let rest = seg.skip(a - from);
        assert(rest == chars@.subrange(a as int, to as int));
        assert forall|i: int| b - a <= i < rest.len() implies is_unicode_whitespace(
            #[trigger] rest[i],
        ) by {
            assert(rest[i] == chars@[a + i]);
        }
        if b > a {
            assert(rest[b - a - 1] == chars@[b - 1]);
        }
        lemma_trim_end_take(rest, b - a);
        assert(rest.take(b - a) == chars@.subrange(a as int, b as int));
    }
    (a, b)
}

/// Whether every character of `text` is whitespace (`text.trim().is_empty()`).
pub fn is_blank_text(text: &str) -> (blank: bool)
    ensures
        blank == is_blank(text@),
{
    let chars = chars_of(text);
    let mut i: usize = 0;
    while i < chars.len()
        invariant
            chars@ == text@,
            0 <= i <= chars@.len(),
            forall|j: int| 0 <= j < i ==> is_unicode_whitespace(#[trigger] chars@[j]),
        decreases chars@.len() - i,
    {
        if !is_whitespace(chars[i]) {
            return false;
        }
        i = i + 1;
    }
    true
}

/// The trimmed copy of `text` (`text.trim().to_owned()`).
pub fn trim_text(text: &str) -> (out: String)
    ensures
        out@ == trimmed(text@),
{
    let chars = chars_of(text);
    let (a, b) = trim_bounds(&chars, 0, chars.len());
    assert(chars@.subrange(0, chars@.len() as int) == chars@);
    string_from_chars(&chars, a, b)
}

/// The end of the line that starts at `start`: the index of the next `'\n'`,
/// or the length of `s`.
pub open spec fn line_end(s: Seq<char>, start: int) -> int
    decreases s.len() - start,
{
    if start >= s.len() || s[start] == '\n' {
        start
    } else {
        line_end(s, start + 1)
    }
}

pub proof fn lemma_line_end_bounds(s: Seq<char>, start: int)
    requires
        0 <= start <= s.len(),
    ensures
        start <= line_end(s, start) <= s.len(),
        line_end(s, start) < s.len() ==> s[line_end(s, start)] == '\n',
        forall|i: int| start <= i < line_end(s, start) ==> s[i] != '\n',
    decreases s.len() - start,
{
    if start < s.len() && s[start] != '\n' {
        lemma_line_end_bounds(s, start + 1);
    }
}

/// The first line of `s` at or after `start` (lines are separated by `'\n'`)
/// whose trimmed text is non-empty, trimmed. A trailing `'\r'` is whitespace,
/// so this agrees with `str::lines` followed by `str::trim`.
pub open spec fn first_named_line(s: Seq<char>, start: int) -> Option<Seq<char>>
    decreases s.len() - start,
{
    if 0 <= start <= s.len() {
        let end = line_end(s, start);
        let line = trimmed(s.subrange(start, end));
        if line.len() > 0 {
            Some(line)
        } else if end < s.len() {
            proof {
                lemma_line_end_bounds(s, start);
            }
            first_named_line(s, end + 1)
        } else {
            None
        }
    } else {
        None
    }
}

/// The default name of a widget with the given content: its first non-blank
/// line, trimmed, or `"Text"` when every line is blank.
pub open spec fn spec_default_widget_name(content: Seq<char>) -> Seq<char> {
    match first_named_line(content, 0) {
        Some(line) => line,
        None => "Text"@,
    }
}

/// The default name of a widget with the given content.
pub fn default_widget_name(content: &str) -> (name: String)
    ensures
        name@ == spec_default_widget_name(content@),
{
    let chars = chars_of(content);
    let mut start: usize = 0;
    loop
        invariant
            chars@ == content@,
            0 <= start <= chars@.len(),
            first_named_line(chars@, 0) == first_named_line(chars@, start as int),
        decreases chars@.len() - start,
    {
        let mut end = start;
        while end < chars.len() && chars[end] != '\n'
            invariant
                start <= end <= chars@.len(),
                line_end(chars@, start as int) == line_end(chars@, end as int),
            decreases chars@.len() - end,
        {
            end = end + 1;
        }
        let (a, b) = trim_bounds(&chars, start, end);
        if a < b {
            return string_from_chars(&chars, a, b);
        }
        if end >= chars.len() {
            return string_from_str("Text");
        }
        proof {
            lemma_line_end_bounds(chars@, start as int);
        }
        start = end + 1;
    }
}

/// The decimal value of a sequence of ASCII digits.
pub open spec fn decimal_value(digits: Seq<char>) -> nat
    decreases digits.len(),
{
    if digits.len() == 0 {
        0
    } else {
        decimal_value(digits.drop_last()) * 10 + ((digits.last() as u32) - ('0' as u32)) as nat
    }
}

pub open spec fn is_ascii_digit(c: char) -> bool {
    '0' <= c <= '9'
}

/// Every character of `s` is an ASCII digit.
pub open spec fn all_ascii_digits(s: Seq<char>) -> bool {
    forall|i: int| 0 <= i < s.len() ==> is_ascii_digit(#[trigger] s[i])
}

/// The digits of an unsigned number: `s` without one leading `'+'`.
pub open spec fn unsigned_digits(s: Seq<char>) -> Seq<char> {
    if s.len() > 0 && s[0] == '+' {
        s.drop_first()
    } else {
        s
    }
}

/// What `str::parse::<u32>` accepts: an optional `'+'` followed by one or more
/// ASCII digits whose value fits in a `u32`.
pub open spec fn spec_parse_u32(s: Seq<char>) -> Option<u32> {
    let digits = unsigned_digits(s);
    if digits.len() == 0 {
        None
    } else if !all_ascii_digits(digits) {
        None
    } else if decimal_value(digits) > u32::MAX {
        None
    } else {
        Some(decimal_value(digits) as u32)
    }
}

proof fn lemma_decimal_value_grows(digits: Seq<char>, i: int)
    requires
        0 <= i < digits.len(),
        forall|j: int| 0 <= j < digits.len() ==> is_ascii_digit(#[trigger] digits[j]),
    ensures
        decimal_value(digits.take(i + 1)) == decimal_value(digits.take(i)) * 10 + ((digits[i] as u32)
            - ('0' as u32)) as nat,
        decimal_value(digits.take(i + 1)) >= decimal_value(digits.take(i)),
{
    assert(digits.take(i + 1).drop_last() == digits.take(i));
}

/// Parses an unsigned decimal number the way `str::parse::<u32>` does.
pub fn parse_u32(text: &Vec<char>) -> (parsed: Option<u32>)
    ensures
        parsed == spec_parse_u32(text@),
{
    let ghost s = text@;
    let start: usize = if text.len() > 0 && text[0] == '+' {
        1
    } else {
        0
    };
    let ghost digits = unsigned_digits(s);
    assert(digits == s.skip(start as int));
    if start >= text.len() {
        return None;
    }
    let mut i = start;
    while i < text.len()
        invariant
            start <= i <= text@.len(),
            s == text@,
            digits == s.skip(start as int),
            digits == unsigned_digits(s),
            forall|j: int| start <= j < i ==> is_ascii_digit(#[trigger] s[j]),
        decreases text@.len() - i,
    {
        if !('0' <= text[i] && text[i] <= '9') {
            assert(digits[i - start] == s[i as int]);
            assert(!is_ascii_digit(digits[(i - start) as int]));
            return None;
        }
        i = i + 1;
    }
    assert forall|j: int| 0 <= j < digits.len() implies is_ascii_digit(#[trigger] digits[j]) by {
        assert(digits[j] == s[start + j]);
    }
    let mut value: u64 = 0;
    let mut k = start;
    while k < text.len()
        invariant
            start <= k <= text@.len(),
            s == text@,
            digits == s.skip(start as int),
            digits == unsigned_digits(s),
            forall|j: int| 0 <= j < digits.len() ==> is_ascii_digit(#[trigger] digits[j]),
            value <= u32::MAX + 1,
            value <= u32::MAX ==> value == decimal_value(digits.take(k - start)),
            value > u32::MAX ==> decimal_value(digits.take(k - start)) > u32::MAX,
        decreases text@.len() - k,
    {
        let ghost idx = k - start;
        proof {
            lemma_decimal_value_grows(digits, idx);
            assert(digits[idx] == s[k as int]);
        }
        let d = (text[k] as u32 - '0' as u32) as u64;
        if value <= u32::MAX as u64 {
            let next = value * 10 + d;
            if next > u32::MAX as u64 {
                value = u32::MAX as u64 + 1;
            } else {
                value = next;
            }
        }
        k = k + 1;
    }
    assert(digits.take(digits.len() as int) == digits);
    if value > u32::MAX as u64 {
        None
    } else {
        Some(value as u32)
    }
}

/// The HTML text of one character: `&`, `<`, `>`, `"` and `'` become entity
/// references; every other character stands for itself.
pub open spec fn escaped_char(c: char) -> Seq<char> {
    if c == '&' {
        "&amp;"@
    } else if c == '<' {
        "&lt;"@
    } else if c == '>' {
        "&gt;"@
    } else if c == '"' {
        "&quot;"@
    } else if c == '\'' {
        "&#39;"@
    } else {
        seq![c]
    }
}

/// `s` with every character replaced by its HTML text.
pub open spec fn spec_escape_html(s: Seq<char>) -> Seq<char>
    decreases s.len(),
{
    if s.len() == 0 {
        Seq::empty()
    } else {
        spec_escape_html(s.drop_last()) + escaped_char(s.last())
    }
}

/// Escapes text for use in HTML content and attribute values.
pub fn escape_html(value: &str) -> (escaped: String)
    ensures
        escaped@ == spec_escape_html(value@),
{
    let chars = chars_of(value);
    let mut escaped = String::new();
    let mut i: usize = 0;
    while i < chars.len()
        invariant
            chars@ == value@,
            0 <= i <= chars@.len(),
            escaped@ == spec_escape_html(chars@.take(i as int)),
        decreases chars@.len() - i,
    {
        let c = chars[i];
        assert(chars@.take(i + 1).drop_last() == chars@.take(i as int));
        if c == '&' {
            escaped.append("&amp;");
        } else if c == '<' {
            escaped.append("&lt;");
        } else if c == '>' {
            escaped.append("&gt;");
        } else if c == '"' {
            escaped.append("&quot;");
        } else if c == '\'' {
            escaped.append("&#39;");
        } else {
            push_char(&mut escaped, c);
        }
        i = i + 1;
    }
    assert(chars@.take(chars@.len() as int) == chars@);
    escaped
}


/// The ASCII digit for a value below ten.
pub open spec fn decimal_digit(d: nat) -> char {
    (48 + d) as char
}

/// The decimal text of a natural number, without sign or leading zeros.
pub open spec fn decimal_digits(n: nat) -> Seq<char>
    decreases n,
{
    if n < 10 {
        seq![decimal_digit(n)]
    } else {
        decimal_digits(n / 10).push(decimal_digit(n % 10))
    }
}

fn digit_char(d: u64) -> (c: char)
    requires
        d < 10,
    ensures
        c == decimal_digit(d as nat),
{
    match d {
        0 => '0',
        1 => '1',
        2 => '2',
        3 => '3',
        4 => '4',
        5 => '5',
        6 => '6',
        7 => '7',
        8 => '8',
        _ => '9',
    }
}

/// Appends the decimal text of `n`.
pub fn push_decimal(text: &mut String, n: u64)
    ensures
        final(text)@ == old(text)@ + decimal_digits(n as nat),
    decreases n,
{
    if n >= 10 {
        push_decimal(text, n / 10);
    }
    push_char(text, digit_char(n % 10));
    proof {
        if n < 10 {
            assert(decimal_digits(n as nat) == seq![decimal_digit(n as nat)]);
        }
    }
}

/// The decimal text of `n`, as integers are written by `Display`.
pub fn decimal_text(n: u64) -> (text: String)
    ensures
        text@ == decimal_digits(n as nat),
{
    let mut text = String::new();
    push_decimal(&mut text, n);
    assert(Seq::<char>::empty() + decimal_digits(n as nat) =~= decimal_digits(n as nat));
    text
}


/// The decimal text of a number is a non-empty run of ASCII digits whose
/// value is that number.
pub proof fn lemma_decimal_digits(n: nat)
    ensures
        decimal_digits(n).len() > 0,
        all_ascii_digits(decimal_digits(n)),
        decimal_value(decimal_digits(n)) == n,
    decreases n,
{
    let s = decimal_digits(n);
    assert(('0' as u32) == 48);
    if n < 10 {
        assert(s[0] == decimal_digit(n));
        assert((decimal_digit(n) as u32) == 48 + n);
        assert(s.drop_last() =~= Seq::<char>::empty());
        assert(s.last() == s[0]);
        assert(decimal_value(s) == decimal_value(s.drop_last()) * 10 + ((s.last() as u32) - (
        '0' as u32)) as nat);
    } else {
        let d = n % 10;
        assert((decimal_digit(d) as u32) == 48 + d);
        assert(n == (n / 10) * 10 + d);
        lemma_decimal_digits(n / 10);
        let prefix = decimal_digits(n / 10);
        assert(s.drop_last() =~= prefix);
        assert(s.last() == decimal_digit(d));
        assert(decimal_value(s) == decimal_value(s.drop_last()) * 10 + ((s.last() as u32) - (
        '0' as u32)) as nat);
        assert forall|i: int| 0 <= i < s.len() implies is_ascii_digit(#[trigger] s[i]) by {
            if i < prefix.len() {
                assert(s[i] == prefix[i]);
            }
        }
    }
}

/// A run of ASCII digits has no surrounding whitespace to trim.
pub proof fn lemma_digits_untrimmed(s: Seq<char>)
    requires
        s.len() > 0,
        all_ascii_digits(s),
    ensures
        trimmed(s) == s,
{
    assert(is_ascii_digit(s[0]));
    assert(is_ascii_digit(s[s.len() - 1]));
    assert(trim_start(s) == s);
}

/// The text views of a list of lines.
pub open spec fn line_texts(lines: Seq<String>) -> Seq<Seq<char>> {
    lines.map_values(|line: String| line@)
}

/// Appends a line.
pub fn push_line(lines: &mut Vec<String>, line: String)
    ensures
        line_texts(final(lines)@) == line_texts(old(lines)@).push(line@),
{
    lines.push(line);
    assert(line_texts(final(lines)@) =~= line_texts(old(lines)@).push(line@));
}

/// Appends a copy of a line.
pub fn push_literal(lines: &mut Vec<String>, line: &str)
    ensures
        line_texts(final(lines)@) == line_texts(old(lines)@).push(line@),
{
    push_line(lines, string_from_str(line));
}


/// `s` with every occurrence of `pattern` replaced by `replacement`, matches
/// taken from left to right without overlapping, as `str::replace` does.
pub open spec fn replace_all(s: Seq<char>, pattern: Seq<char>, replacement: Seq<char>) -> Seq<char>
    decreases s.len(),
{
    if s.len() == 0 {
        Seq::empty()
    } else if 0 < pattern.len() <= s.len() && s.take(pattern.len() as int) == pattern {
        replacement + replace_all(s.skip(pattern.len() as int), pattern, replacement)
    } else {
        seq![s[0]] + replace_all(s.skip(1), pattern, replacement)
    }
}

/// Whether `pattern` occurs in `chars` at index `at`.
fn occurs_at(chars: &Vec<char>, at: usize, pattern: &Vec<char>) -> (found: bool)
    requires
        at <= chars@.len(),
    ensures
        found == (at + pattern@.len() <= chars@.len() && chars@.subrange(
            at as int,
            at + pattern@.len(),
        ) == pattern@),
{
    if pattern.len() > chars.len() - at {
        return false;
    }
    let mut k: usize = 0;
    while k < pattern.len()
        invariant
            at <= chars@.len(),
            at + pattern@.len() <= chars@.len(),
            chars@.len() == chars.len(),
            0 <= k <= pattern@.len(),
            forall|j: int| 0 <= j < k ==> chars@[at + j] == pattern@[j],
        decreases pattern@.len() - k,
    {
        if chars[at + k] != pattern[k] {
            assert(chars@.subrange(at as int, at + pattern@.len())[k as int] != pattern@[k as int]);
            return false;
        }
        k = k + 1;
    }
    assert(chars@.subrange(at as int, at + pattern@.len()) =~= pattern@);
    true
}

/// `text` with every occurrence of a non-empty `pattern` replaced by
/// `replacement`.
pub fn replace_text(text: &str, pattern: &str, replacement: &str) -> (replaced: String)
    requires
        pattern@.len() > 0,
    ensures
        replaced@ == replace_all(text@, pattern@, replacement@),
{
    let chars = chars_of(text);
    let pattern_chars = chars_of(pattern);
    let mut replaced = String::new();
    let mut i: usize = 0;
    assert(chars@.skip(0) =~= chars@);
    assert(replaced@ + replace_all(chars@, pattern@, replacement@) =~= replace_all(
        chars@,
        pattern@,
        replacement@,
    ));
    while i < chars.len()
        invariant
            chars@ == text@,
            pattern_chars@ == pattern@,
            pattern@.len() > 0,
            0 <= i <= chars@.len(),
            replaced@ + replace_all(chars@.skip(i as int), pattern@, replacement@) == replace_all(
                text@,
                pattern@,
                replacement@,
            ),
        decreases chars@.len() - i,
    {
        let rest = Ghost(chars@.skip(i as int));
        if occurs_at(&chars, i, &pattern_chars) {
            assert(rest@.take(pattern@.len() as int) =~= chars@.subrange(i as int, i + pattern@.len()));
            assert(rest@.skip(pattern@.len() as int) =~= chars@.skip(i + pattern@.len()));
            assert(replace_all(rest@, pattern@, replacement@) == replacement@ + replace_all(
                chars@.skip(i + pattern@.len()),
                pattern@,
                replacement@,
            ));
            let ghost before = replaced@;
            replaced.append(replacement);
            assert(replaced@ == before + replacement@);
            assert(before + replacement@ + replace_all(chars@.skip(i + pattern@.len()), pattern@, replacement@)
                =~= before + (replacement@ + replace_all(chars@.skip(i + pattern@.len()), pattern@, replacement@)));
            i = i + pattern_chars.len();
        } else {
            assert(!(0 < pattern@.len() <= rest@.len() && rest@.take(pattern@.len() as int) == pattern@)) by {
                if pattern@.len() <= rest@.len() {
                    assert(rest@.take(pattern@.len() as int) =~= chars@.subrange(i as int, i + pattern@.len()));
                }
            }
            assert(rest@.skip(1) =~= chars@.skip(i + 1));
            let ghost before = replaced@;
            push_char(&mut replaced, chars[i]);
            assert(before.push(chars@[i as int]) + replace_all(chars@.skip(i + 1), pattern@, replacement@)
                =~= before + (seq![rest@[0]] + replace_all(chars@.skip(i + 1), pattern@, replacement@)));
            i = i + 1;
        }
    }
    assert(chars@.skip(chars@.len() as int) =~= Seq::<char>::empty());
    assert(replaced@ + Seq::<char>::empty() =~= replaced@);
    replaced
}

} // verus!
