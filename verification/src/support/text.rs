//! Text as sequences of characters.

use vstd::prelude::*;

verus! {

/// `String::push` appends one character to the end of the text.
pub assume_specification[ String::push ](s: &mut String, c: char)
    ensures
        final(s)@ == old(s)@.push(c),
;

/// Whether two texts hold the same characters.
pub fn same_text(a: &str, b: &str) -> (r: bool)
    ensures
        r == (a@ == b@),
{
    a.to_owned() == b.to_owned()
}

/// The text of `chars`.
pub fn text_of(chars: &Vec<char>) -> (r: String)
    ensures
        r@ == chars@,
{
    let mut r = String::new();
    let mut i: usize = 0;
    while i < chars.len()
        invariant
            i <= chars.len(),
            r@ == chars@.take(i as int),
        decreases chars.len() - i,
    {
        r.push(chars[i]);
        proof {
            assert(chars@.take(i as int + 1) =~= chars@.take(i as int).push(chars@[i as int]));
        }
        i = i + 1;
    }
    proof {
        assert(chars@.take(i as int) =~= chars@);
    }
    r
}

/// The characters of `s`.
pub fn chars_of(s: &str) -> (r: Vec<char>)
    ensures
        r@ == s@,
{
    let mut r: Vec<char> = Vec::new();
    for c in it: s.chars()
        invariant
            r@ == s@.take(it.index() as int),
            it.seq() == s@,
    {
        r.push(c);
        proof {
            let k: int = it.index() as int;
            assert(s@.take(k + 1) =~= s@.take(k).push(s@[k]));
        }
    }
    proof {
        assert(s@.take(s@.len() as int) =~= s@);
    }
    r
}

/// Whether `s` begins with `prefix`.
pub fn starts_with(s: &str, prefix: &str) -> (r: bool)
    ensures
        r == prefix@.is_prefix_of(s@),
{
    let n: usize = s.unicode_len();
    let m: usize = prefix.unicode_len();
    if m > n {
        return false;
    }
    let head = s.substring_char(0, m);
    proof {
        assert(prefix@.is_prefix_of(s@) <==> s@.subrange(0, m as int) =~= prefix@);
    }
    same_text(head, prefix)
}

/// The text that `o` holds, or the empty text.
pub open spec fn text_or_empty(o: Option<String>) -> Seq<char> {
    match o {
        Some(s) => s@,
        None => Seq::empty(),
    }
}

/// The text that `o` holds, or `d`.
pub open spec fn text_or(o: Option<String>, d: Seq<char>) -> Seq<char> {
    match o {
        Some(s) => s@,
        None => d,
    }
}

/// A copy of the text that `o` holds, or of `d` where it holds none.
pub fn copy_text_or(o: &Option<String>, d: &str) -> (r: String)
    ensures
        r@ == text_or(*o, d@),
{
    match o {
        Some(s) => s.clone(),
        None => d.to_owned(),
    }
}

/// A copy of the text that `o` holds, or the empty text.
pub fn copy_text_or_empty(o: &Option<String>) -> (r: String)
    ensures
        r@ == text_or_empty(*o),
{
    match o {
        Some(s) => s.clone(),
        None => String::new(),
    }
}

/// The views of a sequence of texts.
pub open spec fn texts(s: Seq<String>) -> Seq<Seq<char>> {
    Seq::new(s.len(), |i: int| s[i]@)
}

/// Decimal digits of a natural number, most significant first.
pub open spec fn decimal_digits(n: nat) -> Seq<char>
    decreases n,
{
    if n < 10 {
        seq![digit_char(n)]
    } else {
        decimal_digits(n / 10).push(digit_char(n % 10))
    }
}

/// The character of a digit below ten.
pub open spec fn digit_char(d: nat) -> char {
    (('0' as int) + d) as char
}

fn digit(d: u8) -> (c: char)
    requires
        d < 10,
    ensures
        c == digit_char(d as nat),
{
    match d {
        0 => '0',
        1 => '1',
        2 => '2',
        3 => '3',
        4 => '4',
        5 => '5',
        6 => '6',
        7 => '7',
        8 => '8',
        _ => '9',
    }
}

/// `n` in decimal.
pub fn decimal(n: u64) -> (r: String)
    ensures
        r@ == decimal_digits(n as nat),
    decreases n,
{
    if n < 10 {
        let mut r = String::new();
        r.push(digit(n as u8));
        proof {
            assert(r@ =~= decimal_digits(n as nat));
        }
        r
    } else {
        let mut r = decimal(n / 10);
        r.push(digit((n % 10) as u8));
        r
    }
}

/// Decimal rendering of an integer, with a minus sign where it is negative.
pub open spec fn signed_digits(n: int) -> Seq<char> {
    if n < 0 {
        seq!['-'] + decimal_digits((-n) as nat)
    } else {
        decimal_digits(n as nat)
    }
}

/// `n` in decimal, with its sign.
pub fn signed_decimal(n: i64) -> (r: String)
    ensures
        r@ == signed_digits(n as int),
{
    if n < 0 {
        let mut sign = String::new();
        sign.push('-');
        let magnitude: u64 = if n == i64::MIN {
            9223372036854775808u64
        } else {
            (-n) as u64
        };
        let digits = decimal(magnitude);
        let r = sign.concat(digits.as_str());
        proof {
            assert(r@ =~= seq!['-'] + decimal_digits((-n) as nat));
        }
        r
    } else {
        decimal(n as u64)
    }
}

/// The characters with the Unicode property `White_Space`.
pub open spec fn whitespace(c: char) -> bool {
    let n = c as u32;
    ||| 0x9 <= n <= 0xd
    ||| n == 0x20
    ||| n == 0x85
    ||| n == 0xa0
    ||| n == 0x1680
    ||| 0x2000 <= n <= 0x200a
    ||| n == 0x2028
    ||| n == 0x2029
    ||| n == 0x202f
    ||| n == 0x205f
    ||| n == 0x3000
}

/// Whether a character has the Unicode property `White_Space`.
fn is_whitespace(c: char) -> (r: bool)
    ensures
        r == whitespace(c),
{
    let n: u32 = c as u32;
    (0x9 <= n && n <= 0xd) || n == 0x20 || n == 0x85 || n == 0xa0 || n == 0x1680 || (0x2000 <= n && n
        <= 0x200a) || n == 0x2028 || n == 0x2029 || n == 0x202f || n == 0x205f || n == 0x3000
}

/// What `str`'s `Debug` writes: the text in double quotes, with what needs it
/// escaped.
pub uninterp spec fn debug_form(s: Seq<char>) -> Seq<char>;

/// `str`'s `Debug`.
#[verifier::external_body]
pub(crate) fn debug_text(s: &str) -> (r: String)
    ensures
        r@ == debug_form(s@),
{
    format!("{:?}", s)
}

/// `s` without the white space at its ends.
pub open spec fn trimmed(s: Seq<char>) -> Seq<char>
    decreases s.len(),
{
    if s.len() == 0 {
        s
    } else if whitespace(s[0]) {
        trimmed(s.drop_first())
    } else if whitespace(s.last()) {
        trimmed(s.drop_last())
    } else {
        s
    }
}

/// `s` without the white space at its ends.
pub fn trim(s: &str) -> (r: String)
    ensures
        r@ == trimmed(s@),
{
    let chars = chars_of(s);
    let mut from: usize = 0;
    assert(s@.subrange(0, s@.len() as int) =~= s@);
    while from < chars.len() && is_whitespace(chars[from])
        invariant
            from <= chars@.len(),
            chars@ == s@,
            trimmed(s@) == trimmed(s@.subrange(from as int, s@.len() as int)),
        decreases chars.len() - from,
    {
        proof {
            let rest = s@.subrange(from as int, s@.len() as int);
            assert(rest.drop_first() =~= s@.subrange(from as int + 1, s@.len() as int));
        }
        from = from + 1;
    }
    let mut to: usize = chars.len();
    while to > from && is_whitespace(chars[to - 1])
        invariant
            from <= to <= chars@.len(),
            chars@ == s@,
            from < chars@.len() ==> !whitespace(s@[from as int]),
            trimmed(s@) == trimmed(s@.subrange(from as int, to as int)),
        decreases to,
    {
        proof {
            let rest = s@.subrange(from as int, to as int);
            assert(rest.drop_last() =~= s@.subrange(from as int, to as int - 1));
        }
        to = to - 1;
    }
    let r = s.substring_char(from, to);
    r.to_owned()
}

/// A character as a small letter, where it is a capital of ASCII.
pub open spec fn small(c: char) -> char {
    if 'A' <= c <= 'Z' {
        ((c as int) + 32) as char
    } else {
        c
    }
}

fn to_small(c: char) -> (r: char)
    ensures
        r == small(c),
{
    match c {
        'A' => 'a',
        'B' => 'b',
        'C' => 'c',
        'D' => 'd',
        'E' => 'e',
        'F' => 'f',
        'G' => 'g',
        'H' => 'h',
        'I' => 'i',
        'J' => 'j',
        'K' => 'k',
        'L' => 'l',
        'M' => 'm',
        'N' => 'n',
        'O' => 'o',
        'P' => 'p',
        'Q' => 'q',
        'R' => 'r',
        'S' => 's',
        'T' => 't',
        'U' => 'u',
        'V' => 'v',
        'W' => 'w',
        'X' => 'x',
        'Y' => 'y',
        'Z' => 'z',
        _ => c,
    }
}

/// Whether `s`, its ASCII capitals made small, is `lower`.
pub open spec fn is_in_any_case(s: Seq<char>, lower: Seq<char>) -> bool {
    s.len() == lower.len() && forall|i: int|
        0 <= i < s.len() ==> small(#[trigger] s[i]) == lower[i]
}

/// Whether `s`, its ASCII capitals made small, is `lower`.
pub fn same_in_any_case(s: &str, lower: &str) -> (r: bool)
    ensures
        r == is_in_any_case(s@, lower@),
{
    let a = chars_of(s);
    let b = chars_of(lower);
    if a.len() != b.len() {
        return false;
    }
    let mut i: usize = 0;
    while i < a.len()
        invariant
            i <= a@.len(),
            a@.len() == b@.len(),
            a@ == s@,
            b@ == lower@,
            forall|j: int| 0 <= j < i ==> small(#[trigger] s@[j]) == lower@[j],
        decreases a.len() - i,
    {
        if to_small(a[i]) != b[i] {
            assert(small(s@[i as int]) != lower@[i as int]);
            return false;
        }
        i = i + 1;
    }
    true
}

/// `String::from_utf8`, on a copy of the bytes: the text that they encode, where
/// they are valid UTF-8.
#[verifier::external_body]
pub(crate) fn text_from_utf8(bytes: &Vec<u8>) -> (r: Option<String>)
    ensures
        r is Some <==> vstd::utf8::valid_utf8(bytes@),
        r is Some ==> r->0@ == vstd::utf8::decode_utf8(bytes@),
{
    String::from_utf8(bytes.clone()).ok()
}

/// The bytes of a text in UTF-8.
pub fn utf8_bytes(s: &str) -> (r: Vec<u8>)
    ensures
        r@ == vstd::utf8::encode_utf8(s@),
{
    let bytes = s.as_bytes();
    let mut r: Vec<u8> = Vec::new();
    let mut i: usize = 0;
    while i < bytes.len()
        invariant
            i <= bytes@.len(),
            r@ =~= bytes@.take(i as int),
        decreases bytes.len() - i,
    {
        r.push(bytes[i]);
        i = i + 1;
    }
    proof {
        assert(bytes@.take(i as int) =~= bytes@);
    }
    r
}

/// Whether a character is a decimal digit.
pub open spec fn is_digit(c: char) -> bool {
    '0' <= c <= '9'
}

/// The number that decimal digits write, the most significant first.
pub open spec fn digits_value(s: Seq<char>) -> nat
    decreases s.len(),
{
    if s.len() == 0 {
        0
    } else {
        digits_value(s.drop_last()) * 10 + (s.last() as int - '0' as int) as nat
    }
}

/// Whether all characters are decimal digits, and there is one.
pub open spec fn all_digits(s: Seq<char>) -> bool {
    s.len() > 0 && forall|i: int| 0 <= i < s.len() ==> is_digit(#[trigger] s[i])
}

/// A number as it is written: decimal digits, behind one plus sign or none, of
/// a value within 64 bits.
pub open spec fn written_number(s: Seq<char>) -> Option<u64> {
    let digits = if s.len() > 0 && s[0] == '+' {
        s.skip(1)
    } else {
        s
    };
    if all_digits(digits) && digits_value(digits) <= u64::MAX {
        Some(digits_value(digits) as u64)
    } else {
        None
    }
}

fn digit_of(c: char) -> (r: Option<u8>)
    ensures
        r is Some <==> is_digit(c),
        r is Some ==> r->0 == c as int - '0' as int,
        r is Some ==> r->0 < 10,
{
    match c {
        '0' => Some(0),
        '1' => Some(1),
        '2' => Some(2),
        '3' => Some(3),
        '4' => Some(4),
        '5' => Some(5),
        '6' => Some(6),
        '7' => Some(7),
        '8' => Some(8),
        '9' => Some(9),
        _ => None,
    }
}

/// More digits write no smaller number.
proof fn lemma_prefix_value(s: Seq<char>, n: int)
    requires
        0 <= n <= s.len(),
        forall|i: int| 0 <= i < s.len() ==> is_digit(#[trigger] s[i]),
    ensures
        digits_value(s.take(n)) <= digits_value(s),
    decreases s.len(),
{
    if n < s.len() {
        assert(s.drop_last().take(n) =~= s.take(n));
        lemma_prefix_value(s.drop_last(), n);
    } else {
        assert(s.take(n) =~= s);
    }
}

/// Reads a number as it is written.
pub fn parse_number(s: &str) -> (r: Option<u64>)
    ensures
        r == written_number(s@),
{
    let chars = chars_of(s);
    let from: usize = if chars.len() > 0 && chars[0] == '+' {
        1
    } else {
        0
    };
    let ghost digits = if s@.len() > 0 && s@[0] == '+' {
        s@.skip(1)
    } else {
        s@
    };
    assert(digits =~= s@.skip(from as int));
    if from == chars.len() {
        return None;
    }
    let mut value: u64 = 0;
    let mut i: usize = from;
    assert(digits.take(0) =~= Seq::<char>::empty());
    while i < chars.len()
        invariant
            from <= i <= chars@.len(),
            chars@ == s@,
            digits == s@.skip(from as int),
            value == digits_value(digits.take(i - from)),
            written_number(s@) == (if all_digits(digits) && digits_value(digits) <= u64::MAX {
                Some(digits_value(digits) as u64)
            } else {
                None
            }),
            forall|k: int| 0 <= k < i - from ==> is_digit(#[trigger] digits[k]),
        decreases chars.len() - i,
    {
        let ghost k = i - from;
        assert(digits[k] == s@[i as int]);
        assert(digits.take(k + 1).drop_last() =~= digits.take(k));
        match digit_of(chars[i]) {
            None => {
                assert(!is_digit(digits[k]));
                return None;
            },
            Some(d) => {
                proof {
                    if all_digits(digits) {
                        lemma_prefix_value(digits, k + 1);
                    }
                }
                if value > 1844674407370955161 || (value == 1844674407370955161 && d > 5) {
                    return None;
                }
                value = value * 10 + d as u64;
            },
        }
        i = i + 1;
    }
    assert(digits.take(i - from) =~= digits);
    Some(value)
}

/// A number that was written in decimal is read back.
pub proof fn written_decimal_is_read(n: u64)
    ensures
        written_number(decimal_digits(n as nat)) == Some(n),
{
    lemma_decimal_digits(n as nat);
}

proof fn lemma_decimal_digits(n: nat)
    ensures
        all_digits(decimal_digits(n)),
        digits_value(decimal_digits(n)) == n,
    decreases n,
{
    let s = decimal_digits(n);
    if n < 10 {
        assert(s.drop_last() =~= Seq::<char>::empty());
        assert(digits_value(Seq::<char>::empty()) == 0);
    } else {
        lemma_decimal_digits(n / 10);
        assert(s.drop_last() =~= decimal_digits(n / 10));
    }
}

/// Where white space stands around something that neither begins nor ends with
/// it, that something is the trimmed text.
pub proof fn trimming_leaves_the_middle(s: Seq<char>, from: int, to: int)
    requires
        0 <= from < to <= s.len(),
        forall|i: int| 0 <= i < from ==> whitespace(#[trigger] s[i]),
        forall|i: int| to <= i < s.len() ==> whitespace(#[trigger] s[i]),
        !whitespace(s[from]),
        !whitespace(s[to - 1]),
    ensures
        trimmed(s) == s.subrange(from, to),
    decreases s.len(),
{
    if from > 0 {
        let rest = s.drop_first();
        assert forall|i: int| 0 <= i < from - 1 implies whitespace(#[trigger] rest[i]) by {
            assert(rest[i] == s[i + 1]);
        }
        assert forall|i: int| to - 1 <= i < rest.len() implies whitespace(#[trigger] rest[i]) by {
            assert(rest[i] == s[i + 1]);
        }
        trimming_leaves_the_middle(rest, from - 1, to - 1);
        assert(rest.subrange(from - 1, to - 1) =~= s.subrange(from, to));
    } else if to < s.len() {
        let rest = s.drop_last();
        assert forall|i: int| to <= i < rest.len() implies whitespace(#[trigger] rest[i]) by {
            assert(rest[i] == s[i]);
        }
        trimming_leaves_the_middle(rest, from, to);
        assert(rest.subrange(from, to) =~= s.subrange(from, to));
        assert(whitespace(s[s.len() - 1]));
    } else {
        assert(s.subrange(from, to) =~= s);
    }
}

/// Trimming takes white space from the ends and nothing else, and all of it.
pub proof fn trimming_takes_the_ends(s: Seq<char>) -> (r: (int, int))
    ensures
        0 <= r.0 <= r.1 <= s.len(),
        trimmed(s) == s.subrange(r.0, r.1),
        forall|i: int| 0 <= i < r.0 ==> whitespace(#[trigger] s[i]),
        forall|i: int| r.1 <= i < s.len() ==> whitespace(#[trigger] s[i]),
        r.0 < r.1 ==> !whitespace(s[r.0]) && !whitespace(s[r.1 - 1]),
    decreases s.len(),
{
    if s.len() == 0 {
        assert(s.subrange(0, 0) =~= s);
        (0, 0)
    } else if whitespace(s[0]) {
        let rest = s.drop_first();
        let (a, b) = trimming_takes_the_ends(rest);
        assert(rest.subrange(a, b) =~= s.subrange(a + 1, b + 1));
        assert forall|i: int| 0 <= i < a + 1 implies whitespace(#[trigger] s[i]) by {
            if i > 0 {
                assert(rest[i - 1] == s[i]);
            }
        }
        assert forall|i: int| b + 1 <= i < s.len() implies whitespace(#[trigger] s[i]) by {
            assert(rest[i - 1] == s[i]);
        }
        (a + 1, b + 1)
    } else if whitespace(s.last()) {
        let rest = s.drop_last();
        let (a, b) = trimming_takes_the_ends(rest);
        assert(rest.subrange(a, b) =~= s.subrange(a, b));
        assert forall|i: int| 0 <= i < a implies whitespace(#[trigger] s[i]) by {
            assert(rest[i] == s[i]);
        }
        assert forall|i: int| b <= i < s.len() implies whitespace(#[trigger] s[i]) by {
            if i < rest.len() {
                assert(rest[i] == s[i]);
            }
        }
        (a, b)
    } else {
        assert(s.subrange(0, s.len() as int) =~= s);
        (0, s.len() as int)
    }
}

/// A text is another in any case exactly where the two agree letter by letter,
/// but for the capitals of ASCII, which stand for their small letters.
pub proof fn case_is_that_of_ascii(s: Seq<char>, lower: Seq<char>)
    requires
        forall|i: int| 0 <= i < lower.len() ==> !('A' <= #[trigger] lower[i] <= 'Z'),
    ensures
        is_in_any_case(s, lower) <==> s.len() == lower.len() && forall|i: int|
            0 <= i < s.len() ==> (#[trigger] s[i]) == lower[i] || ('a' <= lower[i] <= 'z'
                && s[i] as int + 32 == lower[i] as int),
{
    if is_in_any_case(s, lower) {
        assert forall|i: int| 0 <= i < s.len() implies (#[trigger] s[i]) == lower[i] || ('a'
            <= lower[i] <= 'z' && s[i] as int + 32 == lower[i] as int) by {
            assert(small(s[i]) == lower[i]);
        }
    }
    if s.len() == lower.len() && forall|i: int|
        0 <= i < s.len() ==> (#[trigger] s[i]) == lower[i] || ('a' <= lower[i] <= 'z' && s[i] as int
            + 32 == lower[i] as int) {
        assert forall|i: int| 0 <= i < s.len() implies small(#[trigger] s[i]) == lower[i] by {
            assert(!('A' <= lower[i] <= 'Z'));
        }
    }
}

/// White space is what Unicode lists as such: the tab and the line ends, the
/// spaces of every width, and the separators of lines and paragraphs. The space
/// without width is none.
pub proof fn white_space_is_that_of_unicode(c: char)
    ensures
        whitespace(c) <==> seq![
            '\t',
            '\n',
            '\u{b}',
            '\u{c}',
            '\r',
            ' ',
            '\u{85}',
            '\u{a0}',
            '\u{1680}',
            '\u{2000}',
            '\u{2001}',
            '\u{2002}',
            '\u{2003}',
            '\u{2004}',
            '\u{2005}',
            '\u{2006}',
            '\u{2007}',
            '\u{2008}',
            '\u{2009}',
            '\u{200a}',
            '\u{2028}',
            '\u{2029}',
            '\u{202f}',
            '\u{205f}',
            '\u{3000}',
        ].contains(c),
{
    let listed = seq![
        '\t',
        '\n',
        '\u{b}',
        '\u{c}',
        '\r',
        ' ',
        '\u{85}',
        '\u{a0}',
        '\u{1680}',
        '\u{2000}',
        '\u{2001}',
        '\u{2002}',
        '\u{2003}',
        '\u{2004}',
        '\u{2005}',
        '\u{2006}',
        '\u{2007}',
        '\u{2008}',
        '\u{2009}',
        '\u{200a}',
        '\u{2028}',
        '\u{2029}',
        '\u{202f}',
        '\u{205f}',
        '\u{3000}',
    ];
    let n = c as u32;
    if 0x9 <= n <= 0xd {
        assert(listed[n - 0x9] == c);
    } else if n == 0x20 {
        assert(listed[5] == c);
    } else if n == 0x85 {
        assert(listed[6] == c);
    } else if n == 0xa0 {
        assert(listed[7] == c);
    } else if n == 0x1680 {
        assert(listed[8] == c);
    } else if 0x2000 <= n <= 0x200a {
        assert(listed[n - 0x2000 + 9] == c);
    } else if n == 0x2028 {
        assert(listed[20] == c);
    } else if n == 0x2029 {
        assert(listed[21] == c);
    } else if n == 0x202f {
        assert(listed[22] == c);
    } else if n == 0x205f {
        assert(listed[23] == c);
    } else if n == 0x3000 {
        assert(listed[24] == c);
    }
}

/// Ten times a number and a digit more is written with that digit behind the
/// number's own; a number below ten is its digit; a negative number is written
/// behind a minus sign.
pub proof fn numbers_are_written_by_their_digits(n: nat, d: nat)
    requires
        d < 10,
    ensures
        decimal_digits(d) == seq![(d + 48) as char],
        n > 0 ==> decimal_digits(n * 10 + d) == decimal_digits(n).push((d + 48) as char),
        signed_digits(n as int) == decimal_digits(n),
        n > 0 ==> signed_digits(-(n as int)) == seq!['-'] + decimal_digits(n),
{
    if n > 0 {
        assert((n * 10 + d) / 10 == n);
        assert((n * 10 + d) % 10 == d);
    }
}

/// A digit behind a written number makes it ten times as large and the digit
/// more, as long as that fits; one plus sign in front changes nothing; without a
/// digit, or with anything else, it is no number.
pub proof fn numbers_are_read_by_their_digits(s: Seq<char>, d: nat, i: int)
    ensures
        written_number(Seq::<char>::empty()) is None,
        d < 10 ==> written_number(seq![(d + 48) as char]) == Some(d as u64),
        d < 10 && written_number(s) is Some && written_number(s)->0 * 10 + d <= u64::MAX
            ==> written_number(s.push((d + 48) as char)) == Some(
            (written_number(s)->0 * 10 + d) as u64,
        ),
        d < 10 && written_number(s) is Some && written_number(s)->0 * 10 + d > u64::MAX
            ==> written_number(s.push((d + 48) as char)) is None,
        s.len() == 0 || s[0] != '+' ==> written_number(seq!['+'] + s) == written_number(s),
        0 < i < s.len() && !('0' <= s[i] <= '9') ==> written_number(s) is None,
        s.len() > 0 && !('0' <= s[0] <= '9') && s[0] != '+' ==> written_number(s) is None,
{
    let none = Seq::<char>::empty();
    if d < 10 {
        let c = (d + 48) as char;
        assert(seq![c].drop_last() =~= none);
        assert(digits_value(none) == 0);
        assert(digits_value(seq![c]) == d);
        if written_number(s) is Some {
            let signed = s.len() > 0 && s[0] == '+';
            let digits = if signed {
                s.skip(1)
            } else {
                s
            };
            let longer = s.push(c);
            assert(longer[0] == s[0]);
            let more = digits.push(c);
            if signed {
                assert(longer.skip(1) =~= more);
            }
            assert(more.drop_last() =~= digits);
            assert(more.last() == c);
            assert(all_digits(more)) by {
                assert forall|k: int| 0 <= k < more.len() implies is_digit(#[trigger] more[k]) by {
                    if k < digits.len() {
                        assert(more[k] == digits[k]);
                    }
                }
            }
            assert(digits_value(more) == digits_value(digits) * 10 + d);
        }
    }
    assert((seq!['+'] + s).skip(1) =~= s);
    assert((seq!['+'] + s)[0] == '+');
    if 0 < i < s.len() && !('0' <= s[i] <= '9') {
        if s[0] == '+' {
            assert(s.skip(1)[i - 1] == s[i]);
        }
    }
}

/// A text that is there counts, be it empty; what stands in for it counts only
/// where it is not.
pub proof fn texts_that_are_there_count(o: Option<String>, d: Seq<char>)
    ensures
        o is Some ==> text_or(o, d) == o->0@ && text_or_empty(o) == o->0@,
        o is None ==> text_or(o, d) == d && text_or_empty(o).len() == 0,
{
}

/// The texts of a list are those of its elements, in order.
pub proof fn texts_are_those_of_the_elements(s: Seq<String>, i: int)
    ensures
        texts(s).len() == s.len(),
        0 <= i < s.len() ==> texts(s)[i] == s[i]@,
{
}

} // verus!
