//! Small verified helpers for working with text as sequences of characters.
use vstd::prelude::*;

verus! {

/// The result of `str::to_lowercase` on a text, as a function of that text.
/// What Unicode says of each character is not written out here.
pub uninterp spec fn lowercase(s: Seq<char>) -> Seq<char>;

/// `str::to_lowercase`: the returned string is the lowercase equivalent of
/// the input, and depends on nothing but the input's characters.
pub assume_specification[ str::to_lowercase ](s: &str) -> (r: String)
    ensures
        r@ == lowercase(s@),
;

/// `String::push`: appends one character at the end of the string.
pub assume_specification[ String::push ](s: &mut String, c: char)
    ensures
        final(s)@ == old(s)@.push(c),
;

/// `char::from_u32`: `Some` of the character with that code when the code is
/// a Unicode scalar value (not a surrogate, at most 0x10FFFF), else `None`.
pub assume_specification[ char::from_u32 ](i: u32) -> (r: Option<char>)
    ensures
        r == (if is_scalar_value(i as int) {
            Some(i as char)
        } else {
            None
        }),
;

/// Whether `code` is the code of a character.
pub open spec fn is_scalar_value(code: int) -> bool {
    0 <= code <= 0xD7FF || 0xE000 <= code <= 0x10FFFF
}

/// Copies the characters of `s` into a vector.
pub fn to_chars(s: &str) -> (v: Vec<char>)
    ensures
        v@ == s@,
{
    let n = s.unicode_len();
    let mut v: Vec<char> = Vec::new();
    let mut i: usize = 0;
    while i < n
        invariant
            n == s@.len(),
            i <= n,
            v@ == s@.subrange(0, i as int),
        decreases n - i,
    {
        v.push(s.get_char(i));
        i += 1;
    }
    v
}

/// Whether two texts hold the same characters.
pub fn same_text(a: &str, b: &str) -> (r: bool)
    ensures
        r == (a@ == b@),
{
    let n = a.unicode_len();
    if b.unicode_len() != n {
        return false;
    }
    let mut i: usize = 0;
    while i < n
        invariant
            n == a@.len(),
            n == b@.len(),
            i <= n,
            a@.subrange(0, i as int) == b@.subrange(0, i as int),
        decreases n - i,
    {
        if a.get_char(i) != b.get_char(i) {
            return false;
        }
        i += 1;
    }
    assert(a@.subrange(0, n as int) =~= a@);
    assert(b@.subrange(0, n as int) =~= b@);
    true
}

/// The character of a decimal digit.
pub open spec fn digit(d: nat) -> char {
    (('0' as nat) + d) as char
}

/// A number written in decimal, without leading zeros.
pub open spec fn decimal(n: nat) -> Seq<char>
    decreases n,
{
    if n < 10 {
        seq![digit(n)]
    } else {
        decimal(n / 10).push(digit(n % 10))
    }
}

/// The character of a decimal digit.
fn digit_char(d: u8) -> (c: char)
    requires
        d < 10,
    ensures
        c == digit(d as nat),
{
    (48u8 + d) as char
}

/// Appends `n` in decimal to `out`.
pub fn push_decimal(out: &mut String, n: u8)
    ensures
        final(out)@ == old(out)@ + decimal(n as nat),
{
    reveal_with_fuel(decimal, 3);
    if n >= 100 {
        out.push(digit_char(n / 100));
        out.push(digit_char(n / 10 % 10));
        out.push(digit_char(n % 10));
    } else if n >= 10 {
        out.push(digit_char(n / 10));
        out.push(digit_char(n % 10));
    } else {
        out.push(digit_char(n));
    }
}

/// Whether `c` is white space: a character with the Unicode property
/// `White_Space`.
pub open spec fn is_space(c: char) -> bool {
    let code = c as int;
    ||| 0x09 <= code <= 0x0D
    ||| code == 0x20
    ||| code == 0x85
    ||| code == 0xA0
    ||| code == 0x1680
    ||| 0x2000 <= code <= 0x200A
    ||| code == 0x2028
    ||| code == 0x2029
    ||| code == 0x202F
    ||| code == 0x205F
    ||| code == 0x3000
}

/// Whether `c` is white space.
pub fn is_white_space(c: char) -> (r: bool)
    ensures
        r == is_space(c),
{
    let code: u32 = c as u32;
    (0x09 <= code && code <= 0x0D) || code == 0x20 || code == 0x85 || code == 0xA0 || code
        == 0x1680 || (0x2000 <= code && code <= 0x200A) || code == 0x2028 || code == 0x2029
        || code == 0x202F || code == 0x205F || code == 0x3000
}

/// The first position from `from` on that holds no white space, or the
/// length of the text.
pub open spec fn skip_spaces(s: Seq<char>, from: int) -> int
    decreases s.len() - from,
{
    if 0 <= from < s.len() && is_space(s[from]) {
        skip_spaces(s, from + 1)
    } else {
        from
    }
}

/// The end of the text before position `to` once the white space at its
/// end is dropped; never before `low`.
pub open spec fn skip_spaces_back(s: Seq<char>, low: int, to: int) -> int
    decreases to,
{
    if low < to <= s.len() && 0 < to && is_space(s[to - 1]) {
        skip_spaces_back(s, low, to - 1)
    } else {
        to
    }
}

/// The part of the text from `from` to `to` without the white space at its
/// start and at its end.
pub open spec fn trimmed(s: Seq<char>, from: int, to: int) -> Seq<char> {
    let start = skip_spaces(s.subrange(0, to), from);
    s.subrange(start, skip_spaces_back(s, start, to))
}

/// The bounds of the part of `s` from `from` to `to` without the white
/// space at its start and at its end.
pub fn trim(s: &Vec<char>, from: usize, to: usize) -> (r: (usize, usize))
    requires
        from <= to <= s@.len(),
    ensures
        from <= r.0 <= r.1 <= to,
        s@.subrange(r.0 as int, r.1 as int) == trimmed(s@, from as int, to as int),
{
    let ghost head = s@.subrange(0, to as int);
    let mut start = from;
    while start < to && is_white_space(s[start])
        invariant
            from <= start <= to <= s@.len(),
            head == s@.subrange(0, to as int),
            skip_spaces(head, start as int) == skip_spaces(head, from as int),
        decreases to - start,
    {
        start += 1;
    }
    let mut end = to;
    while start < end && is_white_space(s[end - 1])
        invariant
            start <= end <= to <= s@.len(),
            skip_spaces_back(s@, start as int, end as int) == skip_spaces_back(
                s@,
                start as int,
                to as int,
            ),
        decreases end,
    {
        end -= 1;
    }
    (start, end)
}

/// The first position from `from` on that holds `c`, or the length of the
/// text.
pub open spec fn position_of(s: Seq<char>, c: char, from: int) -> int
    decreases s.len() - from,
{
    if 0 <= from < s.len() && s[from] != c {
        position_of(s, c, from + 1)
    } else {
        from
    }
}

/// The first position from `from` on that holds `c`, or the length of the
/// text.
pub fn find(s: &Vec<char>, c: char, from: usize) -> (r: usize)
    requires
        from <= s@.len(),
    ensures
        r == position_of(s@, c, from as int),
        from <= r <= s@.len(),
{
    let mut i = from;
    while i < s.len() && s[i] != c
        invariant
            from <= i <= s@.len(),
            position_of(s@, c, i as int) == position_of(s@, c, from as int),
        decreases s@.len() - i,
    {
        i += 1;
    }
    i
}

/// The value of a decimal digit, or `None` for any other character.
pub open spec fn decimal_digit(c: char) -> Option<int> {
    if '0' <= c <= '9' {
        Some(c as int - 0x30)
    } else {
        None
    }
}

/// The value of a hexadecimal digit of either case, or `None` for any
/// other character.
pub open spec fn hex_digit(c: char) -> Option<int> {
    if '0' <= c <= '9' {
        Some(c as int - 0x30)
    } else if 'a' <= c <= 'f' {
        Some(c as int - 0x61 + 10)
    } else if 'A' <= c <= 'F' {
        Some(c as int - 0x41 + 10)
    } else {
        None
    }
}

/// The value of a hexadecimal digit of either case.
pub fn hex_digit_value(c: char) -> (r: Option<u8>)
    ensures
        r is Some <==> hex_digit(c) is Some,
        r is Some ==> r->0 == hex_digit(c)->0 && r->0 < 16,
{
    let code: u32 = c as u32;
    if 0x30 <= code && code <= 0x39 {
        Some((code - 0x30) as u8)
    } else if 0x61 <= code && code <= 0x66 {
        Some((code - 0x61 + 10) as u8)
    } else if 0x41 <= code && code <= 0x46 {
        Some((code - 0x41 + 10) as u8)
    } else {
        None
    }
}

/// The value of a decimal digit.
pub fn decimal_digit_value(c: char) -> (r: Option<u8>)
    ensures
        r is Some <==> decimal_digit(c) is Some,
        r is Some ==> r->0 == decimal_digit(c)->0 && r->0 < 10,
{
    let code: u32 = c as u32;
    if 0x30 <= code && code <= 0x39 {
        Some((code - 0x30) as u8)
    } else {
        None
    }
}

/// Whether every character of the text is a decimal digit.
pub open spec fn all_digits(s: Seq<char>) -> bool {
    forall|i: int| 0 <= i < s.len() ==> decimal_digit(#[trigger] s[i]) is Some
}

/// The number that the decimal digits of the text write.
pub open spec fn decimal_value(s: Seq<char>) -> int
    decreases s.len(),
{
    if s.len() == 0 {
        0
    } else {
        10 * decimal_value(s.drop_last()) + decimal_digit(s.last()).unwrap_or(0)
    }
}

/// The number from 0 to 255 that a text writes in decimal: one or more
/// digits, which may follow a plus sign. `None` for any other text.
pub open spec fn byte_value(s: Seq<char>) -> Option<u8> {
    let digits = if s.len() > 0 && s[0] == '+' {
        s.drop_first()
    } else {
        s
    };
    if digits.len() > 0 && all_digits(digits) && decimal_value(digits) <= 255 {
        Some(decimal_value(digits) as u8)
    } else {
        None
    }
}

/// A number only grows when a digit is written after it.
proof fn lemma_decimal_value_grows(s: Seq<char>, n: int)
    requires
        0 <= n <= s.len(),
        all_digits(s),
    ensures
        0 <= decimal_value(s.subrange(0, n)) <= decimal_value(s),
    decreases s.len() - n,
{
    if n == s.len() {
        assert(s.subrange(0, n) =~= s);
        lemma_decimal_value_nonnegative(s);
    } else {
        lemma_decimal_value_grows(s, n + 1);
        let longer = s.subrange(0, n + 1);
        assert(longer.drop_last() =~= s.subrange(0, n));
        lemma_decimal_value_nonnegative(s.subrange(0, n));
    }
}

/// A number written with digits is not negative.
proof fn lemma_decimal_value_nonnegative(s: Seq<char>)
    ensures
        0 <= decimal_value(s),
    decreases s.len(),
{
    if s.len() > 0 {
        lemma_decimal_value_nonnegative(s.drop_last());
    }
}

/// Reads the part of `s` from `from` to `to` as a number from 0 to 255.
pub fn parse_byte(s: &Vec<char>, from: usize, to: usize) -> (r: Option<u8>)
    requires
        from <= to <= s@.len(),
    ensures
        r == byte_value(s@.subrange(from as int, to as int)),
{
    let ghost part = s@.subrange(from as int, to as int);
    let start = if from < to && s[from] == '+' {
        from + 1
    } else {
        from
    };
    let ghost digits = s@.subrange(start as int, to as int);
    if start == to {
        return None;
    }
    let mut value: u16 = 0;
    let mut i = start;
    while i < to
        invariant
            start <= i <= to <= s@.len(),
            start < to,
            part == s@.subrange(from as int, to as int),
            digits == s@.subrange(start as int, to as int),
            digits == (if part.len() > 0 && part[0] == '+' {
                part.drop_first()
            } else {
                part
            }),
            all_digits(digits.subrange(0, i - start)),
            value == decimal_value(digits.subrange(0, i - start)),
            value <= 255,
        decreases to - i,
    {
        let digit = match decimal_digit_value(s[i]) {
            Some(d) => d,
            None => {
                assert(decimal_digit(digits[i - start]) is None);
                return None;
            },
        };
        assert(digits.subrange(0, i - start + 1).drop_last() =~= digits.subrange(0, i - start));
        value = value * 10 + digit as u16;
        if value > 255 {
            proof {
                if all_digits(digits) {
                    lemma_decimal_value_grows(digits, i - start + 1);
                }
            }
            return None;
        }
        i += 1;
    }
    assert(digits.subrange(0, to - start) =~= digits);
    Some(value as u8)
}

/// The character of a hexadecimal digit, a letter in upper case.
pub open spec fn hex_char(d: int) -> char {
    if d < 10 {
        (0x30 + d) as char
    } else {
        (0x41 + d - 10) as char
    }
}

/// The character of a hexadecimal digit, a letter in upper case.
pub fn hex_digit_char(d: u8) -> (c: char)
    requires
        d < 16,
    ensures
        c == hex_char(d as int),
{
    if d < 10 {
        (0x30u8 + d) as char
    } else {
        (0x41u8 + d - 10) as char
    }
}

} // verus!
