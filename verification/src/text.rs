//! Decimal text: the characters of a string and the numbers they spell.
//!
//! A whole number is written as decimal digits, with nothing before them
//! but an optional sign and nothing after them: `+` is accepted everywhere,
//! `-` only where the number may be negative.
//!
//! A number with a fraction is written, after an optional sign, as digits
//! with at most one point among them and at least one digit, and then
//! perhaps an `e`, an optional sign and digits; or as one of the words
//! `inf`, `infinity` and `nan`. Capitals count as small letters.

use vstd::prelude::*;
use vstd::string::StringExecFns;

verus! {

/// Whether `c` is one of the digits `0` to `9`.
pub open spec fn is_digit(c: char) -> bool {
    '0' <= c && c <= '9'
}

/// The number that a digit stands for.
pub open spec fn digit_value(c: char) -> nat {
    (c as int - '0' as int) as nat
}

/// Whether the text is made of digits only.
pub open spec fn all_digits(s: Seq<char>) -> bool {
    forall|i: int| 0 <= i < s.len() ==> is_digit(#[trigger] s[i])
}

/// The number that a row of digits spells, the last digit counting ones.
pub open spec fn digits_value(s: Seq<char>) -> nat
    decreases s.len(),
{
    if s.len() == 0 {
        0
    } else {
        10 * digits_value(s.drop_last()) + digit_value(s.last())
    }
}

/// The number that a row of digits spells, where the text is one and is not
/// empty.
pub open spec fn magnitude(s: Seq<char>) -> Option<nat> {
    if s.len() > 0 && all_digits(s) {
        Some(digits_value(s))
    } else {
        None
    }
}

/// The number that the text spells where no negative number is expected:
/// digits, after a `+` or after nothing.
pub open spec fn unsigned_value(s: Seq<char>) -> Option<nat> {
    if s.len() > 0 && s[0] == '+' {
        magnitude(s.skip(1))
    } else {
        magnitude(s)
    }
}

/// The number that the text spells where it may be negative: digits, after
/// a `+`, a `-` or nothing.
pub open spec fn signed_value(s: Seq<char>) -> Option<int> {
    if s.len() > 0 && s[0] == '-' {
        match magnitude(s.skip(1)) {
            Some(v) => Some(-(v as int)),
            None => None,
        }
    } else {
        match unsigned_value(s) {
            Some(v) => Some(v as int),
            None => None,
        }
    }
}

/// The `u32` that the text spells, if it spells one.
pub open spec fn parsed_u32(s: Seq<char>) -> Option<u32> {
    match unsigned_value(s) {
        Some(v) if v <= u32::MAX => Some(v as u32),
        _ => None,
    }
}

/// The `u8` that the text spells, if it spells one.
pub open spec fn parsed_u8(s: Seq<char>) -> Option<u8> {
    match unsigned_value(s) {
        Some(v) if v <= u8::MAX => Some(v as u8),
        _ => None,
    }
}

/// The `i32` that the text spells, if it spells one.
pub open spec fn parsed_i32(s: Seq<char>) -> Option<i32> {
    match signed_value(s) {
        Some(v) if i32::MIN <= v <= i32::MAX => Some(v as i32),
        _ => None,
    }
}

/// Whether `c` is a sign.
pub open spec fn is_sign(c: char) -> bool {
    c == '+' || c == '-'
}

/// Whether `c` is the small letter `letter` or its capital.
pub open spec fn is_letter(c: char, letter: char) -> bool {
    c == letter || ('a' <= letter && letter <= 'z' && c as int + 32 == letter as int)
}

/// Whether the text is `word`, a word in small letters, but for capitals.
pub open spec fn is_word(s: Seq<char>, word: Seq<char>) -> bool {
    s.len() == word.len() && forall|i: int| 0 <= i < s.len() ==> is_letter(#[trigger] s[i], word[i])
}

/// Where the row of digits that starts at `from` ends.
pub open spec fn digits_end(s: Seq<char>, from: int) -> int
    decreases s.len() - from,
{
    if from < 0 || from >= s.len() || !is_digit(s[from]) {
        from
    } else {
        digits_end(s, from + 1)
    }
}

/// Whether the text from `from` on is an exponent: an `e`, an optional
/// sign, and digits up to the end.
pub open spec fn spells_exponent(s: Seq<char>, from: int) -> bool {
    let digits = if from + 1 < s.len() && is_sign(s[from + 1]) {
        from + 2
    } else {
        from + 1
    };
    0 <= from < s.len() && is_letter(s[from], 'e') && digits < s.len() && digits_end(s, digits)
        == s.len()
}

/// Where the digits and the point of the number that starts at `from` end.
pub open spec fn mantissa_end(s: Seq<char>, from: int) -> int {
    let whole = digits_end(s, from);
    if whole < s.len() && s[whole] == '.' {
        digits_end(s, whole + 1)
    } else {
        whole
    }
}

/// How many digits the number that starts at `from` has before its
/// exponent.
pub open spec fn mantissa_digits(s: Seq<char>, from: int) -> int {
    let whole = digits_end(s, from);
    if whole < s.len() && s[whole] == '.' {
        mantissa_end(s, from) - from - 1
    } else {
        whole - from
    }
}

/// Whether the text from `from` on is a number in digits: digits with at
/// most one point among them, and then nothing or an exponent.
pub open spec fn spells_number(s: Seq<char>, from: int) -> bool {
    mantissa_digits(s, from) > 0 && (mantissa_end(s, from) == s.len() || spells_exponent(
        s,
        mantissa_end(s, from),
    ))
}

/// Whether the text spells a number with a fraction.
pub open spec fn spells_float(s: Seq<char>) -> bool {
    let from: int = if s.len() > 0 && is_sign(s[0]) {
        1
    } else {
        0
    };
    is_word(s.skip(from), "inf"@) || is_word(s.skip(from), "infinity"@) || is_word(
        s.skip(from),
        "nan"@,
    ) || spells_number(s, from)
}

/// The digit that stands for `d`, a number below ten.
pub open spec fn digit_char(d: nat) -> char {
    ('0' as nat + d) as char
}

/// The shortest row of digits that spells `n`.
pub open spec fn decimal_text(n: nat) -> Seq<char>
    decreases n,
{
    if n < 10 {
        seq![digit_char(n)]
    } else {
        decimal_text(n / 10).push(digit_char(n % 10))
    }
}

/// A row of digits spells at least what any of its beginnings spells.
pub proof fn lemma_digits_value_grows(s: Seq<char>, k: int)
    requires
        0 <= k <= s.len(),
    ensures
        digits_value(s.take(k)) <= digits_value(s),
    decreases s.len(),
{
    if k == s.len() {
        assert(s.take(k) =~= s);
    } else {
        assert(s.drop_last().take(k) =~= s.take(k));
        lemma_digits_value_grows(s.drop_last(), k);
    }
}

/// The characters of `s`, in order.
pub fn chars_of(s: &str) -> (chars: Vec<char>)
    ensures
        chars@ == s@,
{
    let mut chars: Vec<char> = Vec::new();
    for c in it: s.chars()
        invariant
            it.seq() == s@,
            chars@ == s@.take(it.index() as int),
    {
        chars.push(c);
    }
    chars
}

/// Whether the characters are those of `word`.
pub fn spells(chars: &Vec<char>, word: &str) -> (b: bool)
    ensures
        b == (chars@ == word@),
{
    let letters = chars_of(word);
    if chars.len() != letters.len() {
        return false;
    }
    let mut i: usize = 0;
    while i < chars.len()
        invariant
            i <= chars@.len(),
            chars@.len() == letters@.len(),
            letters@ == word@,
            forall|j: int| 0 <= j < i ==> chars@[j] == letters@[j],
        decreases chars@.len() - i,
    {
        if chars[i] != letters[i] {
            return false;
        }
        i += 1;
    }
    assert(chars@ =~= letters@);
    true
}

/// Reads the characters from `start` up to `end` as a row of digits that
/// spells no more than `limit`, a number that leaves room for one more
/// digit.
pub fn parse_magnitude(chars: &Vec<char>, start: usize, end: usize, limit: u64) -> (value: Option<
    u64,
>)
    requires
        start <= end <= chars@.len(),
        10 * limit + 9 <= u64::MAX,
    ensures
        value == (match magnitude(chars@.subrange(start as int, end as int)) {
            Some(v) if v <= limit => Some(v as u64),
            _ => None,
        }),
{
    let ghost digits = chars@.subrange(start as int, end as int);
    if start == end {
        return None;
    }
    let mut value: u64 = 0;
    let mut i: usize = start;
    while i < end
        invariant
            start <= i <= end <= chars@.len(),
            digits == chars@.subrange(start as int, end as int),
            10 * limit + 9 <= u64::MAX,
            all_digits(digits.take(i - start)),
            value == digits_value(digits.take(i - start)),
            value <= limit,
        decreases end - i,
    {
        let c = chars[i];
        assert(c == digits[i - start]);
        if !(c >= '0' && c <= '9') {
            return None;
        }
        let ghost before = digits.take(i - start);
        let ghost after = digits.take(i - start + 1);
        assert(after.drop_last() =~= before);
        assert(after.last() == c);
        assert(all_digits(after)) by {
            assert forall|j: int| 0 <= j < after.len() implies is_digit(#[trigger] after[j]) by {
                if j < before.len() {
                    assert(after[j] == before[j]);
                }
            }
        }
        value = value * 10 + (c as u64 - '0' as u64);
        if value > limit {
            proof {
                lemma_digits_value_grows(digits, i - start + 1);
            }
            return None;
        }
        i += 1;
    }
    assert(digits.take(end - start) =~= digits);
    Some(value)
}

/// Reads the characters from `start` up to `end` as a number that is not
/// negative and no more than `limit`, a number that leaves room for one
/// more digit.
pub fn parse_unsigned(chars: &Vec<char>, start: usize, end: usize, limit: u64) -> (value: Option<
    u64,
>)
    requires
        start <= end <= chars@.len(),
        10 * limit + 9 <= u64::MAX,
    ensures
        value == (match unsigned_value(chars@.subrange(start as int, end as int)) {
            Some(v) if v <= limit => Some(v as u64),
            _ => None,
        }),
{
    let ghost text = chars@.subrange(start as int, end as int);
    if start < end && chars[start] == '+' {
        assert(text[0] == '+');
        assert(text.skip(1) =~= chars@.subrange(start + 1, end as int));
        parse_magnitude(chars, start + 1, end, limit)
    } else {
        assert(start < end ==> text[0] == chars@[start as int]);
        parse_magnitude(chars, start, end, limit)
    }
}

/// Reads the text as a `u32`.
pub fn parse_u32(s: &str) -> (value: Option<u32>)
    ensures
        value == parsed_u32(s@),
{
    let chars = chars_of(s);
    assert(chars@.subrange(0, chars@.len() as int) =~= s@);
    match parse_unsigned(&chars, 0, chars.len(), u32::MAX as u64) {
        Some(v) => Some(v as u32),
        None => None,
    }
}

/// Reads the text as a `u8`.
pub fn parse_u8(s: &str) -> (value: Option<u8>)
    ensures
        value == parsed_u8(s@),
{
    let chars = chars_of(s);
    assert(chars@.subrange(0, chars@.len() as int) =~= s@);
    match parse_unsigned(&chars, 0, chars.len(), u8::MAX as u64) {
        Some(v) => Some(v as u8),
        None => None,
    }
}

/// Reads the text as an `i32`.
pub fn parse_i32(s: &str) -> (value: Option<i32>)
    ensures
        value == parsed_i32(s@),
{
    let chars = chars_of(s);
    assert(chars@.subrange(0, chars@.len() as int) =~= s@);
    if chars.len() > 0 && chars[0] == '-' {
        assert(s@.skip(1) =~= chars@.subrange(1, chars@.len() as int));
        match parse_magnitude(&chars, 1, chars.len(), 0x8000_0000) {
            Some(v) => Some((-(v as i64)) as i32),
            None => None,
        }
    } else {
        match parse_unsigned(&chars, 0, chars.len(), i32::MAX as u64) {
            Some(v) => Some(v as i32),
            None => None,
        }
    }
}

/// Finds where the row of digits that starts at `from` ends.
fn find_digits_end(chars: &Vec<char>, from: usize) -> (end: usize)
    requires
        from <= chars@.len(),
    ensures
        end == digits_end(chars@, from as int),
        from <= end <= chars@.len(),
{
    let mut end: usize = from;
    while end < chars.len() && chars[end] >= '0' && chars[end] <= '9'
        invariant
            from <= end <= chars@.len(),
            digits_end(chars@, from as int) == digits_end(chars@, end as int),
        decreases chars@.len() - end,
    {
        end += 1;
    }
    end
}

/// Whether `c` is the small letter `letter` or its capital.
fn letter_is(c: char, letter: char) -> (b: bool)
    ensures
        b == is_letter(c, letter),
{
    c == letter || (letter >= 'a' && letter <= 'z' && c as u32 + 32 == letter as u32)
}

/// Whether the characters from `from` on are `word`, a word in small
/// letters, but for capitals.
fn word_is(chars: &Vec<char>, from: usize, word: &str) -> (b: bool)
    requires
        from <= chars@.len(),
    ensures
        b == is_word(chars@.skip(from as int), word@),
{
    let letters = chars_of(word);
    let ghost rest = chars@.skip(from as int);
    if chars.len() - from != letters.len() {
        return false;
    }
    let mut i: usize = 0;
    while i < letters.len()
        invariant
            i <= letters@.len(),
            from <= chars@.len(),
            chars@.len() - from == letters@.len(),
            chars@.len() == chars.len(),
            letters@ == word@,
            rest == chars@.skip(from as int),
            forall|j: int| 0 <= j < i ==> is_letter(#[trigger] rest[j], letters@[j]),
        decreases letters@.len() - i,
    {
        assert(rest[i as int] == chars@[from + i]);
        if !letter_is(chars[from + i], letters[i]) {
            return false;
        }
        i += 1;
    }
    true
}

/// Whether the characters from `from` on are an exponent.
fn exponent_is(chars: &Vec<char>, from: usize) -> (b: bool)
    requires
        from <= chars@.len(),
    ensures
        b == spells_exponent(chars@, from as int),
{
    if from >= chars.len() || !letter_is(chars[from], 'e') {
        return false;
    }
    let digits: usize = if from + 1 < chars.len() && (chars[from + 1] == '+' || chars[from + 1]
        == '-') {
        from + 2
    } else {
        from + 1
    };
    digits < chars.len() && find_digits_end(chars, digits) == chars.len()
}

/// Whether the characters from `from` on are a number in digits.
fn number_is(chars: &Vec<char>, from: usize) -> (b: bool)
    requires
        from <= chars@.len(),
    ensures
        b == spells_number(chars@, from as int),
{
    let whole = find_digits_end(chars, from);
    if whole < chars.len() && chars[whole] == '.' {
        let end = find_digits_end(chars, whole + 1);
        end - from - 1 > 0 && (end == chars.len() || exponent_is(chars, end))
    } else {
        whole - from > 0 && (whole == chars.len() || exponent_is(chars, whole))
    }
}

/// Whether the text spells a number with a fraction.
pub fn is_float(s: &str) -> (b: bool)
    ensures
        b == spells_float(s@),
{
    let chars = chars_of(s);
    let from: usize = if chars.len() > 0 && (chars[0] == '+' || chars[0] == '-') {
        1
    } else {
        0
    };
    word_is(&chars, from, "inf") || word_is(&chars, from, "infinity") || word_is(
        &chars,
        from,
        "nan",
    ) || number_is(&chars, from)
}

/// The digit that stands for `d`, as text.
fn digit_text(d: u32) -> (text: &'static str)
    requires
        d < 10,
    ensures
        text@ == seq![digit_char(d as nat)],
{
    proof {
        reveal_strlit("0");
        reveal_strlit("1");
        reveal_strlit("2");
        reveal_strlit("3");
        reveal_strlit("4");
        reveal_strlit("5");
        reveal_strlit("6");
        reveal_strlit("7");
        reveal_strlit("8");
        reveal_strlit("9");
    }
    let text = match d {
        0 => "0",
        1 => "1",
        2 => "2",
        3 => "3",
        4 => "4",
        5 => "5",
        6 => "6",
        7 => "7",
        8 => "8",
        _ => "9",
    };
    assert(text@ =~= seq![digit_char(d as nat)]);
    text
}

/// Writes `n` in decimal digits.
pub fn decimal(n: u32) -> (text: String)
    ensures
        text@ == decimal_text(n as nat),
    decreases n,
{
    if n < 10 {
        String::from_str(digit_text(n))
    } else {
        let text = decimal(n / 10).concat(digit_text(n % 10));
        assert(text@ =~= decimal_text((n / 10) as nat).push(digit_char((n % 10) as nat)));
        text
    }
}

/// The decimal digits of a number spell that number.
pub proof fn law_decimal_round_trip(n: nat)
    ensures
        magnitude(decimal_text(n)) == Some(n),
        unsigned_value(decimal_text(n)) == Some(n),
        signed_value(decimal_text(n)) == Some(n as int),
    decreases n,
{
    let text = decimal_text(n);
    if n < 10 {
        assert(text.drop_last() =~= Seq::<char>::empty());
        assert(digits_value(text.drop_last()) == 0);
    } else {
        law_decimal_round_trip(n / 10);
        let front = decimal_text(n / 10);
        assert(text.drop_last() =~= front);
        assert(is_digit(front[0]));
        assert(text[0] == front[0]);
        assert(all_digits(text)) by {
            assert forall|i: int| 0 <= i < text.len() implies is_digit(#[trigger] text[i]) by {
                if i < front.len() {
                    assert(text[i] == front[i]);
                }
            }
        }
    }
    assert(is_digit(text[0]));
}

} // verus!
