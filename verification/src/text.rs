//! Text helpers: the formatting and matching that the rest of the crate does
//! on strings, each stated over the sequence of characters.

use vstd::prelude::*;

verus! {

/// `String::push` appends one character.
pub assume_specification[ std::string::String::push ](s: &mut String, c: char)
    ensures
        final(s)@ == old(s)@.push(c),
;

/// The character of a digit below sixteen, lower case above nine.
pub open spec fn digit_char(d: nat) -> char {
    if d < 10 {
        (48 + d) as char
    } else {
        (87 + d) as char
    }
}

/// A number written in `base`, without leading zeros.
pub open spec fn digits_text(n: nat, base: nat) -> Seq<char>
    decreases n,
{
    if base < 2 || n < base {
        seq![digit_char(n)]
    } else {
        proof {
            assert(n / base < n) by (nonlinear_arith)
                requires
                    base >= 2,
                    n >= base,
            ;
        }
        digits_text(n / base, base).push(digit_char(n % base))
    }
}

/// A natural number in decimal.
pub open spec fn decimal_text(n: nat) -> Seq<char> {
    digits_text(n, 10)
}

/// An integer in decimal, with a minus sign where it is negative.
pub open spec fn signed_text(n: int) -> Seq<char> {
    if n < 0 {
        seq!['-'] + decimal_text((-n) as nat)
    } else {
        decimal_text(n as nat)
    }
}

/// A natural number in lower-case hexadecimal, without a prefix.
pub open spec fn hex_text(n: nat) -> Seq<char> {
    digits_text(n, 16)
}

/// `text` with zeros in front, up to `width` characters.
pub open spec fn zero_padded(text: Seq<char>, width: nat) -> Seq<char> {
    if text.len() < width {
        Seq::new((width - text.len()) as nat, |i: int| '0') + text
    } else {
        text
    }
}

/// `text` begins with `prefix`.
pub open spec fn has_prefix(text: Seq<char>, prefix: Seq<char>) -> bool {
    prefix.len() <= text.len() && text.subrange(0, prefix.len() as int) == prefix
}

/// `text` ends with `suffix`.
pub open spec fn has_suffix(text: Seq<char>, suffix: Seq<char>) -> bool {
    suffix.len() <= text.len() && text.subrange(text.len() - suffix.len(), text.len() as int)
        == suffix
}

/// `part` stands somewhere in `text`, in one piece.
pub open spec fn has_part(text: Seq<char>, part: Seq<char>) -> bool {
    exists|i: int|
        0 <= i && i + part.len() <= text.len() && #[trigger] text.subrange(i, i + part.len()) == part
}

/// The lower-case form of an ASCII letter; any other character as it is.
pub open spec fn lower_char(c: char) -> char {
    if 'A' <= c && c <= 'Z' {
        (c as u32 + 32) as char
    } else {
        c
    }
}

/// `text` with its ASCII letters in lower case.
pub open spec fn lower_text(text: Seq<char>) -> Seq<char> {
    text.map_values(|c: char| lower_char(c))
}

/// Why a text is no number.
#[derive(Debug, Clone, Copy, PartialEq, Eq, Structural)]
pub enum NumberError {
    /// There is no character at all.
    Empty,
    /// A character is not a decimal digit.
    InvalidDigit,
    /// The number does not fit.
    Overflow,
}

/// A decimal digit.
pub open spec fn is_digit(c: char) -> bool {
    '0' <= c && c <= '9'
}

/// The number that a run of digits spells when `value` stands before it.
///
/// The first character that is no digit, or that makes the number exceed 64
/// bits, decides the error.
pub open spec fn digits_value(digits: Seq<char>, value: nat) -> Result<nat, NumberError>
    decreases digits.len(),
{
    if digits.len() == 0 {
        Ok(value)
    } else if !is_digit(digits[0]) {
        Err(NumberError::InvalidDigit)
    } else {
        let next = value * 10 + (digits[0] as nat - 48) as nat;
        if next > u64::MAX {
            Err(NumberError::Overflow)
        } else {
            digits_value(digits.subrange(1, digits.len() as int), next)
        }
    }
}

/// The 64-bit number that a text spells: decimal digits, with an optional plus
/// sign in front.
pub open spec fn number_of_text(text: Seq<char>) -> Result<nat, NumberError> {
    if text.len() == 0 {
        Err(NumberError::Empty)
    } else if text[0] == '+' && text.len() > 1 {
        digits_value(text.subrange(1, text.len() as int), 0)
    } else {
        digits_value(text, 0)
    }
}

proof fn lemma_digits_value_push(digits: Seq<char>, value: nat, c: char)
    ensures
        digits_value(digits.push(c), value) == match digits_value(digits, value) {
            Err(e) => Err(e),
            Ok(v) => if !is_digit(c) {
                Err(NumberError::InvalidDigit)
            } else if v * 10 + (c as nat - 48) as nat > u64::MAX {
                Err(NumberError::Overflow)
            } else {
                Ok((v * 10 + (c as nat - 48) as nat) as nat)
            },
        },
    decreases digits.len(),
{
    let all = digits.push(c);
    if digits.len() == 0 {
        assert(all.subrange(1, all.len() as int) =~= Seq::empty());
        reveal_with_fuel(digits_value, 2);
    } else {
        assert(all[0] == digits[0]);
        assert(all.subrange(1, all.len() as int) =~= digits.subrange(
            1,
            digits.len() as int,
        ).push(c));
        if is_digit(digits[0]) {
            let next = value * 10 + (digits[0] as nat - 48) as nat;
            if next <= u64::MAX {
                lemma_digits_value_push(digits.subrange(1, digits.len() as int), next, c);
            }
        }
    }
}

proof fn lemma_decimal_is_digits(n: nat)
    requires
        n <= u64::MAX,
    ensures
        digits_value(decimal_text(n), 0) == Ok::<nat, NumberError>(n),
        decimal_text(n).len() > 0,
        is_digit(decimal_text(n)[0]),
    decreases n,
{
    if n < 10 {
        reveal_with_fuel(digits_value, 2);
        assert(decimal_text(n) =~= seq![digit_char(n)]);
        assert(decimal_text(n).subrange(1, 1) =~= Seq::empty());
    } else {
        lemma_decimal_is_digits(n / 10);
        lemma_digits_value_push(decimal_text(n / 10), 0, digit_char(n % 10));
    }
}

/// A number in decimal consists of digits alone.
pub proof fn decimal_text_is_digits(n: nat)
    ensures
        forall|i: int|
            0 <= i < decimal_text(n).len() ==> is_digit(#[trigger] decimal_text(n)[i]),
    decreases n,
{
    if n >= 10 {
        decimal_text_is_digits(n / 10);
        let head = decimal_text(n / 10);
        assert(decimal_text(n) == head.push(digit_char(n % 10)));
        assert forall|i: int| 0 <= i < decimal_text(n).len() implies is_digit(
            #[trigger] decimal_text(n)[i],
        ) by {
            if i < head.len() {
                assert(decimal_text(n)[i] == head[i]);
            }
        }
    }
}

/// A 64-bit number written in decimal reads back as itself.
pub proof fn decimal_text_reads_back(n: u64)
    ensures
        number_of_text(decimal_text(n as nat)) == Ok::<nat, NumberError>(n as nat),
{
    lemma_decimal_is_digits(n as nat);
}

proof fn lemma_digits_fit(digits: Seq<char>, value: nat)
    requires
        value <= u64::MAX,
    ensures
        digits_value(digits, value) matches Ok(n) ==> n <= u64::MAX,
    decreases digits.len(),
{
    if digits.len() > 0 && is_digit(digits[0]) {
        let next = value * 10 + (digits[0] as nat - 48) as nat;
        if next <= u64::MAX {
            lemma_digits_fit(digits.subrange(1, digits.len() as int), next);
        }
    }
}

/// A number that is read from text has 64 bits.
pub proof fn numbers_fit(text: Seq<char>)
    ensures
        number_of_text(text) matches Ok(n) ==> n <= u64::MAX,
{
    lemma_digits_fit(text, 0);
    if text.len() > 0 {
        lemma_digits_fit(text.subrange(1, text.len() as int), 0);
    }
}

/// The 64-bit number that `text` spells.
pub fn parse_u64(text: &str) -> (r: Result<u64, NumberError>)
    ensures
        match number_of_text(text@) {
            Ok(n) => r is Ok && r->Ok_0 == n,
            Err(e) => r is Err && r->Err_0 == e,
        },
{
    let chars = chars_of(text);
    if chars.len() == 0 {
        return Err(NumberError::Empty);
    }
    let start: usize = if chars[0] == '+' && chars.len() > 1 { 1 } else { 0 };
    let mut value: u64 = 0;
    let mut i: usize = start;
    let ghost whole = number_of_text(text@);
    assert(text@.subrange(0, text@.len() as int) =~= text@);
    while i < chars.len()
        invariant
            i <= chars.len(),
            chars@ == text@,
            whole == number_of_text(text@),
            whole == digits_value(text@.subrange(i as int, text@.len() as int), value as nat),
        decreases chars.len() - i,
    {
        let c = chars[i];
        let ghost rest = text@.subrange(i as int, text@.len() as int);
        assert(rest[0] == c);
        assert(rest.subrange(1, rest.len() as int) =~= text@.subrange(i + 1, text@.len() as int));
        if c < '0' || c > '9' {
            return Err(NumberError::InvalidDigit);
        }
        let next: u128 = value as u128 * 10 + (c as u128 - 48);
        if next > u64::MAX as u128 {
            return Err(NumberError::Overflow);
        }
        value = next as u64;
        i += 1;
    }
    Ok(value)
}

/// Whether a character has Unicode's `White_Space` property.
pub open spec fn white_space(c: char) -> bool {
    let n = c as u32;
    ||| 0x9 <= n <= 0xD
    ||| n == 0x20
    ||| n == 0x85
    ||| n == 0xA0
    ||| n == 0x1680
    ||| 0x2000 <= n <= 0x200A
    ||| n == 0x2028
    ||| n == 0x2029
    ||| n == 0x202F
    ||| n == 0x205F
    ||| n == 0x3000
}

fn is_white_space(c: char) -> (r: bool)
    ensures
        r == white_space(c),
{
    let n: u32 = c as u32;
    (0x9 <= n && n <= 0xD) || n == 0x20 || n == 0x85 || n == 0xA0 || n == 0x1680 || (0x2000 <= n
        && n <= 0x200A) || n == 0x2028 || n == 0x2029 || n == 0x202F || n == 0x205F || n == 0x3000
}

/// `text` without the white space in front.
pub open spec fn without_leading_space(text: Seq<char>) -> Seq<char>
    decreases text.len(),
{
    if text.len() > 0 && white_space(text[0]) {
        without_leading_space(text.subrange(1, text.len() as int))
    } else {
        text
    }
}

/// `text` without the white space at its end.
pub open spec fn without_trailing_space(text: Seq<char>) -> Seq<char>
    decreases text.len(),
{
    if text.len() > 0 && white_space(text.last()) {
        without_trailing_space(text.drop_last())
    } else {
        text
    }
}

/// `text` without the white space around it.
pub open spec fn trimmed(text: Seq<char>) -> Seq<char> {
    without_trailing_space(without_leading_space(text))
}

/// `text` without the white space around it.
pub fn trim(text: &str) -> (r: String)
    ensures
        r@ == trimmed(text@),
{
    let chars = chars_of(text);
    let mut start: usize = 0;
    assert(text@.subrange(0, text@.len() as int) =~= text@);
    while start < chars.len() && is_white_space(chars[start])
        invariant
            start <= chars.len(),
            chars@ == text@,
            without_leading_space(text@) == without_leading_space(
                text@.subrange(start as int, text@.len() as int),
            ),
        decreases chars.len() - start,
    {
        let ghost rest = text@.subrange(start as int, text@.len() as int);
        assert(rest.subrange(1, rest.len() as int) =~= text@.subrange(
            start + 1,
            text@.len() as int,
        ));
        start += 1;
    }
    let mut end: usize = chars.len();
    while end > start && is_white_space(chars[end - 1])
        invariant
            start <= end <= chars.len(),
            chars@ == text@,
            trimmed(text@) == without_trailing_space(text@.subrange(start as int, end as int)),
        decreases end,
    {
        let ghost rest = text@.subrange(start as int, end as int);
        assert(rest.drop_last() =~= text@.subrange(start as int, end - 1));
        end -= 1;
    }
    let mut out = String::new();
    let mut i: usize = start;
    while i < end
        invariant
            start <= i <= end <= chars.len(),
            chars@ == text@,
            out@ == text@.subrange(start as int, i as int),
        decreases end - i,
    {
        out.push(chars[i]);
        i += 1;
    }
    out
}

/// `text` without the white space at its end.
pub fn trim_end(text: &str) -> (r: String)
    ensures
        r@ == without_trailing_space(text@),
{
    let chars = chars_of(text);
    let mut end: usize = chars.len();
    assert(text@.subrange(0, text@.len() as int) =~= text@);
    while end > 0 && is_white_space(chars[end - 1])
        invariant
            end <= chars.len(),
            chars@ == text@,
            without_trailing_space(text@) == without_trailing_space(
                text@.subrange(0, end as int),
            ),
        decreases end,
    {
        let ghost rest = text@.subrange(0, end as int);
        assert(rest.drop_last() =~= text@.subrange(0, end - 1));
        end -= 1;
    }
    let mut out = String::new();
    let mut i: usize = 0;
    while i < end
        invariant
            i <= end <= chars.len(),
            chars@ == text@,
            out@ == text@.subrange(0, i as int),
        decreases end - i,
    {
        out.push(chars[i]);
        i += 1;
    }
    out
}

/// `char::from_u32`: the character of a Unicode scalar value, and `None` for a
/// surrogate or a number past the last one.
pub assume_specification[ char::from_u32 ](i: u32) -> (r: Option<char>)
    ensures
        r is Some <==> (i < 0xD800 || 0xDFFF < i <= 0x10FFFF),
        r is Some ==> r->0 == i as char,
;

/// A UTF-16 unit that begins a pair.
pub open spec fn is_high_surrogate(u: u16) -> bool {
    0xD800 <= u <= 0xDBFF
}

/// A UTF-16 unit that ends a pair.
pub open spec fn is_low_surrogate(u: u16) -> bool {
    0xDC00 <= u <= 0xDFFF
}

/// The text of UTF-16 units, with the replacement character for each surrogate
/// that is not part of a pair.
pub open spec fn utf16_text(units: Seq<u16>) -> Seq<char>
    decreases units.len(),
{
    if units.len() == 0 {
        Seq::empty()
    } else if !is_high_surrogate(units[0]) && !is_low_surrogate(units[0]) {
        seq![units[0] as char] + utf16_text(units.subrange(1, units.len() as int))
    } else if is_high_surrogate(units[0]) && units.len() > 1 && is_low_surrogate(units[1]) {
        seq![(0x10000 + (units[0] - 0xD800) * 0x400 + (units[1] - 0xDC00)) as char]
            + utf16_text(units.subrange(2, units.len() as int))
    } else {
        seq!['\u{FFFD}'] + utf16_text(units.subrange(1, units.len() as int))
    }
}

/// Decode UTF-16, with the replacement character for what is not valid.
pub fn utf16_lossy(units: &Vec<u16>) -> (r: String)
    ensures
        r@ == utf16_text(units@),
{
    let mut out = String::new();
    let mut i: usize = 0;
    assert(units@.subrange(0, units@.len() as int) =~= units@);
    assert(out@ + utf16_text(units@) =~= utf16_text(units@));
    while i < units.len()
        invariant
            i <= units.len(),
            out@ + utf16_text(units@.subrange(i as int, units@.len() as int)) == utf16_text(
                units@,
            ),
        decreases units.len() - i,
    {
        let u: u16 = units[i];
        let ghost before = out@;
        let ghost rest = units@.subrange(i as int, units@.len() as int);
        assert(rest.subrange(1, rest.len() as int) =~= units@.subrange(
            i + 1,
            units@.len() as int,
        ));
        assert(rest[0] == u);
        let high = 0xD800 <= u && u <= 0xDBFF;
        let low = 0xDC00 <= u && u <= 0xDFFF;
        if high && i + 1 < units.len() && 0xDC00 <= units[i + 1] && units[i + 1] <= 0xDFFF {
            assert(rest.subrange(2, rest.len() as int) =~= units@.subrange(
                i + 2,
                units@.len() as int,
            ));
            let code: u32 = 0x10000 + (u as u32 - 0xD800) * 0x400 + (units[i + 1] as u32
                - 0xDC00);
            let c = match char::from_u32(code) {
                Some(c) => c,
                None => '\u{FFFD}',
            };
            out.push(c);
            assert(before.push(c) + utf16_text(rest.subrange(2, rest.len() as int))
                =~= before + utf16_text(rest));
            i += 2;
        } else {
            let c = if high || low {
                '\u{FFFD}'
            } else {
                match char::from_u32(u as u32) {
                    Some(c) => c,
                    None => '\u{FFFD}',
                }
            };
            out.push(c);
            assert(before.push(c) + utf16_text(rest.subrange(1, rest.len() as int))
                =~= before + utf16_text(rest));
            i += 1;
        }
    }
    out
}

/// The units of a field before its first zero, or all of them.
pub open spec fn before_zero(units: Seq<u16>) -> Seq<u16>
    decreases units.len(),
{
    if units.len() == 0 || units[0] == 0 {
        Seq::empty()
    } else {
        seq![units[0]] + before_zero(units.subrange(1, units.len() as int))
    }
}

/// The units of a zero-padded field.
pub fn units_before_zero(units: &Vec<u16>) -> (r: Vec<u16>)
    ensures
        r@ == before_zero(units@),
{
    let mut out: Vec<u16> = Vec::new();
    let mut i: usize = 0;
    assert(units@.subrange(0, units@.len() as int) =~= units@);
    assert(out@ + before_zero(units@) =~= before_zero(units@));
    while i < units.len() && units[i] != 0
        invariant
            i <= units.len(),
            out@ + before_zero(units@.subrange(i as int, units@.len() as int)) == before_zero(
                units@,
            ),
        decreases units.len() - i,
    {
        let ghost before = out@;
        let ghost rest = units@.subrange(i as int, units@.len() as int);
        assert(rest.subrange(1, rest.len() as int) =~= units@.subrange(
            i + 1,
            units@.len() as int,
        ));
        let u: u16 = units[i];
        out.push(u);
        assert(before.push(u) + before_zero(rest.subrange(1, rest.len() as int)) =~= before
            + before_zero(rest));
        i += 1;
    }
    assert(out@ + Seq::<u16>::empty() =~= out@);
    out
}

/// The text of a fixed-size, zero-padded UTF-16 field, without the white space
/// around it.
pub open spec fn utf16_field(units: Seq<u16>) -> Seq<char> {
    trimmed(utf16_text(before_zero(units)))
}

/// Decode a fixed-size, zero-padded UTF-16 field.
pub fn utf16_prefix(field: &Vec<u16>) -> (r: String)
    ensures
        r@ == utf16_field(field@),
{
    let units = units_before_zero(field);
    let decoded = utf16_lossy(&units);
    trim(decoded.as_str())
}

/// The characters of a string, in order.
pub fn chars_of(text: &str) -> (r: Vec<char>)
    ensures
        r@ == text@,
{
    let mut out: Vec<char> = Vec::new();
    for c in it: text.chars()
        invariant
            out@ == text@.subrange(0, it.index() as int),
            it.seq() == text@,
    {
        out.push(c);
    }
    out
}

fn digit(d: u64) -> (r: char)
    requires
        d < 16,
    ensures
        r == digit_char(d as nat),
{
    if d < 10 {
        (48 + d as u8) as char
    } else {
        (87 + d as u8) as char
    }
}

fn digits(n: u64, base: u64) -> (r: String)
    requires
        2 <= base <= 16,
    ensures
        r@ == digits_text(n as nat, base as nat),
    decreases n,
{
    if n < base {
        let mut out = String::new();
        out.push(digit(n));
        assert(out@ == seq![digit_char(n as nat)]);
        out
    } else {
        let rest: u64 = n / base;
        assert(rest < n) by (nonlinear_arith)
            requires
                rest == n / base,
                base >= 2,
                n >= base,
        ;
        let mut out = digits(rest, base);
        let last: u64 = n % base;
        out.push(digit(last));
        out
    }
}

/// `n` in decimal.
pub fn decimal(n: u64) -> (r: String)
    ensures
        r@ == decimal_text(n as nat),
{
    digits(n, 10)
}

/// `n` in lower-case hexadecimal.
pub fn hex(n: u64) -> (r: String)
    ensures
        r@ == hex_text(n as nat),
{
    digits(n, 16)
}

/// `n` in decimal, with a minus sign where it is negative.
pub fn signed_decimal(n: i64) -> (r: String)
    ensures
        r@ == signed_text(n as int),
{
    if n < 0 {
        let magnitude: u64 = (-(n as i128)) as u64;
        let mut out = String::new();
        out.push('-');
        let rest = decimal(magnitude);
        out.append(rest.as_str());
        assert(out@ == seq!['-'] + decimal_text((-n) as nat));
        out
    } else {
        decimal(n as u64)
    }
}

/// `n` in lower-case hexadecimal, with zeros in front up to `width` digits.
pub fn hex_padded(n: u64, width: usize) -> (r: String)
    ensures
        r@ == zero_padded(hex_text(n as nat), width as nat),
{
    let body = hex(n);
    let len: usize = body.as_str().unicode_len();
    let mut out = String::new();
    if len < width {
        let pad: usize = width - len;
        let mut i: usize = 0;
        while i < pad
            invariant
                i <= pad,
                out@ == Seq::new(i as nat, |j: int| '0'),
            decreases pad - i,
        {
            out.push('0');
            i += 1;
        }
    }
    out.append(body.as_str());
    out
}

/// Whether a text contains a NUL, so that a C library cannot take it.
pub fn contains_nul(text: &str) -> (r: bool)
    ensures
        r == text@.contains('\0'),
{
    let chars = chars_of(text);
    let mut i: usize = 0;
    while i < chars.len()
        invariant
            i <= chars.len(),
            chars@ == text@,
            forall|j: int| 0 <= j < i ==> #[trigger] chars@[j] != '\0',
        decreases chars.len() - i,
    {
        if chars[i] == '\0' {
            assert(text@[i as int] == '\0');
            return true;
        }
        i += 1;
    }
    false
}

/// One string after the other.
pub fn concat2(a: &str, b: &str) -> (r: String)
    ensures
        r@ == a@ + b@,
{
    let mut out = a.to_owned();
    out.append(b);
    out
}

/// Three strings, one after the other.
pub fn concat3(a: &str, b: &str, c: &str) -> (r: String)
    ensures
        r@ == a@ + b@ + c@,
{
    let mut out = concat2(a, b);
    out.append(c);
    out
}

/// Texts in order, with a separator between each two.
pub open spec fn joined(parts: Seq<Seq<char>>, separator: Seq<char>) -> Seq<char>
    decreases parts.len(),
{
    if parts.len() == 0 {
        Seq::empty()
    } else if parts.len() == 1 {
        parts[0]
    } else {
        joined(parts.drop_last(), separator) + separator + parts.last()
    }
}

/// The strings of a list as text.
pub open spec fn texts(parts: Seq<String>) -> Seq<Seq<char>> {
    parts.map_values(|s: String| s@)
}

/// Strings in order, with a separator between each two.
pub fn join(parts: &Vec<String>, separator: &str) -> (r: String)
    ensures
        r@ == joined(texts(parts@), separator@),
{
    let mut out = String::new();
    let mut i: usize = 0;
    let ghost all = texts(parts@);
    while i < parts.len()
        invariant
            i <= parts.len(),
            all == texts(parts@),
            out@ == joined(all.subrange(0, i as int), separator@),
        decreases parts.len() - i,
    {
        assert(all.subrange(0, i + 1).drop_last() =~= all.subrange(0, i as int));
        assert(all.subrange(0, i + 1).last() == parts@[i as int]@);
        if i > 0 {
            out.append(separator);
        }
        let ghost head = out@;
        out.append(parts[i].as_str());
        assert(i == 0 ==> head + parts@[0]@ =~= parts@[0]@);
        i += 1;
    }
    assert(all.subrange(0, all.len() as int) =~= all);
    out
}

/// Bytes in lower-case hexadecimal, two digits for each.
pub open spec fn hex_of_bytes(bytes: Seq<u8>) -> Seq<char>
    decreases bytes.len(),
{
    if bytes.len() == 0 {
        Seq::empty()
    } else {
        hex_of_bytes(bytes.drop_last()) + seq![
            digit_char((bytes.last() / 16) as nat),
            digit_char((bytes.last() % 16) as nat),
        ]
    }
}

/// The hexadecimal text of bytes has two characters for each.
pub proof fn hex_of_bytes_length(bytes: Seq<u8>)
    ensures
        hex_of_bytes(bytes).len() == 2 * bytes.len(),
    decreases bytes.len(),
{
    if bytes.len() > 0 {
        hex_of_bytes_length(bytes.drop_last());
    }
}

/// Bytes in lower-case hexadecimal.
pub fn hex_bytes(bytes: &Vec<u8>) -> (r: String)
    ensures
        r@ == hex_of_bytes(bytes@),
{
    let mut out = String::new();
    let mut i: usize = 0;
    while i < bytes.len()
        invariant
            i <= bytes.len(),
            out@ == hex_of_bytes(bytes@.subrange(0, i as int)),
        decreases bytes.len() - i,
    {
        let ghost before = out@;
        let b: u8 = bytes[i];
        out.push(digit((b / 16) as u64));
        out.push(digit((b % 16) as u64));
        assert(bytes@.subrange(0, i + 1).drop_last() =~= bytes@.subrange(0, i as int));
        assert(out@ =~= before + seq![
            digit_char((b / 16) as nat),
            digit_char((b % 16) as nat),
        ]);
        i += 1;
    }
    assert(bytes@.subrange(0, bytes@.len() as int) =~= bytes@);
    out
}

/// Whether two strings hold the same characters.
pub fn same_text(a: &str, b: &str) -> (r: bool)
    ensures
        r == (a@ == b@),
{
    let left = a.to_owned();
    let right = b.to_owned();
    left == right
}

/// Whether the characters from `at` on begin with `part`.
fn matches_at(text: &Vec<char>, part: &Vec<char>, at: usize) -> (r: bool)
    requires
        at + part.len() <= text.len(),
    ensures
        r == (text@.subrange(at as int, at + part.len()) == part@),
{
    let mut i: usize = 0;
    while i < part.len()
        invariant
            i <= part.len(),
            at + part.len() <= text.len(),
            forall|j: int| 0 <= j < i ==> text@[at + j] == part@[j],
        decreases part.len() - i,
    {
        if text[at + i] != part[i] {
            assert(text@.subrange(at as int, at + part.len())[i as int] != part@[i as int]);
            return false;
        }
        i += 1;
    }
    assert(text@.subrange(at as int, at + part.len()) =~= part@);
    true
}

/// Whether `text` begins with `prefix`.
pub fn starts_with(text: &str, prefix: &str) -> (r: bool)
    ensures
        r == has_prefix(text@, prefix@),
{
    let t = chars_of(text);
    let p = chars_of(prefix);
    p.len() <= t.len() && matches_at(&t, &p, 0)
}

/// Whether `text` ends with `suffix`.
pub fn ends_with(text: &str, suffix: &str) -> (r: bool)
    ensures
        r == has_suffix(text@, suffix@),
{
    let t = chars_of(text);
    let p = chars_of(suffix);
    if p.len() <= t.len() {
        let at: usize = t.len() - p.len();
        matches_at(&t, &p, at)
    } else {
        false
    }
}

/// Whether `part` stands in `text`.
pub fn contains(text: &str, part: &str) -> (r: bool)
    ensures
        r == has_part(text@, part@),
{
    let t = chars_of(text);
    let p = chars_of(part);
    if p.len() > t.len() {
        return false;
    }
    let last: usize = t.len() - p.len();
    let mut at: usize = 0;
    loop
        invariant
            at <= last,
            last + p.len() == t.len(),
            t@ == text@,
            p@ == part@,
            forall|i: int|
                0 <= i < at ==> #[trigger] text@.subrange(i, i + part@.len()) != part@,
        decreases last - at,
    {
        if matches_at(&t, &p, at) {
            assert(text@.subrange(at as int, at + part@.len()) == part@);
            return true;
        }
        if at == last {
            return false;
        }
        at += 1;
    }
}

/// `text` with its ASCII letters in lower case.
pub fn ascii_lower(text: &str) -> (r: String)
    ensures
        r@ == lower_text(text@),
{
    let t = chars_of(text);
    let mut out = String::new();
    let mut i: usize = 0;
    while i < t.len()
        invariant
            i <= t.len(),
            t@ == text@,
            out@ == lower_text(text@.subrange(0, i as int)),
        decreases t.len() - i,
    {
        let c = t[i];
        let lower = if 'A' <= c && c <= 'Z' {
            (c as u8 + 32) as char
        } else {
            c
        };
        out.push(lower);
        proof {
            assert(lower == lower_char(c));
            assert(text@.subrange(0, i + 1) == text@.subrange(0, i as int).push(c));
            assert(lower_text(text@.subrange(0, i + 1)) =~= lower_text(
                text@.subrange(0, i as int),
            ).push(lower));
        }
        i += 1;
    }
    assert(text@.subrange(0, text@.len() as int) == text@);
    out
}

/// Whether two strings are the same up to the case of ASCII letters.
pub fn same_ignoring_case(a: &str, b: &str) -> (r: bool)
    ensures
        r == (lower_text(a@) == lower_text(b@)),
{
    let left = ascii_lower(a);
    let right = ascii_lower(b);
    left == right
}

/// Numbers are written digit by digit, the last digit last, in the usual digits;
/// a negative one has a minus sign in front of its magnitude.
pub proof fn numbers_are_written_digit_by_digit(n: nat)
    ensures
        n < 10 ==> decimal_text(n) == seq!["0123456789abcdef"@[n as int]],
        n >= 10 ==> decimal_text(n) == decimal_text(n / 10).push(
            "0123456789abcdef"@[(n % 10) as int],
        ),
        n < 16 ==> hex_text(n) == seq!["0123456789abcdef"@[n as int]],
        n >= 16 ==> hex_text(n) == hex_text(n / 16).push("0123456789abcdef"@[(n % 16) as int]),
        n > 0 ==> signed_text(-n) == seq!['-'] + decimal_text(n),
        signed_text(n as int) == decimal_text(n),
{
    reveal_strlit("0123456789abcdef");
    assert forall|k: nat| k < 16 implies #[trigger] digit_char(k) == "0123456789abcdef"@[k as int] by {
        assert(k == 0 || k == 1 || k == 2 || k == 3 || k == 4 || k == 5 || k == 6 || k == 7 || k
            == 8 || k == 9 || k == 10 || k == 11 || k == 12 || k == 13 || k == 14 || k == 15);
    }
    assert(digit_char(n % 10) == "0123456789abcdef"@[(n % 10) as int]);
    assert(digit_char(n % 16) == "0123456789abcdef"@[(n % 16) as int]);
}

/// Padding adds zeros in front, up to the width, and nothing beyond it.
pub proof fn padding_adds_zeros_in_front(text: Seq<char>, width: nat, i: int)
    ensures
        text.len() >= width ==> zero_padded(text, width) == text,
        text.len() < width ==> {
            &&& zero_padded(text, width).len() == width
            &&& zero_padded(text, width).subrange(width - text.len(), width as int) == text
            &&& 0 <= i < width - text.len() ==> zero_padded(text, width)[i] == '0'
        },
{
    if text.len() < width {
        assert(zero_padded(text, width).subrange(width - text.len(), width as int) =~= text);
    }
}

/// Only the letters from A to Z change, each to its small form.
pub proof fn only_capital_letters_change(c: char, text: Seq<char>, i: int)
    ensures
        'A' <= c && c <= 'Z' ==> lower_char(c) as u32 == c as u32 + 32,
        !('A' <= c && c <= 'Z') ==> lower_char(c) == c,
        lower_text(text).len() == text.len(),
        0 <= i < text.len() ==> lower_text(text)[i] == lower_char(text[i]),
{
}

/// Of the ASCII characters the blank and the five controls from the tab on are
/// white space.
pub proof fn white_space_in_ascii(c: char)
    ensures
        (c as u32) < 0x80 ==> (white_space(c) <==> c == ' ' || c == '\t' || c == '\n' || c as u32
            == 0xB || c as u32 == 0xC || c == '\r'),
        white_space('\u{A0}') && white_space('\u{3000}'),
        !white_space('\u{200B}') && !white_space('\u{FEFF}'),
{
}

proof fn lemma_leading_space(text: Seq<char>) -> (n: int)
    ensures
        0 <= n <= text.len(),
        without_leading_space(text) == text.subrange(n, text.len() as int),
        forall|i: int| 0 <= i < n ==> white_space(#[trigger] text[i]),
        n < text.len() ==> !white_space(text[n]),
    decreases text.len(),
{
    if text.len() > 0 && white_space(text[0]) {
        let rest = text.subrange(1, text.len() as int);
        let m = lemma_leading_space(rest);
        assert(rest.subrange(m, rest.len() as int) =~= text.subrange(m + 1, text.len() as int));
        assert forall|i: int| 0 <= i < m + 1 implies white_space(#[trigger] text[i]) by {
            if i > 0 {
                assert(rest[i - 1] == text[i]);
            }
        }
        m + 1
    } else {
        assert(text.subrange(0, text.len() as int) =~= text);
        0
    }
}

proof fn lemma_trailing_space(text: Seq<char>) -> (n: int)
    ensures
        0 <= n <= text.len(),
        without_trailing_space(text) == text.subrange(0, n),
        forall|i: int| n <= i < text.len() ==> white_space(#[trigger] text[i]),
        n > 0 ==> !white_space(text[n - 1]),
    decreases text.len(),
{
    if text.len() > 0 && white_space(text.last()) {
        let rest = text.drop_last();
        let m = lemma_trailing_space(rest);
        assert(rest.subrange(0, m) =~= text.subrange(0, m));
        assert forall|i: int| m <= i < text.len() implies white_space(#[trigger] text[i]) by {
            if i < text.len() - 1 {
                assert(rest[i] == text[i]);
            }
        }
        m
    } else {
        assert(text.subrange(0, text.len() as int) =~= text);
        text.len() as int
    }
}

/// Trimming takes away the white space at both ends, all of it and nothing else:
/// what is left is one piece of the text with nothing but white space around it.
pub proof fn trimming_takes_white_space_only(text: Seq<char>)
    ensures
        exists|a: int, b: int|
            {
                &&& 0 <= a <= b <= text.len()
                &&& trimmed(text) == #[trigger] text.subrange(a, b)
                &&& forall|i: int| 0 <= i < a ==> white_space(#[trigger] text[i])
                &&& forall|i: int| b <= i < text.len() ==> white_space(#[trigger] text[i])
            },
        trimmed(text).len() > 0 ==> !white_space(trimmed(text)[0]) && !white_space(
            trimmed(text).last(),
        ),
        exists|b: int|
            {
                &&& 0 <= b <= text.len()
                &&& without_trailing_space(text) == #[trigger] text.subrange(0, b)
                &&& forall|i: int| b <= i < text.len() ==> white_space(#[trigger] text[i])
            },
        without_trailing_space(text).len() > 0 ==> !white_space(
            without_trailing_space(text).last(),
        ),
{
    let a = lemma_leading_space(text);
    let inner = without_leading_space(text);
    let m = lemma_trailing_space(inner);
    let b = a + m;
    assert(inner.subrange(0, m) =~= text.subrange(a, b));
    assert forall|i: int| b <= i < text.len() implies white_space(#[trigger] text[i]) by {
        assert(inner[i - a] == text[i]);
    }
    assert(trimmed(text) == text.subrange(a, b));
    if m > 0 {
        assert(trimmed(text)[0] == text[a]);
        assert(trimmed(text).last() == inner[m - 1]);
    }
    let t = lemma_trailing_space(text);
    assert(without_trailing_space(text) == text.subrange(0, t));
}

/// The units of a field are those before its first zero: none of them is zero,
/// and where not all were taken a zero follows.
pub proof fn a_field_ends_at_its_first_zero(units: Seq<u16>)
    ensures
        before_zero(units).len() <= units.len(),
        before_zero(units) == units.subrange(0, before_zero(units).len() as int),
        forall|i: int| 0 <= i < before_zero(units).len() ==> units[i] != 0,
        before_zero(units).len() < units.len() ==> units[before_zero(units).len() as int] == 0,
    decreases units.len(),
{
    if units.len() > 0 && units[0] != 0 {
        let rest = units.subrange(1, units.len() as int);
        a_field_ends_at_its_first_zero(rest);
        let n = before_zero(rest).len() as int;
        assert(before_zero(units) =~= units.subrange(0, n + 1)) by {
            assert forall|i: int| 0 <= i < n implies before_zero(rest)[i] == units[i + 1] by {
                assert(rest.subrange(0, n)[i] == rest[i]);
            }
        }
        assert forall|i: int| 0 <= i < n + 1 implies units[i] != 0 by {
            if i > 0 {
                assert(rest[i - 1] == units[i]);
            }
        }
        if n < rest.len() {
            assert(rest[n] == units[n + 1]);
        }
    } else {
        assert(before_zero(units) =~= units.subrange(0, 0));
    }
}

/// A unit outside the surrogates is its character, a pair is the character that
/// it stands for, and a lone surrogate is replaced, alone.
pub proof fn units_become_characters(u: u16, low: u16, rest: Seq<u16>)
    ensures
        utf16_text(Seq::empty()).len() == 0,
        !(0xD800 <= u <= 0xDFFF) ==> utf16_text(seq![u] + rest) == seq![u as char] + utf16_text(rest),
        0xD800 <= u <= 0xDBFF && 0xDC00 <= low <= 0xDFFF ==> utf16_text(seq![u, low] + rest)
            == seq![(0x10000 + (u - 0xD800) * 1024 + (low - 0xDC00)) as char] + utf16_text(rest),
        0xDC00 <= u <= 0xDFFF ==> utf16_text(seq![u] + rest) == seq!['\u{FFFD}'] + utf16_text(rest),
        0xD800 <= u <= 0xDBFF && (rest.len() == 0 || !(0xDC00 <= rest[0] <= 0xDFFF)) ==> utf16_text(
            seq![u] + rest,
        ) == seq!['\u{FFFD}'] + utf16_text(rest),
{
    let one = seq![u] + rest;
    assert(one.subrange(1, one.len() as int) =~= rest);
    let two = seq![u, low] + rest;
    assert(two.subrange(2, two.len() as int) =~= rest);
    assert(two[0] == u && two[1] == low && one[0] == u);
    if rest.len() > 0 {
        assert(one[1] == rest[0]);
    }
}

/// Joined texts follow one another in order, with the separator between each two
/// and none at the ends.
pub proof fn joined_texts_are_separated(
    parts: Seq<Seq<char>>,
    part: Seq<char>,
    separator: Seq<char>,
)
    ensures
        joined(Seq::empty(), separator).len() == 0,
        joined(seq![part], separator) == part,
        parts.len() > 0 ==> joined(parts.push(part), separator) == joined(parts, separator)
            + separator + part,
{
    assert(parts.push(part).drop_last() =~= parts);
}

/// Each byte is written as two digits, the upper one first.
pub proof fn bytes_are_written_in_order(bytes: Seq<u8>, i: int)
    requires
        0 <= i < bytes.len(),
    ensures
        hex_of_bytes(bytes).len() == 2 * bytes.len(),
        hex_of_bytes(bytes)[2 * i] == "0123456789abcdef"@[(bytes[i] / 16) as int],
        hex_of_bytes(bytes)[2 * i + 1] == "0123456789abcdef"@[(bytes[i] % 16) as int],
    decreases bytes.len(),
{
    hex_of_bytes_length(bytes);
    hex_of_bytes_length(bytes.drop_last());
    numbers_are_written_digit_by_digit((bytes[i] / 16) as nat);
    numbers_are_written_digit_by_digit((bytes[i] % 16) as nat);
    if i < bytes.len() - 1 {
        bytes_are_written_in_order(bytes.drop_last(), i);
    } else {
        let upper = (bytes[i] / 16) as nat;
        let lower = (bytes[i] % 16) as nat;
        assert(hex_text(upper) == seq![digit_char(upper)]);
        assert(hex_text(lower) == seq![digit_char(lower)]);
        assert(seq![digit_char(upper)][0] == seq!["0123456789abcdef"@[upper as int]][0]);
        assert(seq![digit_char(lower)][0] == seq!["0123456789abcdef"@[lower as int]][0]);
    }
}

proof fn lemma_digits_only(digits: Seq<char>, value: nat)
    ensures
        digits_value(digits, value) is Ok ==> forall|i: int|
            0 <= i < digits.len() ==> is_digit(#[trigger] digits[i]),
    decreases digits.len(),
{
    if digits.len() > 0 && is_digit(digits[0]) {
        let next = value * 10 + (digits[0] as nat - 48) as nat;
        let rest = digits.subrange(1, digits.len() as int);
        if next <= u64::MAX {
            lemma_digits_only(rest, next);
            if digits_value(digits, value) is Ok {
                assert forall|i: int| 0 <= i < digits.len() implies is_digit(
                    #[trigger] digits[i],
                ) by {
                    if i > 0 {
                        assert(rest[i - 1] == digits[i]);
                    }
                }
            }
        }
    }
}

/// Only digits make a number, with one plus sign at most in front of them, which
/// changes nothing; each further digit counts tenfold what stands before it.
pub proof fn only_digits_make_a_number(text: Seq<char>, c: char)
    ensures
        number_of_text(Seq::empty()) == Err::<nat, NumberError>(NumberError::Empty),
        number_of_text(text) is Ok && text[0] != '+' ==> forall|i: int|
            0 <= i < text.len() ==> '0' <= #[trigger] text[i] && text[i] <= '9',
        text.len() > 0 && text[0] != '+' ==> number_of_text(seq!['+'] + text) == number_of_text(
            text,
        ),
        number_of_text(text) is Ok && text[0] != '+' && '0' <= c && c <= '9' && 10
            * number_of_text(text)->Ok_0 + (c as nat - 48) <= u64::MAX ==> number_of_text(
            text.push(c),
        ) == Ok::<nat, NumberError>((10 * number_of_text(text)->Ok_0 + (c as nat - 48)) as nat),
        number_of_text(text) is Ok && text[0] != '+' && !('0' <= c && c <= '9') ==> number_of_text(
            text.push(c),
        ) == Err::<nat, NumberError>(NumberError::InvalidDigit),
{
    lemma_digits_only(text, 0);
    let signed = seq!['+'] + text;
    assert(signed.subrange(1, signed.len() as int) =~= text);
    if text.len() > 0 {
        assert(text.push(c)[0] == text[0]);
        lemma_digits_value_push(text, 0, c);
    }
}

/// A text begins with what it was made to begin with, ends with what it was made
/// to end with, and holds what lies between; it begins or ends with nothing that
/// differs from it in a character there.
pub proof fn texts_hold_their_parts(head: Seq<char>, middle: Seq<char>, tail: Seq<char>, i: int)
    ensures
        has_prefix(head + tail, head),
        has_suffix(head + tail, tail),
        has_part(head + middle + tail, middle),
        has_prefix(middle, head) ==> head.len() <= middle.len() && (0 <= i < head.len()
            ==> middle[i] == head[i]),
        has_suffix(middle, tail) ==> tail.len() <= middle.len() && (0 <= i < tail.len()
            ==> middle[middle.len() - tail.len() + i] == tail[i]),
        has_part(middle, tail) ==> exists|k: int|
            0 <= k && k + tail.len() <= middle.len() && #[trigger] middle.subrange(
                k,
                k + tail.len(),
            ) == tail,
{
    assert((head + tail).subrange(0, head.len() as int) =~= head);
    assert((head + tail).subrange(head.len() as int, (head + tail).len() as int) =~= tail);
    let all = head + middle + tail;
    assert(all.subrange(head.len() as int, head.len() as int + middle.len()) =~= middle);
    if has_prefix(middle, head) && 0 <= i < head.len() {
        assert(middle.subrange(0, head.len() as int)[i] == middle[i]);
    }
    if has_suffix(middle, tail) && 0 <= i < tail.len() {
        assert(middle.subrange(middle.len() - tail.len(), middle.len() as int)[i] == middle[
            middle.len() - tail.len() + i
        ]);
    }
}

} // verus!
