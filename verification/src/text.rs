//! Texts and what they write: chain names without regard to case,
//! hexadecimal bytes, decimal amounts, and replacement of a pattern.
use vstd::prelude::*;

verus! {

/// The lower-case counterpart of an ASCII capital letter; any other character itself.
pub open spec fn ascii_lower_char(c: char) -> char {
    if 'A' <= c && c <= 'Z' {
        ((c as u8) + 32) as char
    } else {
        c
    }
}

/// `text` with every ASCII capital letter replaced by its lower-case counterpart.
pub open spec fn ascii_lowercase(text: Seq<char>) -> Seq<char> {
    Seq::new(text.len(), |i: int| ascii_lower_char(text[i]))
}

/// Computes `ascii_lower_char`.
pub fn to_ascii_lower(c: char) -> (r: char)
    ensures
        r == ascii_lower_char(c),
{
    if 'A' <= c && c <= 'Z' {
        ((c as u8) + 32) as char
    } else {
        c
    }
}

/// Whether two strings are equal once ASCII capitals are lowered.
pub fn eq_ignore_ascii_case(a: &str, b: &str) -> (r: bool)
    ensures
        r == (ascii_lowercase(a@) == ascii_lowercase(b@)),
{
    let n: usize = a.unicode_len();
    if n != b.unicode_len() {
        assert(ascii_lowercase(a@).len() != ascii_lowercase(b@).len());
        return false;
    }
    let mut i: usize = 0;
    while i < n
        invariant
            i <= n,
            n == a@.len(),
            n == b@.len(),
            forall|j: int| 0 <= j < i ==> ascii_lower_char(a@[j]) == ascii_lower_char(b@[j]),
        decreases n - i,
    {
        let x = to_ascii_lower(a.get_char(i));
        let y = to_ascii_lower(b.get_char(i));
        if x != y {
            assert(ascii_lowercase(a@)[i as int] != ascii_lowercase(b@)[i as int]);
            return false;
        }
        i = i + 1;
    }
    assert(ascii_lowercase(a@) =~= ascii_lowercase(b@));
    true
}

/// How many characters other than `_` stand in `text`.
pub open spec fn kept_chars(text: Seq<char>) -> nat
    decreases text.len(),
{
    if text.len() == 0 {
        0
    } else {
        (if text[0] != '_' {
            1nat
        } else {
            0nat
        }) + kept_chars(text.skip(1))
    }
}

/// How many characters other than `_` stand before the first point of
/// `text`, or in all of it where it has no point.
pub open spec fn whole_chars(text: Seq<char>) -> nat
    decreases text.len(),
{
    if text.len() == 0 || text[0] == '.' {
        0
    } else {
        (if text[0] != '_' {
            1nat
        } else {
            0nat
        }) + whole_chars(text.skip(1))
    }
}

/// How many characters other than `_` follow the first point of `text`;
/// zero where it has no point.
pub open spec fn fraction_chars(text: Seq<char>) -> nat
    decreases text.len(),
{
    if text.len() == 0 {
        0
    } else if text[0] == '.' {
        kept_chars(text.skip(1))
    } else {
        fraction_chars(text.skip(1))
    }
}

/// The amount texts that can be scaled by `decimals` decimal places without
/// leaving 256 bits, whatever digits they hold. They are ASCII, and either
/// their fraction is longer than `decimals`, so that it is cut and nothing
/// is scaled, or their whole part is so short that, with `decimals` more
/// digits, it stays below `10^77` and so within 256 bits, with or without a
/// sign.
pub open spec fn amount_text_fits(text: Seq<char>, decimals: nat) -> bool {
    &&& vstd::utf8::is_ascii_chars(text)
    &&& text.len() <= 0xffff_ffff
    &&& fraction_chars(text) > decimals || whole_chars(text) + decimals <= 77
}

/// The numbers of decimal places in which an unsigned 256-bit amount can be
/// written: those whose unit, ten to that power, fits 256 bits itself.
pub open spec fn is_unit_scale(decimals: u8) -> bool {
    decimals < 78
}

/// Whether an amount text can be scaled by `decimals` places without
/// leaving 256 bits.
pub fn amount_fits(s: &str, decimals: u8) -> (r: bool)
    ensures
        r == amount_text_fits(s@, decimals as nat),
{
    if !s.is_ascii() {
        return false;
    }
    let n: usize = s.unicode_len();
    if n > 0xffff_ffff {
        return false;
    }
    let mut i: usize = 0;
    let mut whole: usize = 0;
    assert(s@.skip(0) =~= s@);
    while i < n && s.get_ascii(i) != 46u8
        invariant
            i <= n,
            n == s@.len(),
            s.is_ascii(),
            whole <= i,
            whole_chars(s@) == whole + whole_chars(s@.skip(i as int)),
            fraction_chars(s@) == fraction_chars(s@.skip(i as int)),
        decreases n - i,
    {
        assert(s@.skip(i as int).skip(1) =~= s@.skip(i + 1));
        if s.get_ascii(i) != 95u8 {
            whole = whole + 1;
        }
        i = i + 1;
    }
    let mut fraction: usize = 0;
    if i < n {
        let mut j: usize = i + 1;
        assert(s@.skip(i as int).skip(1) =~= s@.skip(i + 1));
        while j < n
            invariant
                i < j <= n,
                n == s@.len(),
                s.is_ascii(),
                fraction <= j,
                kept_chars(s@.skip(i + 1)) == fraction + kept_chars(s@.skip(j as int)),
            decreases n - j,
        {
            assert(s@.skip(j as int).skip(1) =~= s@.skip(j + 1));
            if s.get_ascii(j) != 95u8 {
                fraction = fraction + 1;
            }
            j = j + 1;
        }
        assert(s@.skip(j as int).len() == 0);
    } else {
        assert(s@.skip(i as int).len() == 0);
    }
    let places: usize = decimals as usize;
    fraction > places || (places <= 77 && whole <= 77 - places)
}

/// Whether `pattern` stands at the start of `text`.
pub open spec fn starts_with(text: Seq<char>, pattern: Seq<char>) -> bool {
    pattern.len() <= text.len() && text.subrange(0, pattern.len() as int) == pattern
}

/// `text` with every occurrence of `pattern` replaced by `with`. Occurrences
/// are taken from the left and do not overlap; what was put in is not
/// searched again. An empty pattern changes nothing.
pub open spec fn replaced(text: Seq<char>, pattern: Seq<char>, with: Seq<char>) -> Seq<char>
    decreases text.len(),
{
    if pattern.len() == 0 || text.len() == 0 {
        text
    } else if starts_with(text, pattern) {
        with + replaced(text.skip(pattern.len() as int), pattern, with)
    } else {
        seq![text[0]] + replaced(text.skip(1), pattern, with)
    }
}

/// Whether `pattern` stands in `text` at position `i`.
pub open spec fn occurs_at(text: Seq<char>, pattern: Seq<char>, i: int) -> bool {
    0 <= i && i + pattern.len() <= text.len() && text.subrange(i, i + pattern.len()) == pattern
}

/// A text in which the pattern stands nowhere is left as it is.
pub proof fn lemma_text_without_pattern_is_kept(
    text: Seq<char>,
    pattern: Seq<char>,
    with: Seq<char>,
)
    requires
        forall|i: int| !occurs_at(text, pattern, i),
    ensures
        replaced(text, pattern, with) == text,
    decreases text.len(),
{
    if pattern.len() > 0 && text.len() > 0 {
        assert(!occurs_at(text, pattern, 0));
        let rest = text.skip(1);
        assert forall|i: int| !occurs_at(rest, pattern, i) by {
            if occurs_at(rest, pattern, i) {
                assert(rest.subrange(i, i + pattern.len()) =~= text.subrange(
                    i + 1,
                    i + 1 + pattern.len(),
                ));
                assert(occurs_at(text, pattern, i + 1));
            }
        }
        lemma_text_without_pattern_is_kept(rest, pattern, with);
        assert(seq![text[0]] + rest =~= text);
    }
}

/// A text shorter than the pattern is left as it is.
pub proof fn lemma_shorter_text_is_kept(text: Seq<char>, pattern: Seq<char>, with: Seq<char>)
    requires
        text.len() < pattern.len(),
    ensures
        replaced(text, pattern, with) == text,
{
    lemma_text_without_pattern_is_kept(text, pattern, with);
}

/// The value of a hexadecimal digit, in either case.
pub open spec fn hex_digit_value(c: char) -> Option<nat> {
    if '0' <= c && c <= '9' {
        Some((c as nat - '0' as nat) as nat)
    } else if 'a' <= c && c <= 'f' {
        Some((c as nat - 'a' as nat + 10) as nat)
    } else if 'A' <= c && c <= 'F' {
        Some((c as nat - 'A' as nat + 10) as nat)
    } else {
        None
    }
}

/// The four characters that may stand anywhere between hexadecimal digits.
pub open spec fn is_hex_blank(c: char) -> bool {
    c == ' ' || c == '\r' || c == '\n' || c == '\t'
}

/// `text` without one leading `0x`, if it has one.
pub open spec fn without_0x(text: Seq<char>) -> Seq<char> {
    if text.len() >= 2 && text[0] == '0' && text[1] == 'x' {
        text.skip(2)
    } else {
        text
    }
}

/// The characters of `text` that count as digits: all but a leading `0x`
/// and the blanks.
pub open spec fn hex_digits(text: Seq<char>) -> Seq<char> {
    without_0x(text).filter(|c: char| !is_hex_blank(c))
}

/// Whether `text` writes exactly `n` bytes in hexadecimal: after an optional
/// `0x`, and blanks aside, `2 * n` hexadecimal digits and nothing else.
pub open spec fn is_hex_of(text: Seq<char>, n: nat) -> bool {
    let digits = hex_digits(text);
    &&& digits.len() == 2 * n
    &&& forall|i: int| 0 <= i < digits.len() ==> hex_digit_value(#[trigger] digits[i]) is Some
}

/// The `n` bytes that `text` writes, first byte first, high digit first.
pub open spec fn bytes_of_hex(text: Seq<char>, n: nat) -> Seq<u8> {
    let digits = hex_digits(text);
    Seq::new(
        n,
        |i: int|
            (hex_digit_value(digits[2 * i])->0 * 16 + hex_digit_value(digits[2 * i + 1])->0) as u8,
    )
}

/// The lower-case hexadecimal digit of a value below sixteen.
pub open spec fn lower_hex_char(v: nat) -> char {
    if v < 10 {
        (v + '0' as nat) as char
    } else {
        (v - 10 + 'a' as nat) as char
    }
}

/// `0x` and two lower-case hexadecimal digits for each byte, high digit first.
pub open spec fn hex_text(bytes: Seq<u8>) -> Seq<char> {
    Seq::new(
        2 + 2 * bytes.len(),
        |i: int|
            if i == 0 {
                '0'
            } else if i == 1 {
                'x'
            } else if i % 2 == 0 {
                lower_hex_char((bytes[(i - 2) / 2] / 16) as nat)
            } else {
                lower_hex_char((bytes[(i - 2) / 2] % 16) as nat)
            },
    )
}

/// A text without blanks is its own digits.
proof fn lemma_filter_keeps_all(text: Seq<char>)
    requires
        forall|i: int| 0 <= i < text.len() ==> !is_hex_blank(#[trigger] text[i]),
    ensures
        text.filter(|c: char| !is_hex_blank(c)) == text,
    decreases text.len(),
{
    reveal(Seq::filter);
    if text.len() > 0 {
        let front = text.drop_last();
        assert forall|i: int| 0 <= i < front.len() implies !is_hex_blank(#[trigger] front[i]) by {
            assert(front[i] == text[i]);
        }
        lemma_filter_keeps_all(front);
        assert(!is_hex_blank(text.last()));
        assert(front.push(text.last()) =~= text);
    }
}

/// A lower-case hexadecimal digit is no blank and has the value it was
/// written for.
proof fn lemma_lower_hex_char(v: nat)
    requires
        v < 16,
    ensures
        !is_hex_blank(lower_hex_char(v)),
        hex_digit_value(lower_hex_char(v)) == Some(v),
{
}

/// What `hex_text` writes is read back: the text of `n` bytes writes `n`
/// bytes in hexadecimal, and they are the bytes it was written for.
pub proof fn lemma_hex_text_is_read_back(bytes: Seq<u8>)
    ensures
        is_hex_of(hex_text(bytes), bytes.len()),
        bytes_of_hex(hex_text(bytes), bytes.len()) == bytes,
{
    let text = hex_text(bytes);
    let body = without_0x(text);
    assert(body == text.skip(2));
    assert forall|i: int| 0 <= i < body.len() implies !is_hex_blank(#[trigger] body[i])
        && hex_digit_value(body[i]) is Some by {
        assert(body[i] == text[i + 2]);
        let b = bytes[i / 2];
        lemma_lower_hex_char((b / 16) as nat);
        lemma_lower_hex_char((b % 16) as nat);
        assert((i + 2 - 2) / 2 == i / 2);
    }
    lemma_filter_keeps_all(body);
    let digits = hex_digits(text);
    assert(digits == body);
    assert forall|i: int| 0 <= i < bytes.len() implies #[trigger] bytes_of_hex(
        text,
        bytes.len(),
    )[i] == bytes[i] by {
        let b = bytes[i];
        lemma_lower_hex_char((b / 16) as nat);
        lemma_lower_hex_char((b % 16) as nat);
        assert(digits[2 * i] == text[2 * i + 2]);
        assert(digits[2 * i + 1] == text[2 * i + 3]);
        assert((2 * i + 2 - 2) / 2 == i);
        assert((2 * i + 3 - 2) / 2 == i);
        assert((2 * i + 2) % 2 == 0);
        assert((2 * i + 3) % 2 == 1);
        assert(digits[2 * i] == lower_hex_char((b / 16) as nat));
        assert(digits[2 * i + 1] == lower_hex_char((b % 16) as nat));
        assert((b / 16) * 16 + b % 16 == b);
    }
    assert(bytes_of_hex(text, bytes.len()) =~= bytes);
}

/// The decimal digits of `n`, without leading zeros; `0` for zero.
pub open spec fn decimal_text(n: nat) -> Seq<char>
    decreases n,
{
    if n < 10 {
        seq![(n + '0' as nat) as char]
    } else {
        decimal_text(n / 10).push((n % 10 + '0' as nat) as char)
    }
}

/// The decimal digits of `n`, with zeros in front up to `width` characters.
pub open spec fn padded_decimal_text(n: nat, width: nat) -> Seq<char> {
    let digits = decimal_text(n);
    if digits.len() >= width {
        digits
    } else {
        Seq::new((width - digits.len()) as nat, |i: int| '0') + digits
    }
}

/// `amount` of the smallest unit written in the unit that holds
/// `10^decimals` of them: the whole part, a point, and `decimals` digits of
/// the fraction (one `0` where `decimals` is zero).
pub open spec fn units_text(amount: nat, decimals: nat) -> Seq<char> {
    let unit = vstd::arithmetic::power::pow(10, decimals) as nat;
    decimal_text(amount / unit) + seq!['.'] + padded_decimal_text(amount % unit, decimals)
}

/// The bytes of a text of ASCII characters.
pub open spec fn ascii_bytes(text: Seq<char>) -> Seq<u8> {
    Seq::new(text.len(), |i: int| text[i] as u8)
}

/// A message as Ethereum has it signed: the byte `0x19`, the words
/// `Ethereum Signed Message:` and a line feed, the length of the message in
/// decimal digits, and the message itself.
pub open spec fn signed_message(message: Seq<u8>) -> Seq<u8> {
    seq![0x19u8] + ascii_bytes("Ethereum Signed Message:\n"@) + ascii_bytes(
        decimal_text(message.len()),
    ) + message
}

/// A worked example of `units_text`: one and a half million of the
/// smallest unit, with six decimal places, are written `1.500000`.
pub proof fn example_units_text()
    ensures
        units_text(1_500_000, 6) == "1.500000"@,
        units_text(7, 3) == "0.007"@,
        units_text(42, 0) == "42.0"@,
{
    reveal_strlit("1.500000");
    reveal_strlit("0.007");
    reveal_strlit("42.0");
    reveal_with_fuel(vstd::arithmetic::power::pow, 8);
    reveal_with_fuel(decimal_text, 8);
    assert(vstd::arithmetic::power::pow(10, 6) == 1_000_000);
    assert(vstd::arithmetic::power::pow(10, 3) == 1_000);
    assert(vstd::arithmetic::power::pow(10, 0) == 1);
    assert(decimal_text(1) =~= seq!['1']);
    assert(decimal_text(500_000) =~= seq!['5', '0', '0', '0', '0', '0']);
    assert(padded_decimal_text(500_000, 6) =~= seq!['5', '0', '0', '0', '0', '0']);
    assert(1_500_000nat / 1_000_000nat == 1 && 1_500_000nat % 1_000_000nat == 500_000);
    assert(decimal_text(1) + seq!['.'] + padded_decimal_text(500_000, 6) =~= "1.500000"@);
    assert(units_text(1_500_000, 6) =~= "1.500000"@);
    assert(decimal_text(0) =~= seq!['0']);
    assert(decimal_text(7) =~= seq!['7']);
    assert(padded_decimal_text(7, 3) =~= seq!['0', '0', '7']);
    assert(7nat / 1_000nat == 0 && 7nat % 1_000nat == 7);
    assert(decimal_text(0) + seq!['.'] + padded_decimal_text(7, 3) =~= "0.007"@);
    assert(units_text(7, 3) =~= "0.007"@);
    assert(decimal_text(42) =~= seq!['4', '2']);
    assert(padded_decimal_text(0, 0) =~= seq!['0']);
    assert(42nat / 1nat == 42 && 42nat % 1nat == 0);
    assert(decimal_text(42) + seq!['.'] + padded_decimal_text(0, 0) =~= "42.0"@);
    assert(units_text(42, 0) =~= "42.0"@);
}

/// A worked example of `hex_text` and of reading it back.
pub proof fn example_hex_text()
    ensures
        hex_text(seq![0x7eu8, 0x5fu8]) == "0x7e5f"@,
        bytes_of_hex("0x7E 5f"@, 2) == seq![0x7eu8, 0x5fu8],
        is_hex_of("0x7E 5f"@, 2),
        !is_hex_of("0X7e5f"@, 2),
{
    reveal_strlit("0x7e5f");
    reveal_strlit("0x7E 5f");
    reveal_strlit("0X7e5f");
    assert(hex_text(seq![0x7eu8, 0x5fu8]) =~= "0x7e5f"@);
    let body = without_0x("0x7E 5f"@);
    assert(body =~= seq!['7', 'E', ' ', '5', 'f']);
    reveal_with_fuel(Seq::filter, 8);
    let keep = |c: char| !is_hex_blank(c);
    assert(body.drop_last() =~= seq!['7', 'E', ' ', '5']);
    assert(body.drop_last().drop_last() =~= seq!['7', 'E', ' ']);
    assert(body.drop_last().drop_last().drop_last() =~= seq!['7', 'E']);
    assert(body.drop_last().drop_last().drop_last().drop_last() =~= seq!['7']);
    assert(body.drop_last().drop_last().drop_last().drop_last().drop_last() =~= Seq::<char>::empty());
    assert(body.filter(keep) =~= seq!['7', 'E', '5', 'f']);
    assert(hex_digits("0x7E 5f"@) =~= seq!['7', 'E', '5', 'f']);
    assert(bytes_of_hex("0x7E 5f"@, 2) =~= seq![0x7eu8, 0x5fu8]);
    let other = without_0x("0X7e5f"@);
    assert(other =~= "0X7e5f"@);
    assert(hex_digits("0X7e5f"@).len() <= 6) by {
        other.lemma_filter_len(keep);
    }
    assert(!is_hex_of("0X7e5f"@, 2)) by {
        let d = hex_digits("0X7e5f"@);
        if d.len() == 4 {
            // six characters, none of them blank, cannot shrink to four
            lemma_filter_keeps_all(other);
        }
    }
}

} // verus!
