//! Text building blocks shared by the playlist renderer and the key
//! derivation: decimal numbers and fixed-point seconds.

use vstd::prelude::*;
use vstd::string::*;

verus! {

/// The character that writes the decimal digit `d`.
pub open spec fn digit_char(d: nat) -> char {
    if d == 0 {
        '0'
    } else if d == 1 {
        '1'
    } else if d == 2 {
        '2'
    } else if d == 3 {
        '3'
    } else if d == 4 {
        '4'
    } else if d == 5 {
        '5'
    } else if d == 6 {
        '6'
    } else if d == 7 {
        '7'
    } else if d == 8 {
        '8'
    } else {
        '9'
    }
}

/// The decimal numeral of `n`, most significant digit first, without
/// leading zeros (`0` is written "0").
pub open spec fn decimal(n: nat) -> Seq<char>
    decreases n,
{
    if n < 10 {
        seq![digit_char(n)]
    } else {
        decimal(n / 10).push(digit_char(n % 10))
    }
}

/// A count of milliseconds written as seconds with exactly three decimals:
/// `2000` is "2.000", `15` is "0.015".
pub open spec fn seconds_text(millis: nat) -> Seq<char> {
    decimal(millis / 1000) + seq![
        '.',
        digit_char((millis / 100) % 10),
        digit_char((millis / 10) % 10),
        digit_char(millis % 10),
    ]
}

/// The one-character string of a decimal digit.
pub fn digit_str(d: u8) -> (res: &'static str)
    requires
        d < 10,
    ensures
        res@ == seq![digit_char(d as nat)],
{
    proof {
        reveal_strlit("0");
        reveal_strlit("1");
        reveal_strlit("2");
        reveal_strlit("3");
        reveal_strlit("4");
        reveal_strlit("5");
        reveal_strlit("6");
        reveal_strlit("7");
        reveal_strlit("8");
        reveal_strlit("9");
    }
    let res = if d == 0 {
        "0"
    } else if d == 1 {
        "1"
    } else if d == 2 {
        "2"
    } else if d == 3 {
        "3"
    } else if d == 4 {
        "4"
    } else if d == 5 {
        "5"
    } else if d == 6 {
        "6"
    } else if d == 7 {
        "7"
    } else if d == 8 {
        "8"
    } else {
        "9"
    };
    assert(res@ =~= seq![digit_char(d as nat)]);
    res
}

/// Appends the decimal numeral of `n` to `out`.
pub fn push_decimal(out: &mut String, n: u64)
    ensures
        final(out)@ == old(out)@ + decimal(n as nat),
    decreases n,
{
    if n >= 10 {
        push_decimal(out, n / 10);
    }
    out.append(digit_str((n % 10) as u8));
    proof {
        if n >= 10 {
            assert(decimal(n as nat) == decimal((n / 10) as nat).push(digit_char((n % 10) as nat)));
            assert(final(out)@ =~= old(out)@ + decimal(n as nat));
        } else {
            assert(final(out)@ =~= old(out)@ + decimal(n as nat));
        }
    }
}

/// Appends `millis` milliseconds as seconds with three decimals.
pub fn push_seconds(out: &mut String, millis: u64)
    ensures
        final(out)@ == old(out)@ + seconds_text(millis as nat),
{
    push_decimal(out, millis / 1000);
    out.append(".");
    out.append(digit_str(((millis / 100) % 10) as u8));
    out.append(digit_str(((millis / 10) % 10) as u8));
    out.append(digit_str((millis % 10) as u8));
    proof {
        reveal_strlit(".");
        assert("."@ =~= seq!['.']);
        assert(final(out)@ =~= old(out)@ + seconds_text(millis as nat));
    }
}

/// Whether two texts are the same.
pub fn same_text(first: &str, second: &str) -> (res: bool)
    ensures
        res == (first@ == second@),
{
    let a = String::from_str(first);
    let b = String::from_str(second);
    a == b
}

/// The characters of `text`.
pub fn chars_of(text: &str) -> (res: Vec<char>)
    ensures
        res@ == text@,
{
    let len = text.unicode_len();
    let mut res: Vec<char> = Vec::new();
    let mut i: usize = 0;
    while i < len
        invariant
            i <= len,
            len == text@.len(),
            res@ == text@.take(i as int),
        decreases len - i,
    {
        res.push(text.get_char(i));
        i += 1;
        assert(res@ =~= text@.take(i as int));
    }
    assert(text@.take(len as int) =~= text@);
    res
}

/// Whether `c` is white space: one of the code points with the Unicode
/// property `White_Space`.
pub open spec fn is_space(c: char) -> bool {
    let u = c as u32;
    ||| 0x09 <= u <= 0x0D
    ||| u == 0x20
    ||| u == 0x85
    ||| u == 0xA0
    ||| u == 0x1680
    ||| 0x2000 <= u <= 0x200A
    ||| u == 0x2028
    ||| u == 0x2029
    ||| u == 0x202F
    ||| u == 0x205F
    ||| u == 0x3000
}

/// What is trimmed off the ends of a text.
#[derive(Debug, Clone, Copy, PartialEq, Eq, Structural)]
pub enum Trim {
    /// White space
    Space,
    /// Double quotes
    Quote,
}

impl Trim {
    /// Whether `c` is a character that is trimmed off.
    pub open spec fn drops(self, c: char) -> bool {
        match self {
            Trim::Space => is_space(c),
            Trim::Quote => c == '"',
        }
    }

    /// Computes [`Trim::drops`].
    pub fn is_dropped(self, c: char) -> (res: bool)
        ensures
            res == self.drops(c),
    {
        match self {
            Trim::Space => {
                let u = c as u32;
                (0x09 <= u && u <= 0x0D) || u == 0x20 || u == 0x85 || u == 0xA0 || u == 0x1680 || (
                0x2000 <= u && u <= 0x200A) || u == 0x2028 || u == 0x2029 || u == 0x202F || u
                    == 0x205F || u == 0x3000
            },
            Trim::Quote => c == '"',
        }
    }
}

/// `text` without the characters of kind `kind` at its start and at its
/// end.
pub open spec fn trimmed(text: Seq<char>, kind: Trim) -> Seq<char>
    decreases text.len(),
{
    if text.len() > 0 && kind.drops(text.first()) {
        trimmed(text.drop_first(), kind)
    } else if text.len() > 0 && kind.drops(text.last()) {
        trimmed(text.drop_last(), kind)
    } else {
        text
    }
}

/// Trimming a text that has trimmed characters around a core without one
/// at its ends leaves the core.
pub proof fn lemma_trimmed_range(text: Seq<char>, kind: Trim, from: int, to: int)
    requires
        0 <= from <= to <= text.len(),
        forall|i: int| 0 <= i < from ==> kind.drops(#[trigger] text[i]),
        forall|i: int| to <= i < text.len() ==> kind.drops(#[trigger] text[i]),
        from < to ==> !kind.drops(text[from]) && !kind.drops(text[to - 1]),
    ensures
        trimmed(text, kind) == text.subrange(from, to),
    decreases text.len(),
{
    if text.len() > 0 && kind.drops(text.first()) {
        if from == 0 {
            assert(to == 0) by {
                if to > 0 {
                    assert(!kind.drops(text[from]));
                }
            }
            let rest = text.drop_first();
            assert forall|i: int| 0 <= i < rest.len() implies kind.drops(#[trigger] rest[i]) by {
                assert(rest[i] == text[i + 1]);
            }
            lemma_trimmed_range(rest, kind, 0, 0);
            assert(rest.subrange(0, 0) =~= text.subrange(0, 0));
        } else {
            let rest = text.drop_first();
            assert forall|i: int| 0 <= i < from - 1 implies kind.drops(#[trigger] rest[i]) by {
                assert(rest[i] == text[i + 1]);
            }
            assert forall|i: int| to - 1 <= i < rest.len() implies kind.drops(
                #[trigger] rest[i],
            ) by {
                assert(rest[i] == text[i + 1]);
            }
            lemma_trimmed_range(rest, kind, from - 1, to - 1);
            assert(rest.subrange(from - 1, to - 1) =~= text.subrange(from, to));
        }
    } else if text.len() > 0 && kind.drops(text.last()) {
        assert(from == 0);
        assert(to < text.len()) by {
            if to == text.len() {
                assert(!kind.drops(text[to - 1]));
            }
        }
        let rest = text.drop_last();
        assert forall|i: int| to <= i < rest.len() implies kind.drops(#[trigger] rest[i]) by {
            assert(rest[i] == text[i]);
        }
        lemma_trimmed_range(rest, kind, from, to);
        assert(rest.subrange(from, to) =~= text.subrange(from, to));
    } else {
        if text.len() > 0 {
            assert(from == 0);
            assert(to == text.len());
        }
        assert(text.subrange(from, to) =~= text);
    }
}

/// Where the part of `text` from `from` up to `to` starts and ends once
/// the characters of kind `kind` are trimmed off its ends.
pub fn trim_range(text: &Vec<char>, from: usize, to: usize, kind: Trim) -> (res: (usize, usize))
    requires
        from <= to <= text@.len(),
    ensures
        from <= res.0 <= res.1 <= to,
        trimmed(text@.subrange(from as int, to as int), kind) == text@.subrange(
            res.0 as int,
            res.1 as int,
        ),
{
    let mut start: usize = from;
    while start < to && kind.is_dropped(text[start])
        invariant
            from <= start <= to <= text@.len(),
            forall|i: int| from <= i < start ==> kind.drops(#[trigger] text@[i]),
        decreases to - start,
    {
        start += 1;
    }
    let mut end: usize = to;
    while end > start && kind.is_dropped(text[end - 1])
        invariant
            start <= end <= to <= text@.len(),
            forall|i: int| end <= i < to ==> kind.drops(#[trigger] text@[i]),
        decreases end,
    {
        end -= 1;
    }
    proof {
        let part = text@.subrange(from as int, to as int);
        assert forall|i: int| 0 <= i < start - from implies kind.drops(#[trigger] part[i]) by {
            assert(part[i] == text@[i + from]);
        }
        assert forall|i: int| end - from <= i < part.len() implies kind.drops(
            #[trigger] part[i],
        ) by {
            assert(part[i] == text@[i + from]);
        }
        if start < end {
            assert(part[start - from] == text@[start as int]);
            assert(part[end - from - 1] == text@[end - 1]);
        }
        lemma_trimmed_range(part, kind, start - from, end - from);
        assert(part.subrange(start - from, end - from) =~= text@.subrange(start as int, end as int));
    }
    (start, end)
}

/// The number of characters of `text` in front of its first `separator`;
/// all of them where it holds none.
pub open spec fn field_len(text: Seq<char>, separator: char) -> int
    decreases text.len(),
{
    if text.len() == 0 || text.first() == separator {
        0
    } else {
        1 + field_len(text.drop_first(), separator)
    }
}

/// A field ends where the next separator stands, or where the text ends.
pub proof fn lemma_field_len(text: Seq<char>, separator: char, len: int)
    requires
        0 <= len <= text.len(),
        forall|i: int| 0 <= i < len ==> #[trigger] text[i] != separator,
        len < text.len() ==> text[len] == separator,
    ensures
        field_len(text, separator) == len,
    decreases text.len(),
{
    if text.len() == 0 || text.first() == separator {
        if len > 0 {
            assert(text[0] != separator);
        }
    } else {
        let rest = text.drop_first();
        assert forall|i: int| 0 <= i < len - 1 implies #[trigger] rest[i] != separator by {
            assert(rest[i] == text[i + 1]);
        }
        lemma_field_len(rest, separator, len - 1);
    }
}

/// Where the field that starts at `from` ends: at the next `separator`,
/// or at `to` where there is none in front of `to`.
pub fn field_end(text: &Vec<char>, from: usize, to: usize, separator: char) -> (res: usize)
    requires
        from <= to <= text@.len(),
    ensures
        from <= res <= to,
        res - from == field_len(text@.subrange(from as int, to as int), separator),
        res < to ==> text@[res as int] == separator,
{
    let mut end: usize = from;
    while end < to && text[end] != separator
        invariant
            from <= end <= to <= text@.len(),
            forall|i: int| from <= i < end ==> #[trigger] text@[i] != separator,
        decreases to - end,
    {
        end += 1;
    }
    proof {
        let part = text@.subrange(from as int, to as int);
        assert forall|i: int| 0 <= i < end - from implies #[trigger] part[i] != separator by {
            assert(part[i] == text@[i + from]);
        }
        lemma_field_len(part, separator, end - from);
    }
    end
}

/// Whether `c` is one of the digits `0` to `9`.
pub open spec fn is_digit(c: char) -> bool {
    '0' <= c <= '9'
}

/// The number that the digits `digits` write in decimal.
pub open spec fn digits_value(digits: Seq<char>) -> nat
    decreases digits.len(),
{
    if digits.len() == 0 {
        0
    } else {
        digits_value(digits.drop_last()) * 10 + (digits.last() as u32 - '0' as u32) as nat
    }
}

/// `text` without its plus sign, if it starts with one.
pub open spec fn behind_sign(text: Seq<char>) -> Seq<char> {
    if text.len() > 0 && text.first() == '+' {
        text.drop_first()
    } else {
        text
    }
}

/// Whether every character of `text` is a digit.
pub open spec fn all_digits(text: Seq<char>) -> bool {
    forall|i: int| 0 <= i < text.len() ==> is_digit(#[trigger] text[i])
}

/// The number that `text` writes, as the standard parser of 32-bit
/// unsigned numbers reads it: an optional plus sign and then at least one
/// digit, nothing else, and a value that fits 32 bits.
pub open spec fn parsed_number(text: Seq<char>) -> Option<u32> {
    let digits = behind_sign(text);
    if digits.len() > 0 && all_digits(digits) && digits_value(digits) <= u32::MAX {
        Some(digits_value(digits) as u32)
    } else {
        None
    }
}

/// A number grows with every digit that is written behind it.
pub proof fn lemma_digits_value_grows(digits: Seq<char>, upto: int)
    requires
        0 <= upto <= digits.len(),
        all_digits(digits),
    ensures
        digits_value(digits.take(upto)) <= digits_value(digits),
    decreases digits.len() - upto,
{
    if upto == digits.len() {
        assert(digits.take(upto) =~= digits);
    } else {
        lemma_digits_value_grows(digits, upto + 1);
        assert(digits.take(upto + 1).drop_last() =~= digits.take(upto));
        assert(is_digit(digits[upto]));
    }
}

/// Reads the number that the characters from `from` up to `to` write.
pub fn parse_number(text: &Vec<char>, from: usize, to: usize) -> (res: Option<u32>)
    requires
        from <= to <= text@.len(),
    ensures
        res == parsed_number(text@.subrange(from as int, to as int)),
{
    let ghost part = text@.subrange(from as int, to as int);
    let start = if from < to && text[from] == '+' {
        from + 1
    } else {
        from
    };
    let ghost digits = text@.subrange(start as int, to as int);
    proof {
        if from < to && part.first() == '+' {
            assert(part.drop_first() =~= digits);
        } else {
            assert(part =~= digits);
        }
        assert(digits == behind_sign(part));
    }
    if start == to {
        return None;
    }
    let mut value: u64 = 0;
    let mut i: usize = start;
    while i < to
        invariant
            start <= i <= to <= text@.len(),
            start < to,
            part == text@.subrange(from as int, to as int),
            digits == text@.subrange(start as int, to as int),
            digits == behind_sign(part),
            forall|k: int| 0 <= k < i - start ==> is_digit(#[trigger] digits[k]),
            value == digits_value(digits.take(i - start)),
            value <= u32::MAX,
        decreases to - i,
    {
        let c = text[i];
        if !('0' <= c && c <= '9') {
            assert(digits[i - start] == c);
            return None;
        }
        let digit = (c as u32 - '0' as u32) as u64;
        proof {
            assert(digits.take(i - start + 1).drop_last() =~= digits.take(i - start));
            assert(digits.take(i - start + 1).last() == c);
        }
        let next = value * 10 + digit;
        if next > u32::MAX as u64 {
            proof {
                if all_digits(digits) {
                    lemma_digits_value_grows(digits, i - start + 1);
                }
            }
            return None;
        }
        value = next;
        i += 1;
    }
    proof {
        assert(digits.take(to - start) =~= digits);
    }
    Some(value as u32)
}

/// Writing a number and reading it back gives the number: the numeral
/// of `n` holds digits only, and their value is `n`.
pub proof fn law_decimal_reads_back(n: nat)
    ensures
        decimal(n).len() > 0,
        all_digits(decimal(n)),
        digits_value(decimal(n)) == n,
    decreases n,
{
    if n < 10 {
        assert(decimal(n).drop_last() =~= Seq::<char>::empty());
        assert(digits_value(decimal(n).drop_last()) == 0);
    } else {
        law_decimal_reads_back(n / 10);
        let shorter = decimal(n / 10);
        assert(decimal(n).drop_last() =~= shorter);
        assert(decimal(n).last() == digit_char(n % 10));
        assert forall|i: int| 0 <= i < decimal(n).len() implies is_digit(
            #[trigger] decimal(n)[i],
        ) by {
            if i < shorter.len() {
                assert(decimal(n)[i] == shorter[i]);
            }
        }
    }
}

/// Different numbers have different numerals.
pub proof fn law_decimal_is_injective(a: nat, b: nat)
    requires
        decimal(a) == decimal(b),
    ensures
        a == b,
{
    law_decimal_reads_back(a);
    law_decimal_reads_back(b);
}

} // verus!
