//! Text: comparison, white space, decimal and hexadecimal numbers.
use vstd::prelude::*;
use vstd::string::{StrSliceExecFns, StringExecFns};

verus! {

/// The characters that Unicode gives the property `White_Space`.
pub open spec fn is_white_space(c: char) -> bool {
    let v = c as int;
    ||| 9 <= v <= 13
    ||| v == 0x20
    ||| v == 0x85
    ||| v == 0xa0
    ||| v == 0x1680
    ||| 0x2000 <= v <= 0x200a
    ||| v == 0x2028
    ||| v == 0x2029
    ||| v == 0x202f
    ||| v == 0x205f
    ||| v == 0x3000
}

/// `text` without the white space it begins with.
pub open spec fn without_leading_space(text: Seq<char>) -> Seq<char>
    decreases text.len(),
{
    if text.len() > 0 && is_white_space(text[0]) {
        without_leading_space(text.drop_first())
    } else {
        text
    }
}

/// `text` without the white space it ends with.
pub open spec fn without_trailing_space(text: Seq<char>) -> Seq<char>
    decreases text.len(),
{
    if text.len() > 0 && is_white_space(text.last()) {
        without_trailing_space(text.drop_last())
    } else {
        text
    }
}

/// `text` without white space at either end.
pub open spec fn trimmed(text: Seq<char>) -> Seq<char> {
    without_trailing_space(without_leading_space(text))
}

/// Whether all of `text` is white space (true of the empty text).
pub open spec fn is_blank(text: Seq<char>) -> bool {
    trimmed(text).len() == 0
}

fn white_space(c: char) -> (r: bool)
    ensures
        r == is_white_space(c),
{
    let v: u32 = c as u32;
    (9 <= v && v <= 13) || v == 0x20 || v == 0x85 || v == 0xa0 || v == 0x1680 || (0x2000 <= v && v
        <= 0x200a) || v == 0x2028 || v == 0x2029 || v == 0x202f || v == 0x205f || v == 0x3000
}

/// The characters of a text.
pub fn char_list(text: &str) -> (r: Vec<char>)
    ensures
        r@ == text@,
{
    let mut list: Vec<char> = Vec::new();
    for c in iter: text.chars()
        invariant
            list@ == text@.take(iter.index() as int),
            iter.seq() == text@,
    {
        proof {
            assert(text@.take(iter.index() as int + 1) =~= text@.take(iter.index() as int).push(c));
        }
        list.push(c);
    }
    assert(text@.take(text@.len() as int) =~= text@);
    list
}

/// Whether two texts are the same, character for character.
pub fn same_text(a: &str, b: &str) -> (r: bool)
    ensures
        r == (a@ == b@),
{
    a.to_owned() == b.to_owned()
}

/// Whether two optional texts are both absent, or both present and the same.
pub fn same_optional_text(a: &Option<String>, b: &Option<String>) -> (r: bool)
    ensures
        r == (optional_view(*a) == optional_view(*b)),
{
    match (a, b) {
        (Some(x), Some(y)) => same_text(x.as_str(), y.as_str()),
        (None, None) => true,
        _ => false,
    }
}

/// The characters of an optional text.
pub open spec fn optional_view(text: Option<String>) -> Option<Seq<char>> {
    match text {
        Some(t) => Some(t@),
        None => None,
    }
}

/// The characters of each text of a list.
pub open spec fn list_view(texts: Seq<String>) -> Seq<Seq<char>> {
    texts.map_values(|t: String| t@)
}

/// A copy of an optional text.
pub fn copy_optional(text: &Option<String>) -> (r: Option<String>)
    ensures
        r == *text,
{
    match text {
        Some(t) => Some(t.clone()),
        None => None,
    }
}

/// A copy of a list of texts.
pub fn copy_list(texts: &Vec<String>) -> (r: Vec<String>)
    ensures
        list_view(r@) == list_view(texts@),
        r@.len() == texts@.len(),
{
    let mut copy: Vec<String> = Vec::new();
    let mut i: usize = 0;
    while i < texts.len()
        invariant
            i <= texts@.len(),
            copy@.len() == i,
            forall|k: int| 0 <= k < i ==> (#[trigger] copy@[k])@ == texts@[k]@,
        decreases texts.len() - i,
    {
        copy.push(texts[i].clone());
        i = i + 1;
    }
    assert(list_view(copy@) =~= list_view(texts@));
    copy
}

/// `text` without white space at either end.
pub fn trim(text: &str) -> (r: String)
    ensures
        r@ == trimmed(text@),
{
    let len: usize = text.unicode_len();
    let mut from: usize = 0;
    assert(text@.skip(0) =~= text@);
    while from < len && white_space(text.get_char(from))
        invariant
            from <= len,
            len == text@.len(),
            without_leading_space(text@) == without_leading_space(text@.skip(from as int)),
        decreases len - from,
    {
        proof {
            assert(text@.skip(from as int).drop_first() =~= text@.skip(from as int + 1));
        }
        from = from + 1;
    }
    let ghost rest = text@.skip(from as int);
    let mut to: usize = len;
    assert(text@.subrange(from as int, to as int) =~= rest);
    while to > from && white_space(text.get_char(to - 1))
        invariant
            from <= to <= len,
            len == text@.len(),
            rest == text@.skip(from as int),
            without_trailing_space(rest) == without_trailing_space(
                text@.subrange(from as int, to as int),
            ),
        decreases to - from,
    {
        proof {
            assert(text@.subrange(from as int, to as int).drop_last() =~= text@.subrange(
                from as int,
                to as int - 1,
            ));
        }
        to = to - 1;
    }
    text.substring_char(from, to).to_owned()
}

/// Whether `text` holds nothing but white space.
pub fn blank(text: &str) -> (r: bool)
    ensures
        r == is_blank(text@),
{
    let t = trim(text);
    t.as_str().is_empty()
}

/// The character of a digit from 0 to 9.
pub open spec fn digit(d: int) -> char {
    (48 + d) as char
}

/// A number in decimal, without leading zeros.
pub open spec fn decimal(n: nat) -> Seq<char>
    decreases n,
{
    if n < 10 {
        seq![digit(n as int)]
    } else {
        decimal(n / 10).push(digit((n % 10) as int))
    }
}

/// An integer in decimal, with a minus sign where it is negative.
pub open spec fn decimal_int(n: int) -> Seq<char> {
    if n < 0 {
        "-"@ + decimal((-n) as nat)
    } else {
        decimal(n as nat)
    }
}

fn digit_text(d: u64) -> (r: &'static str)
    requires
        d < 10,
    ensures
        r@ == seq![digit(d as int)],
{
    proof {
        reveal_strlit("0");
        reveal_strlit("1");
        reveal_strlit("2");
        reveal_strlit("3");
        reveal_strlit("4");
        reveal_strlit("5");
        reveal_strlit("6");
        reveal_strlit("7");
        reveal_strlit("8");
        reveal_strlit("9");
    }
    match d {
        0 => "0",
        1 => "1",
        2 => "2",
        3 => "3",
        4 => "4",
        5 => "5",
        6 => "6",
        7 => "7",
        8 => "8",
        _ => "9",
    }
}

/// Writes a number in decimal.
pub fn decimal_text(n: u64) -> (r: String)
    ensures
        r@ == decimal(n as nat),
    decreases n,
{
    if n < 10 {
        digit_text(n).to_owned()
    } else {
        let mut text = decimal_text(n / 10);
        text.append(digit_text(n % 10));
        proof {
            assert(decimal((n / 10) as nat) + seq![digit((n % 10) as int)] =~= decimal(
                (n / 10) as nat,
            ).push(digit((n % 10) as int)));
        }
        text
    }
}

/// Writes a signed number in decimal.
pub fn signed_decimal_text(n: i64) -> (r: String)
    ensures
        r@ == decimal_int(n as int),
{
    if n < 0 {
        let magnitude: u64 = (-(n as i128)) as u64;
        let mut text = "-".to_owned();
        text.append(decimal_text(magnitude).as_str());
        text
    } else {
        decimal_text(n as u64)
    }
}

/// The value of a decimal digit.
pub open spec fn digit_value(c: char) -> Option<int> {
    if '0' <= c && c <= '9' {
        Some(c as int - '0' as int)
    } else {
        None
    }
}

/// The number that a run of decimal digits writes, most significant first.
pub open spec fn digits_value(text: Seq<char>) -> Option<nat>
    decreases text.len(),
{
    if text.len() == 0 {
        Some(0)
    } else {
        match (digits_value(text.drop_last()), digit_value(text.last())) {
            (Some(high), Some(low)) => Some((high * 10 + low) as nat),
            _ => None,
        }
    }
}

/// What reading `text` as an unsigned 64-bit number gives: one or more decimal
/// digits, after at most one plus sign, that write a number which fits.
pub open spec fn unsigned_value(text: Seq<char>) -> Option<u64> {
    let digits = if text.len() > 0 && text[0] == '+' {
        text.drop_first()
    } else {
        text
    };
    match digits_value(digits) {
        Some(value) if digits.len() > 0 && value <= u64::MAX => Some(value as u64),
        _ => None,
    }
}

proof fn lemma_digits_prefix(text: Seq<char>, n: int)
    requires
        0 <= n <= text.len(),
    ensures
        digits_value(text) matches Some(v) ==> (digits_value(text.take(n)) matches Some(p) && p
            <= v),
        digits_value(text.take(n)) is None ==> digits_value(text) is None,
    decreases text.len(),
{
    if n == text.len() {
        assert(text.take(n) =~= text);
    } else {
        lemma_digits_prefix(text.drop_last(), n);
        assert(text.drop_last().take(n) =~= text.take(n));
    }
}

/// Reads an unsigned 64-bit number in decimal.
pub fn parse_unsigned(text: &str) -> (r: Option<u64>)
    ensures
        r == unsigned_value(text@),
{
    let len: usize = text.unicode_len();
    let start: usize = if len > 0 && text.get_char(0) == '+' {
        1
    } else {
        0
    };
    if start == len {
        return None;
    }
    let ghost digits = text@.skip(start as int);
    proof {
        assert(start == 1 ==> digits =~= text@.drop_first());
        assert(start == 0 ==> digits =~= text@);
    }
    let mut value: u64 = 0;
    let mut i: usize = start;
    while i < len
        invariant
            start <= i <= len,
            len == text@.len(),
            digits == text@.skip(start as int),
            unsigned_value(text@) == (match digits_value(digits) {
                Some(v) if digits.len() > 0 && v <= u64::MAX => Some(v as u64),
                _ => None,
            }),
            digits_value(digits.take(i - start)) == Some(value as nat),
        decreases len - i,
    {
        let c: char = text.get_char(i);
        proof {
            assert(digits.take(i + 1 - start).drop_last() =~= digits.take(i - start));
            assert(digits.take(i + 1 - start).last() == c);
            lemma_digits_prefix(digits, i + 1 - start);
        }
        if c < '0' || '9' < c {
            return None;
        }
        let low: u64 = (c as u32 - 48) as u64;
        if value > (u64::MAX - low) / 10 {
            proof {
                assert(value * 10 + low > u64::MAX);
            }
            return None;
        }
        value = value * 10 + low;
        i = i + 1;
    }
    proof {
        assert(digits.take(len - start) =~= digits);
    }
    Some(value)
}

/// What reading `text` as a signed 64-bit number gives: one or more decimal
/// digits, after at most one minus sign, that write a number which fits.
pub open spec fn signed_value(text: Seq<char>) -> Option<i64> {
    if text.len() > 0 && text[0] == '-' {
        match digits_value(text.drop_first()) {
            Some(value) if text.len() > 1 && -value >= i64::MIN => Some((-value) as i64),
            _ => None,
        }
    } else {
        match digits_value(text) {
            Some(value) if text.len() > 0 && value <= i64::MAX => Some(value as i64),
            _ => None,
        }
    }
}

/// Reads a signed 64-bit number in decimal.
pub fn parse_signed(text: &str) -> (r: Option<i64>)
    ensures
        r == signed_value(text@),
{
    let len: usize = text.unicode_len();
    if len == 0 {
        return None;
    }
    let negative: bool = text.get_char(0) == '-';
    let start: usize = if negative {
        1
    } else {
        0
    };
    if text.get_char(0) == '+' {
        proof {
            lemma_digits_prefix(text@, 1);
            assert(text@.take(1).drop_last() =~= seq![]);
            assert(text@.take(1).last() == '+');
            assert(digits_value(seq![]) == Some(0nat));
        }
        return None;
    }
    let rest = text.substring_char(start, len);
    proof {
        if negative {
            assert(rest@ =~= text@.drop_first());
        } else {
            assert(rest@ =~= text@);
        }
        if rest@.len() > 0 && rest@[0] == '+' {
            lemma_digits_prefix(rest@, 1);
            assert(rest@.take(1).drop_last() =~= seq![]);
            assert(rest@.take(1).last() == '+');
            assert(digits_value(seq![]) == Some(0nat));
        }
    }
    if negative && len > 1 && text.get_char(1) == '+' {
        return None;
    }
    match parse_unsigned(rest) {
        None => None,
        Some(value) => if negative {
            if value <= 9_223_372_036_854_775_808 {
                Some((-(value as i128)) as i64)
            } else {
                None
            }
        } else {
            if value <= i64::MAX as u64 {
                Some(value as i64)
            } else {
                None
            }
        },
    }
}

/// The character of a hexadecimal digit from 0 to 15, in lower case.
pub open spec fn hex_digit(d: int) -> char {
    if d < 10 {
        (48 + d) as char
    } else {
        (87 + d) as char
    }
}

/// The value of a hexadecimal digit in either case.
pub open spec fn hex_value(c: char) -> Option<int> {
    if '0' <= c && c <= '9' {
        Some(c as int - '0' as int)
    } else if 'a' <= c && c <= 'f' {
        Some(c as int - 'a' as int + 10)
    } else if 'A' <= c && c <= 'F' {
        Some(c as int - 'A' as int + 10)
    } else {
        None
    }
}

/// Bytes in hexadecimal, two lower-case digits for each.
pub open spec fn hex(bytes: Seq<u8>) -> Seq<char> {
    Seq::new(
        2 * bytes.len(),
        |i: int|
            if i % 2 == 0 {
                hex_digit(bytes[i / 2] as int / 16)
            } else {
                hex_digit(bytes[i / 2] as int % 16)
            },
    )
}

fn hex_digit_text(d: u8) -> (r: &'static str)
    requires
        d < 16,
    ensures
        r@ == seq![hex_digit(d as int)],
{
    proof {
        reveal_strlit("a");
        reveal_strlit("b");
        reveal_strlit("c");
        reveal_strlit("d");
        reveal_strlit("e");
        reveal_strlit("f");
    }
    if d < 10 {
        digit_text(d as u64)
    } else {
        match d {
            10 => "a",
            11 => "b",
            12 => "c",
            13 => "d",
            14 => "e",
            _ => "f",
        }
    }
}

/// Writes bytes in hexadecimal.
pub fn hex_text(bytes: &[u8]) -> (r: String)
    ensures
        r@ == hex(bytes@),
{
    let mut text = String::new();
    let mut i: usize = 0;
    while i < bytes.len()
        invariant
            i <= bytes@.len(),
            text@ == hex(bytes@.take(i as int)),
        decreases bytes.len() - i,
    {
        let byte: u8 = bytes[i];
        text.append(hex_digit_text(byte / 16));
        text.append(hex_digit_text(byte % 16));
        proof {
            let before = hex(bytes@.take(i as int));
            let after = hex(bytes@.take(i + 1));
            assert(after =~= before + seq![hex_digit(byte as int / 16)] + seq![
                hex_digit(byte as int % 16),
            ]);
        }
        i = i + 1;
    }
    proof {
        assert(bytes@.take(bytes@.len() as int) =~= bytes@);
    }
    text
}

/// Whether a text occurs within another at a position.
pub open spec fn occurs_at(text: Seq<char>, part: Seq<char>, at: int) -> bool {
    0 <= at <= text.len() - part.len() && text.subrange(at, at + part.len()) == part
}

/// Whether a text occurs within another.
pub open spec fn contains_text(text: Seq<char>, part: Seq<char>) -> bool {
    exists|at: int| occurs_at(text, part, at)
}

/// Whether a text occurs within another.
pub fn has_part(text: &str, part: &str) -> (r: bool)
    ensures
        r == contains_text(text@, part@),
{
    let x = char_list(text);
    let y = char_list(part);
    if y.len() > x.len() {
        return false;
    }
    let total: usize = x.len();
    let last: usize = total - y.len();
    let mut at: usize = 0;
    while at <= last
        invariant
            x@ == text@,
            y@ == part@,
            total == x@.len(),
            last == total - y@.len(),
            at <= last + 1,
            forall|k: int| 0 <= k < at ==> !occurs_at(text@, part@, k),
        decreases last + 1 - at,
    {
        let mut i: usize = 0;
        while i < y.len() && x[at + i] == y[i]
            invariant
                i <= y@.len(),
                total == x@.len(),
                at + y@.len() <= total,
                forall|k: int| 0 <= k < i ==> x@[at + k] == #[trigger] y@[k],
            decreases y.len() - i,
        {
            i = i + 1;
        }
        if i == y.len() {
            assert(text@.subrange(at as int, at + part@.len()) =~= part@);
            assert(occurs_at(text@, part@, at as int));
            return true;
        }
        proof {
            assert(text@.subrange(at as int, at + part@.len())[i as int] != part@[i as int]);
        }
        if at == last {
            return false;
        }
        at = at + 1;
    }
    false
}

/// Digits are written as the characters from zero to nine, and read back.
pub proof fn law_digits_have_their_value(d: int)
    requires
        0 <= d < 10,
    ensures
        digit(d) as int == '0' as int + d,
        digit_value(digit(d)) == Some(d),
{
}

/// Hexadecimal digits are written in lower case, and read back.
pub proof fn law_hex_digits_have_their_value(d: int)
    requires
        0 <= d < 16,
    ensures
        d < 10 ==> hex_digit(d) as int == '0' as int + d,
        d >= 10 ==> hex_digit(d) as int == 'a' as int + d - 10,
        hex_value(hex_digit(d)) == Some(d),
{
}

/// Each byte is written as its two hexadecimal digits, the higher one first.
pub proof fn law_bytes_are_written_by_digits(bytes: Seq<u8>, i: int)
    requires
        0 <= i < bytes.len(),
    ensures
        hex(bytes).len() == 2 * bytes.len(),
        hex_value(hex(bytes)[2 * i]) == Some(bytes[i] as int / 16),
        hex_value(hex(bytes)[2 * i + 1]) == Some(bytes[i] as int % 16),
{
    law_hex_digits_have_their_value(bytes[i] as int / 16);
    law_hex_digits_have_their_value(bytes[i] as int % 16);
    assert((2 * i) / 2 == i && (2 * i + 1) / 2 == i);
}

/// Digits may be of either case; no other character is one.
pub proof fn law_hexadecimal_is_read_in_either_case(c: char)
    ensures
        hex_value(c) is Some <==> ('0' <= c && c <= '9') || ('a' <= c && c <= 'f') || ('A' <= c && c
            <= 'F'),
        'A' <= c && c <= 'F' ==> hex_value(c) == Some(c as int - 'A' as int + 10),
        'a' <= c && c <= 'f' ==> hex_value(c) == Some(c as int - 'a' as int + 10),
        '0' <= c && c <= '9' ==> hex_value(c) == Some(c as int - '0' as int),
        digit_value(c) is Some <==> '0' <= c && c <= '9',
{
}

/// A number is written by its digits, the last one last, without leading zeros.
pub proof fn law_numbers_are_written_by_digits(n: nat, d: int)
    requires
        0 <= d < 10,
    ensures
        decimal(d as nat) == seq![('0' as int + d) as char],
        n > 0 ==> decimal((10 * n + d) as nat) == decimal(n).push(('0' as int + d) as char),
{
    if n > 0 {
        assert((10 * n + d) as nat / 10 == n);
        assert((10 * n + d) as nat % 10 == d);
    }
}

/// A number that is written reads back as itself.
pub proof fn law_numbers_read_back(n: nat)
    ensures
        digits_value(decimal(n)) == Some(n),
        decimal(n).len() > 0,
        '0' <= decimal(n)[0] && decimal(n)[0] <= '9',
    decreases n,
{
    if n < 10 {
        let text = decimal(n);
        law_digits_have_their_value(n as int);
        assert(text.drop_last() =~= seq![]);
        assert(text.last() == digit(n as int));
        assert(digits_value(text.drop_last()) == Some(0nat));
    } else {
        law_numbers_read_back(n / 10);
        law_digits_have_their_value((n % 10) as int);
        let text = decimal(n);
        assert(text.drop_last() =~= decimal(n / 10));
        assert(text.last() == digit((n % 10) as int));
    }
}

/// Integers that fit read back as themselves, with their sign.
pub proof fn law_integers_read_back(n: i64, m: u64)
    ensures
        signed_value(decimal_int(n as int)) == Some(n),
        unsigned_value(decimal(m as nat)) == Some(m),
{
    law_numbers_read_back(m as nat);
    reveal_strlit("-");
    if n < 0 {
        let text = decimal_int(n as int);
        law_numbers_read_back((-n) as nat);
        assert(text[0] == '-');
        assert(text.drop_first() =~= decimal((-n) as nat));
    } else {
        law_numbers_read_back(n as nat);
    }
}

/// One digit more makes ten times the number, and the digit; a text with anything
/// else is no number.
pub proof fn law_digits_are_read_in_order(text: Seq<char>, c: char)
    ensures
        digits_value(seq![]) == Some(0nat),
        digits_value(text) is Some && '0' <= c && c <= '9' ==> digits_value(text.push(c)) == Some(
            (digits_value(text)->0 * 10 + (c as int - '0' as int)) as nat,
        ),
        digits_value(text) is None || !('0' <= c && c <= '9') ==> digits_value(
            text.push(c),
        ) is None,
{
    assert(text.push(c).drop_last() =~= text);
}

/// White space at either end is taken off, and nothing else.
pub proof fn law_trimming_takes_off_white_space(text: Seq<char>, c: char)
    ensures
        trimmed(seq![]).len() == 0,
        is_white_space(c) ==> trimmed(seq![c] + text) == trimmed(text),
        is_white_space(c) ==> trimmed(text.push(c)) == trimmed(text),
        text.len() > 0 && !is_white_space(text[0]) && !is_white_space(text.last()) ==> trimmed(text)
            == text,
{
    assert((seq![c] + text).drop_first() =~= text);
    if is_white_space(c) {
        lemma_trailing_space(text, c);
    }
    assert(without_leading_space(seq![]) == Seq::<char>::empty());
}

proof fn lemma_trailing_space(text: Seq<char>, c: char)
    requires
        is_white_space(c),
    ensures
        trimmed(text.push(c)) == trimmed(text),
    decreases text.len(),
{
    let longer = text.push(c);
    if text.len() == 0 {
        assert(longer.drop_first() =~= seq![]);
        assert(without_leading_space(longer) == without_leading_space(Seq::<char>::empty()));
        assert(text =~= seq![]);
    } else if is_white_space(text[0]) {
        lemma_trailing_space(text.drop_first(), c);
        assert(longer.drop_first() =~= text.drop_first().push(c));
    } else {
        assert(without_leading_space(longer) == longer);
        assert(longer.drop_last() =~= text);
    }
}

/// A text is blank where all of it is white space.
pub proof fn law_blank_texts_are_white_space(text: Seq<char>)
    ensures
        is_blank(text) <==> forall|i: int| 0 <= i < text.len() ==> is_white_space(#[trigger] text[i]),
    decreases text.len(),
{
    if text.len() == 0 {
        assert(text =~= seq![]);
    } else if is_white_space(text[0]) {
        let rest = text.drop_first();
        law_blank_texts_are_white_space(rest);
        assert forall|i: int| 0 <= i < rest.len() implies #[trigger] rest[i] == text[i + 1] by {}
        if is_blank(text) {
            assert forall|i: int| 0 <= i < text.len() implies is_white_space(#[trigger] text[i]) by {
                if i > 0 {
                    assert(is_white_space(rest[i - 1]));
                }
            }
        }
    } else {
        lemma_kept_text_is_not_empty(text);
    }
}

proof fn lemma_kept_text_is_not_empty(text: Seq<char>)
    requires
        text.len() > 0,
        !is_white_space(text[0]),
    ensures
        without_trailing_space(text).len() > 0,
    decreases text.len(),
{
    if is_white_space(text.last()) {
        assert(text.len() > 1);
        assert(text.drop_last()[0] == text[0]);
        lemma_kept_text_is_not_empty(text.drop_last());
    }
}

/// Blanks, tabs and line ends are white space; letters, digits and signs are not.
pub proof fn law_white_space_is_known(c: char)
    ensures
        c == ' ' || c == '\t' || c == '\n' || c == '\r' ==> is_white_space(c),
        '!' <= c && c <= '~' ==> !is_white_space(c),
{
}

/// A text occurs in another where it stands at some place, character for
/// character.
pub proof fn law_texts_occur_by_character(text: Seq<char>, part: Seq<char>, at: int)
    ensures
        occurs_at(text, part, at) <==> 0 <= at && at + part.len() <= text.len() && forall|i: int|
            0 <= i < part.len() ==> text[at + i] == #[trigger] part[i],
        contains_text(text, part) <==> exists|place: int| occurs_at(text, part, place),
{
    if 0 <= at && at + part.len() <= text.len() {
        let piece = text.subrange(at, at + part.len());
        if forall|i: int| 0 <= i < part.len() ==> text[at + i] == #[trigger] part[i] {
            assert(piece =~= part);
        }
        if piece == part {
            assert forall|i: int| 0 <= i < part.len() implies text[at + i] == #[trigger] part[i] by {
                assert(piece[i] == text[at + i]);
            }
        }
    }
}

} // verus!
