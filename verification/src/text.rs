//! Small pieces of text handling: C strings, word lists and decimal numbers.

use vstd::prelude::*;
use vstd::slice::slice_subrange;

verus! {

/// The bytes of `bytes` before its first NUL byte. There are none without a NUL byte.
pub fn bytes_until_nul(bytes: &[u8]) -> (text: Option<&[u8]>)
    ensures
        text is Some <==> bytes@.contains(0u8),
        text matches Some(t) ==> {
            &&& t@.len() < bytes@.len()
            &&& t@ == bytes@.take(t@.len() as int)
            &&& !t@.contains(0u8)
            &&& bytes@[t@.len() as int] == 0
        },
{
    let mut i: usize = 0;
    while i < bytes.len()
        invariant
            i <= bytes@.len(),
            forall|j: int| 0 <= j < i ==> bytes@[j] != 0,
        decreases bytes@.len() - i,
    {
        if bytes[i] == 0 {
            return Some(slice_subrange(bytes, 0, i));
        }
        i += 1;
    }
    None
}

/// The characters of `text`.
pub fn chars_of(text: &str) -> (chars: Vec<char>)
    ensures
        chars@ == text@,
{
    let mut chars: Vec<char> = Vec::new();
    for c in iter: text.chars()
        invariant
            iter.seq() == text@,
            chars@ == text@.take(iter.index() as int),
    {
        chars.push(c);
        assert(chars@ =~= text@.take(iter.index() + 1));
    }
    assert(text@.take(text@.len() as int) =~= text@);
    chars
}

/// A white space character: one with Unicode's `White_Space` property.
pub open spec fn is_white_space(c: char) -> bool {
    let code = c as u32;
    ||| 0x09 <= code <= 0x0d
    ||| code == 0x20
    ||| code == 0x85
    ||| code == 0xa0
    ||| code == 0x1680
    ||| 0x2000 <= code <= 0x200a
    ||| code == 0x2028
    ||| code == 0x2029
    ||| code == 0x202f
    ||| code == 0x205f
    ||| code == 0x3000
}

fn white_space(c: char) -> (r: bool)
    ensures
        r == is_white_space(c),
{
    let code: u32 = c as u32;
    (0x09 <= code && code <= 0x0d) || code == 0x20 || code == 0x85 || code == 0xa0 || code == 0x1680
        || (0x2000 <= code && code <= 0x200a) || code == 0x2028 || code == 0x2029 || code == 0x202f
        || code == 0x205f || code == 0x3000
}

/// `text[start..stop]` is a word: a run of characters without white space, as long as it can
/// be.
pub open spec fn is_word(text: Seq<char>, start: int, stop: int) -> bool {
    &&& 0 <= start < stop <= text.len()
    &&& forall|i: int| start <= i < stop ==> !is_white_space(#[trigger] text[i])
    &&& start == 0 || is_white_space(text[start - 1])
    &&& stop == text.len() || is_white_space(text[stop])
}

/// `word` is one of the words of `text`.
pub open spec fn has_word(text: Seq<char>, word: Seq<char>) -> bool {
    exists|start: int, stop: int| #[trigger]
        is_word(text, start, stop) && text.subrange(start, stop) == word
}

/// Whether `text[start..stop]` is `word`.
fn same_chars(text: &Vec<char>, start: usize, stop: usize, word: &Vec<char>) -> (r: bool)
    requires
        start <= stop <= text@.len(),
    ensures
        r == (text@.subrange(start as int, stop as int) == word@),
{
    if stop - start != word.len() {
        return false;
    }
    let mut i: usize = 0;
    while i < word.len()
        invariant
            i <= word@.len(),
            start <= stop <= text@.len(),
            stop - start == word@.len(),
            forall|j: int| 0 <= j < i ==> text@[start + j] == #[trigger] word@[j],
        decreases word@.len() - i,
    {
        if text[start + i] != word[i] {
            assert(text@.subrange(start as int, stop as int)[i as int] != word@[i as int]);
            return false;
        }
        i += 1;
    }
    assert(text@.subrange(start as int, stop as int) =~= word@);
    true
}

/// Whether `word` is one of the words of `text`.
pub fn contains_word(text: &str, word: &str) -> (r: bool)
    ensures
        r == has_word(text@, word@),
{
    let text_chars = chars_of(text);
    let word_chars = chars_of(word);
    let mut start: usize = 0;
    while start < text_chars.len()
        invariant
            start <= text_chars@.len(),
            text_chars@ == text@,
            word_chars@ == word@,
            forall|a: int, b: int| #[trigger]
                is_word(text@, a, b) && a < start ==> text@.subrange(a, b) != word@,
        decreases text_chars@.len() - start,
    {
        if (start == 0 || white_space(text_chars[start - 1])) && !white_space(text_chars[start]) {
            let mut stop: usize = start + 1;
            while stop < text_chars.len() && !white_space(text_chars[stop])
                invariant
                    start < stop <= text_chars@.len(),
                    text_chars@ == text@,
                    forall|i: int| start <= i < stop ==> !is_white_space(#[trigger] text@[i]),
                decreases text_chars@.len() - stop,
            {
                stop += 1;
            }
            assert(is_word(text@, start as int, stop as int));
            if same_chars(&text_chars, start, stop, &word_chars) {
                return true;
            }
            assert forall|b: int| #[trigger] is_word(text@, start as int, b) implies b == stop by {
                if b < stop {
                    assert(!is_white_space(text@[b]));
                }
                if b > stop {
                    assert(!is_white_space(text@[stop as int]));
                }
            }
        }
        start += 1;
    }
    assert forall|a: int, b: int| #[trigger] is_word(text@, a, b) implies text@.subrange(a, b)
        != word@ by {}
    false
}

/// A decimal digit.
pub open spec fn is_digit(c: char) -> bool {
    '0' <= c <= '9'
}

/// The number that a digit stands for.
pub open spec fn digit_value(c: char) -> int {
    c as int - '0' as int
}

/// The number that a sequence of digits stands for.
pub open spec fn decimal_value(digits: Seq<char>) -> int
    decreases digits.len(),
{
    if digits.len() == 0 {
        0
    } else {
        decimal_value(digits.drop_last()) * 10 + digit_value(digits.last())
    }
}

/// Digits that stand for a number of at most a machine word.
pub open spec fn fits_word(digits: Seq<char>) -> bool {
    &&& forall|i: int| 0 <= i < digits.len() ==> is_digit(#[trigger] digits[i])
    &&& decimal_value(digits) <= usize::MAX
}

/// The digit that stands for `n`.
pub open spec fn digit(n: int) -> char {
    seq!['0', '1', '2', '3', '4', '5', '6', '7', '8', '9'][n]
}

/// `n` in decimal, without leading zeros.
pub open spec fn decimal(n: nat) -> Seq<char>
    decreases n,
{
    if n < 10 {
        seq![digit(n as int)]
    } else {
        decimal(n / 10).push(digit((n % 10) as int))
    }
}

fn digit_text(n: u32) -> (text: &'static str)
    requires
        n < 10,
    ensures
        text@ == seq![digit(n as int)],
{
    proof {
        reveal_strlit("0");
        reveal_strlit("1");
        reveal_strlit("2");
        reveal_strlit("3");
        reveal_strlit("4");
        reveal_strlit("5");
        reveal_strlit("6");
        reveal_strlit("7");
        reveal_strlit("8");
        reveal_strlit("9");
    }
    let text = match n {
        0 => "0",
        1 => "1",
        2 => "2",
        3 => "3",
        4 => "4",
        5 => "5",
        6 => "6",
        7 => "7",
        8 => "8",
        _ => "9",
    };
    assert(text@ =~= seq![digit(n as int)]);
    text
}

/// Writes `n` in decimal behind `text`.
pub fn append_decimal(text: &mut String, n: u32)
    ensures
        final(text)@ == old(text)@ + decimal(n as nat),
    decreases n,
{
    if n >= 10 {
        append_decimal(text, n / 10);
    }
    text.append(digit_text(n % 10));
    proof {
        let before = if n >= 10 {
            decimal(n as nat / 10)
        } else {
            Seq::empty()
        };
        assert(decimal(n as nat) =~= before + seq![digit((n % 10) as int)]);
        assert(text@ =~= old(text)@ + decimal(n as nat));
    }
}

/// `n` in decimal, with a minus sign if it is negative.
pub open spec fn signed_decimal(n: int) -> Seq<char> {
    if n < 0 {
        seq!['-'] + decimal((-n) as nat)
    } else {
        decimal(n as nat)
    }
}

/// Writes `n` in decimal behind `text`, with a minus sign if it is negative.
pub fn append_signed_decimal(text: &mut String, n: i32)
    ensures
        final(text)@ == old(text)@ + signed_decimal(n as int),
{
    if n < 0 {
        proof {
            reveal_strlit("-");
        }
        text.append("-");
        append_decimal(text, (-(n as i64)) as u32);
        assert("-"@ =~= seq!['-']);
        assert(text@ =~= old(text)@ + signed_decimal(n as int));
    } else {
        append_decimal(text, n as u32);
    }
}

/// Reads the digits from `start` on as a number. There is none if a character is not a digit
/// or if the number is too large for the machine.
pub fn parse_digits(digits: &Vec<char>, start: usize) -> (number: Option<usize>)
    requires
        start <= digits@.len(),
    ensures
        number is Some <==> fits_word(digits@.skip(start as int)),
        number matches Some(n) ==> n == decimal_value(digits@.skip(start as int)),
{
    let ghost all = digits@.skip(start as int);
    let mut number: usize = 0;
    let mut i: usize = start;
    assert(all.take(0) =~= Seq::empty());
    while i < digits.len()
        invariant
            start <= i <= digits@.len(),
            all == digits@.skip(start as int),
            number == decimal_value(all.take(i - start)),
            forall|j: int| 0 <= j < i - start ==> is_digit(#[trigger] all[j]),
        decreases digits@.len() - i,
    {
        let c = digits[i];
        assert(all[i - start] == c);
        if c < '0' || '9' < c {
            return None;
        }
        proof {
            assert(all.take(i - start + 1).drop_last() =~= all.take(i - start));
        }
        let value: usize = (c as u32 - '0' as u32) as usize;
        let next = match number.checked_mul(10) {
            Some(tens) => tens.checked_add(value),
            None => None,
        };
        match next {
            Some(n) => {
                number = n;
            },
            None => {
                proof {
                    if forall|j: int| 0 <= j < all.len() ==> is_digit(#[trigger] all[j]) {
                        lemma_prefix_value(all, i - start + 1);
                    }
                }
                return None;
            },
        }
        i += 1;
    }
    assert(all.take(i - start) =~= all);
    Some(number)
}

/// A number is at least as large as the number that a prefix of its digits stands for.
proof fn lemma_prefix_value(digits: Seq<char>, count: int)
    requires
        0 <= count <= digits.len(),
        forall|i: int| 0 <= i < digits.len() ==> is_digit(#[trigger] digits[i]),
    ensures
        0 <= decimal_value(digits.take(count)) <= decimal_value(digits),
    decreases digits.len(),
{
    if digits.len() == 0 {
        assert(digits.take(count) =~= digits);
    } else {
        let init = digits.drop_last();
        assert forall|i: int| 0 <= i < init.len() implies is_digit(#[trigger] init[i]) by {
            assert(init[i] == digits[i]);
        }
        assert(is_digit(digits[digits.len() - 1]));
        if count == digits.len() {
            assert(digits.take(count) =~= digits);
            lemma_prefix_value(init, init.len() as int);
            assert(init.take(init.len() as int) =~= init);
        } else {
            lemma_prefix_value(init, count);
            assert(init.take(count) =~= digits.take(count));
        }
    }
}

/// Reading a number written in decimal gives the number back.
pub proof fn law_decimal_round_trip(n: nat)
    ensures
        decimal_value(decimal(n)) == n,
        forall|i: int| 0 <= i < decimal(n).len() ==> is_digit(#[trigger] decimal(n)[i]),
        decimal(n).len() > 0,
    decreases n,
{
    reveal_with_fuel(decimal_value, 2);
    if n >= 10 {
        law_decimal_round_trip(n / 10);
        assert(decimal(n).drop_last() =~= decimal(n / 10));
    } else {
        assert(decimal(n).drop_last() =~= Seq::empty());
    }
}

/// A negative number is written as a minus sign and the number without it; a minus sign stands
/// nowhere else.
pub proof fn law_signs(n: nat)
    ensures
        n > 0 ==> signed_decimal(-(n as int)) == seq!['-'] + decimal(n),
        signed_decimal(n as int) == decimal(n),
        signed_decimal(n as int)[0] != '-',
{
    law_decimal_round_trip(n);
    assert(is_digit(decimal(n)[0]));
}

/// Different numbers are written differently.
pub proof fn law_signed_decimals_distinct(a: int, b: int)
    ensures
        signed_decimal(a) == signed_decimal(b) ==> a == b,
{
    let x = if a < 0 {
        (-a) as nat
    } else {
        a as nat
    };
    let y = if b < 0 {
        (-b) as nat
    } else {
        b as nat
    };
    law_signs(x);
    law_signs(y);
    law_decimal_round_trip(x);
    law_decimal_round_trip(y);
    assert(signed_decimal(a)[0] == '-' <==> a < 0);
    assert(signed_decimal(b)[0] == '-' <==> b < 0);
    if signed_decimal(a) == signed_decimal(b) && a < 0 {
        assert((seq!['-'] + decimal(x)).skip(1) =~= decimal(x));
        assert((seq!['-'] + decimal(y)).skip(1) =~= decimal(y));
    }
}

/// A digit behind a number makes it ten times as large and adds the digit; the first digit of a
/// number of two or more digits is not 0.
pub proof fn law_digits_of_a_number(n: nat, d: nat)
    requires
        d < 10,
    ensures
        n > 0 ==> decimal(10 * n + d) == decimal(n).push(digit(d as int)),
        digit(d as int) as int == '0' as int + d,
        decimal(d) == seq![digit(d as int)],
        n >= 10 ==> decimal(n)[0] != '0',
        n < 10 <==> decimal(n).len() == 1,
    decreases n,
{
    law_decimal_round_trip(n);
    if n > 0 {
        assert((10 * n + d) / 10 == n && (10 * n + d) % 10 == d);
    }
    if n >= 10 {
        law_decimal_round_trip(n / 10);
        if n / 10 >= 10 {
            law_digits_of_a_number(n / 10, d);
            assert(decimal(n)[0] == decimal(n / 10)[0]);
        } else {
            assert(decimal(n)[0] == decimal(n / 10)[0]);
        }
    }
}

/// A word of a text is a run of at least one character, none of them white space, with white
/// space or an end of the text on both sides. White space is the characters that Unicode calls
/// so.
pub proof fn law_words_of_a_text(before: Seq<char>, word: Seq<char>, after: Seq<char>)
    requires
        word.len() > 0,
        forall|i: int| 0 <= i < word.len() ==> !is_white_space(#[trigger] word[i]),
        before.len() == 0 || is_white_space(before.last()),
        after.len() == 0 || is_white_space(after.first()),
    ensures
        has_word(before + word + after, word),
{
    let text = before + word + after;
    let start = before.len() as int;
    let stop = start + word.len();
    assert forall|i: int| start <= i < stop implies !is_white_space(#[trigger] text[i]) by {
        assert(text[i] == word[i - start]);
    }
    assert(is_word(text, start, stop));
    assert(text.subrange(start, stop) =~= word);
}

/// A text has no other words than such runs.
pub proof fn law_only_runs_are_words(text: Seq<char>, word: Seq<char>)
    requires
        has_word(text, word),
    ensures
        word.len() > 0,
        forall|i: int| 0 <= i < word.len() ==> !is_white_space(#[trigger] word[i]),
        exists|before: Seq<char>, after: Seq<char>|
            #![trigger before + word + after]
            text == before + word + after && (before.len() == 0 || is_white_space(before.last()))
                && (after.len() == 0 || is_white_space(after.first())),
{
    let (start, stop) = choose|start: int, stop: int| #[trigger]
        is_word(text, start, stop) && text.subrange(start, stop) == word;
    let before = text.take(start);
    let after = text.skip(stop);
    assert(before + word + after =~= text);
    assert forall|i: int| 0 <= i < word.len() implies !is_white_space(#[trigger] word[i]) by {
        assert(word[i] == text[start + i]);
    }
    assert(before.len() == 0 || before.last() == text[start - 1]);
    assert(after.len() == 0 || after.first() == text[stop]);
}

/// The white space characters, by number: tab to carriage return, the space, the next-line
/// and the no-break space, the Ogham space, the spaces of the general punctuation block, its
/// two separators, the narrow no-break and the mathematical space, and the ideographic space.
pub proof fn law_white_space(c: char)
    ensures
        is_white_space(c) <==> seq![
            9int, 10, 11, 12, 13, 32, 133, 160, 5760, 8192, 8193, 8194, 8195, 8196, 8197, 8198,
            8199, 8200, 8201, 8202, 8232, 8233, 8239, 8287, 12288,
        ].contains(c as int),
{
    let list = seq![
        9int, 10, 11, 12, 13, 32, 133, 160, 5760, 8192, 8193, 8194, 8195, 8196, 8197, 8198, 8199,
        8200, 8201, 8202, 8232, 8233, 8239, 8287, 12288,
    ];
    assert(list[0] == 9 && list[1] == 10 && list[2] == 11 && list[3] == 12 && list[4] == 13);
    assert(list[5] == 32 && list[6] == 133 && list[7] == 160 && list[8] == 5760);
    assert(list[9] == 8192 && list[10] == 8193 && list[11] == 8194 && list[12] == 8195);
    assert(list[13] == 8196 && list[14] == 8197 && list[15] == 8198 && list[16] == 8199);
    assert(list[17] == 8200 && list[18] == 8201 && list[19] == 8202 && list[20] == 8232);
    assert(list[21] == 8233 && list[22] == 8239 && list[23] == 8287 && list[24] == 12288);
}

/// The number that a text of digits stands for: each further digit counts ten times less.
pub proof fn law_value_of_digits(digits: Seq<char>, last: char)
    ensures
        decimal_value(Seq::empty()) == 0,
        decimal_value(digits.push(last)) == 10 * decimal_value(digits) + (last as int - 48),
        is_digit(last) <==> 48 <= last as int <= 57,
{
    assert(digits.push(last).drop_last() =~= digits);
}

} // verus!
