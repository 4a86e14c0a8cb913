//! Version identifiers: the text that tags a slot on the wire.
//!
//! A slot is named by its 1-based position in the declared sequence, written
//! in decimal without sign, padding or leading zeros.

use vstd::prelude::*;

verus! {

/// The character that stands for the digit `d`.
pub open spec fn digit_char(d: nat) -> char {
    if d == 0 {
        '0'
    } else if d == 1 {
        '1'
    } else if d == 2 {
        '2'
    } else if d == 3 {
        '3'
    } else if d == 4 {
        '4'
    } else if d == 5 {
        '5'
    } else if d == 6 {
        '6'
    } else if d == 7 {
        '7'
    } else if d == 8 {
        '8'
    } else {
        '9'
    }
}

/// Whether `c` is one of the ten decimal digits.
pub open spec fn is_digit(c: char) -> bool {
    exists|d: nat| d < 10 && c == #[trigger] digit_char(d)
}

/// The digit that `c` stands for; 0 for any other character.
pub open spec fn digit_value(c: char) -> nat {
    if c == '1' {
        1
    } else if c == '2' {
        2
    } else if c == '3' {
        3
    } else if c == '4' {
        4
    } else if c == '5' {
        5
    } else if c == '6' {
        6
    } else if c == '7' {
        7
    } else if c == '8' {
        8
    } else if c == '9' {
        9
    } else {
        0
    }
}

/// The decimal text of `n`: most significant digit first, no leading zero
/// except for zero itself.
pub open spec fn decimal(n: nat) -> Seq<char>
    decreases n,
{
    if n < 10 {
        seq![digit_char(n)]
    } else {
        decimal(n / 10).push(digit_char(n % 10))
    }
}

/// The number that a run of digits denotes, read most significant first.
pub open spec fn decimal_value(s: Seq<char>) -> nat
    decreases s.len(),
{
    if s.len() == 0 {
        0
    } else {
        decimal_value(s.drop_last()) * 10 + digit_value(s.last())
    }
}

/// Whether every character of `s` is a decimal digit.
pub open spec fn all_digits(s: Seq<char>) -> bool {
    forall|i: int| 0 <= i < s.len() ==> is_digit(#[trigger] s[i])
}

/// The identifier of slot `slot` (1-based) as it appears on the wire.
pub open spec fn tag_text(slot: nat) -> Seq<char> {
    decimal(slot)
}

/// Whether `tag` names one of the slots `1..=count`.
pub open spec fn is_known_tag(tag: Seq<char>, count: nat) -> bool {
    exists|k: nat| 1 <= k <= count && tag == #[trigger] tag_text(k)
}

/// A digit's character denotes that digit.
pub proof fn lemma_digit_round_trip(d: nat)
    requires
        d < 10,
    ensures
        digit_value(digit_char(d)) == d,
        is_digit(digit_char(d)),
{
}

/// The decimal text of a number is never empty, holds digits only, and
/// starts with zero only for zero itself.
pub proof fn lemma_decimal_shape(n: nat)
    ensures
        decimal(n).len() >= 1,
        all_digits(decimal(n)),
        decimal(n)[0] == '0' <==> n == 0,
    decreases n,
{
    if n < 10 {
        lemma_digit_round_trip(n);
    } else {
        lemma_decimal_shape(n / 10);
        lemma_digit_round_trip(n % 10);
        let head = decimal(n / 10);
        assert forall|i: int| 0 <= i < decimal(n).len() implies is_digit(
            #[trigger] decimal(n)[i],
        ) by {
            if i < head.len() {
                assert(decimal(n)[i] == head[i]);
            }
        }
        assert(decimal(n)[0] == head[0]);
    }
}

/// Reading the decimal text of a number gives the number back.
pub proof fn lemma_decimal_value(n: nat)
    ensures
        decimal_value(decimal(n)) == n,
    decreases n,
{
    if n < 10 {
        lemma_digit_round_trip(n);
        let s = decimal(n);
        assert(s.drop_last().len() == 0);
        assert(decimal_value(s.drop_last()) == 0);
    } else {
        lemma_decimal_value(n / 10);
        lemma_digit_round_trip(n % 10);
        let s = decimal(n);
        assert(s.drop_last() =~= decimal(n / 10));
        assert(s.last() == digit_char(n % 10));
    }
}

/// Two numbers with the same decimal text are the same number: no two slots
/// share an identifier.
pub proof fn lemma_decimal_injective(a: nat, b: nat)
    requires
        decimal(a) == decimal(b),
    ensures
        a == b,
{
    lemma_decimal_value(a);
    lemma_decimal_value(b);
}

/// A run of digits that does not start with zero is the decimal text of the
/// number it denotes.
pub proof fn lemma_canonical_digits(s: Seq<char>)
    requires
        s.len() >= 1,
        all_digits(s),
        s[0] != '0',
    ensures
        decimal(decimal_value(s)) == s,
        decimal_value(s) >= 1,
    decreases s.len(),
{
    let last = s.last();
    assert(is_digit(last));
    let d = choose|d: nat| d < 10 && last == #[trigger] digit_char(d);
    lemma_digit_round_trip(d);
    if s.len() == 1 {
        assert(s.drop_last().len() == 0);
        assert(decimal_value(s.drop_last()) == 0);
        assert(decimal_value(s) == d);
        assert(d != 0);
        assert(decimal(d) =~= s);
    } else {
        let front = s.drop_last();
        assert forall|i: int| 0 <= i < front.len() implies is_digit(#[trigger] front[i]) by {
            assert(front[i] == s[i]);
        }
        assert(front[0] == s[0]);
        lemma_canonical_digits(front);
        let v = decimal_value(front);
        let n = v * 10 + d;
        assert(decimal_value(s) == n);
        assert(n >= 10);
        assert(n / 10 == v && n % 10 == d);
        assert(decimal(n) == decimal(v).push(digit_char(d)));
        assert(decimal(n) =~= s);
    }
}

/// A number read from digits is at least the number read from any shorter
/// prefix of them.
pub proof fn lemma_prefix_value(s: Seq<char>, i: int)
    requires
        0 <= i <= s.len(),
    ensures
        decimal_value(s.subrange(0, i)) <= decimal_value(s),
    decreases s.len() - i,
{
    if i == s.len() {
        assert(s.subrange(0, i) =~= s);
    } else {
        lemma_prefix_value(s, i + 1);
        let longer = s.subrange(0, i + 1);
        assert(longer.drop_last() =~= s.subrange(0, i));
    }
}

/// The one-character text of the digit `d`.
fn digit_text(d: usize) -> (text: &'static str)
    requires
        d < 10,
    ensures
        text@ == seq![digit_char(d as nat)],
{
    proof {
        reveal_strlit("0");
        reveal_strlit("1");
        reveal_strlit("2");
        reveal_strlit("3");
        reveal_strlit("4");
        reveal_strlit("5");
        reveal_strlit("6");
        reveal_strlit("7");
        reveal_strlit("8");
        reveal_strlit("9");
    }
    let text = if d == 0 {
        "0"
    } else if d == 1 {
        "1"
    } else if d == 2 {
        "2"
    } else if d == 3 {
        "3"
    } else if d == 4 {
        "4"
    } else if d == 5 {
        "5"
    } else if d == 6 {
        "6"
    } else if d == 7 {
        "7"
    } else if d == 8 {
        "8"
    } else {
        "9"
    };
    assert(text@ =~= seq![digit_char(d as nat)]);
    text
}

/// The digit that `c` stands for, if it is a decimal digit.
fn digit_of(c: char) -> (digit: Option<usize>)
    ensures
        digit is Some <==> is_digit(c),
        digit matches Some(d) ==> d < 10 && d == digit_value(c) && c == digit_char(d as nat),
{
    let digit: Option<usize> = if c == '0' {
        Some(0)
    } else if c == '1' {
        Some(1)
    } else if c == '2' {
        Some(2)
    } else if c == '3' {
        Some(3)
    } else if c == '4' {
        Some(4)
    } else if c == '5' {
        Some(5)
    } else if c == '6' {
        Some(6)
    } else if c == '7' {
        Some(7)
    } else if c == '8' {
        Some(8)
    } else if c == '9' {
        Some(9)
    } else {
        None
    };
    proof {
        if let Some(d) = digit {
            assert(c == digit_char(d as nat));
        }
    }
    digit
}

/// Renders the identifier of slot `slot`: its decimal text.
pub fn slot_tag(slot: usize) -> (tag: String)
    ensures
        tag@ == tag_text(slot as nat),
    decreases slot,
{
    if slot < 10 {
        String::from_str(digit_text(slot))
    } else {
        let mut tag = slot_tag(slot / 10);
        tag.append(digit_text(slot % 10));
        assert(tag@ =~= decimal(slot as nat));
        tag
    }
}

/// Finds the slot that `tag` names among the slots `1..=count`.
///
/// A tag is known exactly when it is the decimal text of such a slot; a
/// padded, signed, empty or out-of-range tag names none.
pub fn slot_of_tag(tag: &str, count: usize) -> (slot: Option<usize>)
    ensures
        slot is Some <==> is_known_tag(tag@, count as nat),
        slot matches Some(k) ==> 1 <= k <= count && tag@ == tag_text(k as nat),
{
    let len = tag.unicode_len();
    if len == 0 {
        proof {
            assert forall|k: nat| 1 <= k <= count implies tag@ != #[trigger] tag_text(k) by {
                lemma_decimal_shape(k);
            }
        }
        return None;
    }
    let mut value: usize = 0;
    let mut i: usize = 0;
    while i < len
        invariant
            len == tag@.len(),
            0 <= i <= len,
            value == decimal_value(tag@.subrange(0, i as int)),
            value <= count,
            all_digits(tag@.subrange(0, i as int)),
            i > 0 ==> tag@[0] != '0',
        decreases len - i,
    {
        let c = tag.get_char(i);
        let ghost prefix = tag@.subrange(0, i as int);
        let ghost longer = tag@.subrange(0, i as int + 1);
        proof {
            assert(longer.drop_last() =~= prefix);
            assert(longer.last() == c);
        }
        let d = match digit_of(c) {
            Some(d) => d,
            None => {
                proof {
                    assert forall|k: nat| 1 <= k <= count implies tag@ != #[trigger] tag_text(
                        k,
                    ) by {
                        lemma_decimal_shape(k);
                        if tag@ == tag_text(k) {
                            assert(is_digit(decimal(k)[i as int]));
                        }
                    }
                }
                return None;
            },
        };
        if i == 0 && d == 0 {
            proof {
                assert forall|k: nat| 1 <= k <= count implies tag@ != #[trigger] tag_text(k) by {
                    lemma_decimal_shape(k);
                }
            }
            return None;
        }
        if d > count || value > (count - d) / 10 {
            proof {
                assert(decimal_value(longer) == value * 10 + d);
                assert(value * 10 + d > count);
                lemma_prefix_value(tag@, i as int + 1);
                assert forall|k: nat| 1 <= k <= count implies tag@ != #[trigger] tag_text(k) by {
                    lemma_decimal_value(k);
                }
            }
            return None;
        }
        value = value * 10 + d;
        proof {
            assert forall|j: int| 0 <= j < longer.len() implies is_digit(#[trigger] longer[j]) by {
                if j < i {
                    assert(longer[j] == prefix[j]);
                }
            }
        }
        i = i + 1;
    }
    proof {
        assert(tag@.subrange(0, len as int) =~= tag@);
        lemma_canonical_digits(tag@);
        assert(tag@ == tag_text(value as nat));
    }
    Some(value)
}

} // verus!
