//! Small verified operations on strings.

use vstd::prelude::*;
use vstd::string::*;
use vstd::utf8::*;

verus! {

/// `String::push` appends one character to the end of the string.
pub assume_specification[ String::push ](s: &mut String, c: char)
    ensures
        final(s)@ == old(s)@.push(c),
;

/// The digit that stands for `d`, where `d < 10`.
pub open spec fn digit(d: nat) -> char {
    (('0' as nat) + d) as char
}

/// The decimal numeral of `n`, without leading zeros.
pub open spec fn decimal_digits(n: nat) -> Seq<char>
    decreases n,
{
    if n < 10 {
        seq![digit(n)]
    } else {
        decimal_digits(n / 10).push(digit(n % 10))
    }
}

/// Writes `n` in decimal.
pub fn decimal(n: u64) -> (text: String)
    ensures
        text@ == decimal_digits(n as nat),
    decreases n,
{
    let mut text = if n < 10 {
        String::new()
    } else {
        decimal(n / 10)
    };
    let last: u8 = (n % 10) as u8;
    text.push((48u8 + last) as char);
    assert((48u8 + last) as char == digit((n % 10) as nat));
    assert(text@ =~= decimal_digits(n as nat));
    text
}

/// Different numbers have different numerals.
pub proof fn decimal_digits_injective(a: nat, b: nat)
    requires
        decimal_digits(a) == decimal_digits(b),
    ensures
        a == b,
    decreases a,
{
    let da = decimal_digits(a);
    let db = decimal_digits(b);
    decimal_digits_len(a);
    decimal_digits_len(b);
    assert(da.last() == digit(a % 10));
    assert(db.last() == digit(b % 10));
    assert(digit(a % 10) as nat == 48 + a % 10);
    assert(digit(b % 10) as nat == 48 + b % 10);
    if a >= 10 && b >= 10 {
        assert(da.drop_last() =~= decimal_digits(a / 10));
        assert(db.drop_last() =~= decimal_digits(b / 10));
        decimal_digits_injective(a / 10, b / 10);
    }
}

/// A numeral has one digit exactly when the number is below ten.
pub proof fn decimal_digits_len(n: nat)
    ensures
        decimal_digits(n).len() >= 1,
        decimal_digits(n).len() == 1 <==> n < 10,
    decreases n,
{
    if n >= 10 {
        decimal_digits_len(n / 10);
    }
}

/// A `u64` has at most twenty digits.
pub proof fn decimal_digits_bounded(n: nat)
    requires
        n <= u64::MAX,
    ensures
        decimal_digits(n).len() <= 20,
{
    reveal_with_fuel(decimal_digits, 21);
}

/// The digits of a numeral are digits.
pub proof fn decimal_digits_are_digits(n: nat)
    ensures
        forall|i: int|
            0 <= i < decimal_digits(n).len() ==> '0' <= #[trigger] decimal_digits(n)[i] <= '9',
    decreases n,
{
    assert(digit(n % 10) as nat == 48 + n % 10);
    if n >= 10 {
        decimal_digits_are_digits(n / 10);
        let front = decimal_digits(n / 10);
        assert forall|i: int| 0 <= i < decimal_digits(n).len() implies '0' <= #[trigger] decimal_digits(
            n,
        )[i] <= '9' by {
            if i < front.len() {
                assert(decimal_digits(n)[i] == front[i]);
            }
        }
    }
}

/// The encoding of two texts in a row is their encodings in a row.
pub proof fn encode_utf8_concat(front: Seq<char>, back: Seq<char>)
    ensures
        encode_utf8(front + back) == encode_utf8(front) + encode_utf8(back),
    decreases front.len(),
{
    if front.len() == 0 {
        assert(front + back =~= back);
        assert(encode_utf8(front) + encode_utf8(back) =~= encode_utf8(back));
    } else {
        assert((front + back).drop_first() =~= front.drop_first() + back);
        encode_utf8_concat(front.drop_first(), back);
        assert(encode_utf8(front + back) =~= encode_utf8(front) + encode_utf8(back));
    }
}

/// The part of `text` before `suffix`, where `text` ends in `suffix`.
pub open spec fn without_suffix(text: Seq<char>, suffix: Seq<char>) -> Option<Seq<char>> {
    if suffix.is_suffix_of(text) {
        Some(text.take(text.len() - suffix.len()))
    } else {
        None
    }
}

/// Views the text inside an option.
pub open spec fn option_text(text: Option<String>) -> Option<Seq<char>> {
    match text {
        Some(text) => Some(text@),
        None => None,
    }
}

/// Views the borrowed text inside an option.
pub open spec fn option_str(text: Option<&str>) -> Option<Seq<char>> {
    match text {
        Some(text) => Some(text@),
        None => None,
    }
}

/// Removes `suffix` from the end of `text`; `None` where `text` does not end in it.
pub fn strip_suffix(text: &str, suffix: &str) -> (front: Option<String>)
    ensures
        option_text(front) == without_suffix(text@, suffix@),
{
    let len: usize = text.unicode_len();
    let suffix_len: usize = suffix.unicode_len();
    if suffix_len > len {
        return None;
    }
    let tail = text.substring_char(len - suffix_len, len).to_owned();
    if tail == suffix.to_owned() {
        assert(suffix@.is_suffix_of(text@));
        Some(text.substring_char(0, len - suffix_len).to_owned())
    } else {
        proof {
            if suffix@.is_suffix_of(text@) {
                assert(tail@ =~= suffix@);
            }
        }
        None
    }
}

/// What a text of digits says, read in base ten.
pub open spec fn numeral_value(text: Seq<char>) -> nat
    decreases text.len(),
{
    if text.len() == 0 {
        0
    } else {
        10 * numeral_value(text.drop_last()) + (text.last() as nat - '0' as nat) as nat
    }
}

/// True where `text` is `n` in decimal: digits alone, none of them a leading zero, that say `n` in
/// base ten.
pub open spec fn is_numeral(text: Seq<char>, n: nat) -> bool {
    &&& text.len() > 0
    &&& forall|i: int| 0 <= i < text.len() ==> '0' <= #[trigger] text[i] <= '9'
    &&& text.len() > 1 ==> text[0] != '0'
    &&& numeral_value(text) == n
}

/// The numeral of a number says that number.
pub proof fn decimal_digits_say_the_number(n: nat)
    ensures
        is_numeral(decimal_digits(n), n),
    decreases n,
{
    let text = decimal_digits(n);
    decimal_digits_are_digits(n);
    decimal_digits_len(n);
    assert(digit(n % 10) as nat == 48 + n % 10);
    assert(numeral_value(Seq::<char>::empty()) == 0);
    if n < 10 {
        assert(text.drop_last() =~= Seq::<char>::empty());
    } else {
        let front = decimal_digits(n / 10);
        assert(text.drop_last() =~= front);
        decimal_digits_say_the_number(n / 10);
        decimal_digits_len(n / 10);
        assert(text[0] == front[0]);
        if front.len() == 1 {
            assert(front.drop_last() =~= Seq::<char>::empty());
            assert(numeral_value(front) == 10 * 0 + (front.last() as nat - 48) as nat);
            assert(n / 10 > 0);
        }
        assert(n == 10 * (n / 10) + n % 10);
    }
}

/// A suffix is taken off whatever stands before it, and off nothing that does not end in it.
pub proof fn suffix_is_taken_off(front: Seq<char>, suffix: Seq<char>, other: Seq<char>)
    requires
        forall|i: int| 0 <= i <= other.len() ==> #[trigger] other.skip(i) != suffix,
    ensures
        without_suffix(front + suffix, suffix) == Some(front),
        without_suffix(other, suffix) is None,
{
    let text = front + suffix;
    assert(suffix.is_suffix_of(text)) by {
        assert(text.subrange(front.len() as int, text.len() as int) =~= suffix);
    }
    assert(text.take(front.len() as int) =~= front);
    if suffix.is_suffix_of(other) {
        let i = other.len() - suffix.len();
        assert(other.skip(i) =~= suffix);
    }
}

/// The view of an option is the view of what is in it.
pub proof fn options_show_their_text(owned: String, borrowed: &str)
    ensures
        option_text(Some(owned)) == Some(owned@),
        option_text(None) is None,
        option_str(Some(borrowed)) == Some(borrowed@),
        option_str(None) is None,
{
}

} // verus!
