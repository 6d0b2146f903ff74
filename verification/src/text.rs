//! Text that the messages and the forms need: the decimal text of an
//! identity, and a string without the white space around it.

use vstd::prelude::*;
use vstd::string::StringExecFns;

verus! {

/// The character of a decimal digit.
pub open spec fn digit(d: int) -> char {
    if d == 0 {
        '0'
    } else if d == 1 {
        '1'
    } else if d == 2 {
        '2'
    } else if d == 3 {
        '3'
    } else if d == 4 {
        '4'
    } else if d == 5 {
        '5'
    } else if d == 6 {
        '6'
    } else if d == 7 {
        '7'
    } else if d == 8 {
        '8'
    } else {
        '9'
    }
}

/// The decimal digits of a natural number, most significant first, without
/// leading zeros.
pub open spec fn digits(n: nat) -> Seq<char>
    decreases n,
{
    if n < 10 {
        seq![digit(n as int)]
    } else {
        digits(n / 10).push(digit((n % 10) as int))
    }
}

/// The decimal text of an integer, with a minus sign where it is negative.
pub open spec fn decimal(n: int) -> Seq<char> {
    if n < 0 {
        seq!['-'] + digits((-n) as nat)
    } else {
        digits(n as nat)
    }
}

/// The text of one decimal digit.
fn digit_text(d: u64) -> (text: &'static str)
    requires
        d < 10,
    ensures
        text@ == seq![digit(d as int)],
{
    proof {
        reveal_strlit("0");
        reveal_strlit("1");
        reveal_strlit("2");
        reveal_strlit("3");
        reveal_strlit("4");
        reveal_strlit("5");
        reveal_strlit("6");
        reveal_strlit("7");
        reveal_strlit("8");
        reveal_strlit("9");
    }
    let text = if d == 0 {
        "0"
    } else if d == 1 {
        "1"
    } else if d == 2 {
        "2"
    } else if d == 3 {
        "3"
    } else if d == 4 {
        "4"
    } else if d == 5 {
        "5"
    } else if d == 6 {
        "6"
    } else if d == 7 {
        "7"
    } else if d == 8 {
        "8"
    } else {
        "9"
    };
    assert(text@ =~= seq![digit(d as int)]);
    text
}

/// The decimal digits of `n` as text.
fn digits_text(n: u64) -> (text: String)
    ensures
        text@ == digits(n as nat),
{
    let mut text: String = String::from_str(digit_text(n % 10));
    let mut rest: u64 = n / 10;
    assert(digits(n as nat) =~= (if rest > 0 {
        digits(rest as nat)
    } else {
        Seq::<char>::empty()
    }) + text@);
    while rest > 0
        invariant
            digits(n as nat) == (if rest > 0 {
                digits(rest as nat)
            } else {
                Seq::<char>::empty()
            }) + text@,
        decreases rest,
    {
        let ghost tail = text@;
        let head: String = String::from_str(digit_text(rest % 10));
        text = head.concat(text.as_str());
        let ghost before = rest;
        rest = rest / 10;
        assert(digits(n as nat) =~= (if rest > 0 {
            digits(rest as nat)
        } else {
            Seq::<char>::empty()
        }) + text@) by {
            assert(text@ =~= seq![digit((before % 10) as int)] + tail);
            if before >= 10 {
                assert(digits(before as nat) == digits(rest as nat).push(
                    digit((before % 10) as int),
                ));
            } else {
                assert(digits(before as nat) == seq![digit(before as int)]);
            }
        }
    }
    assert(digits(n as nat) =~= text@);
    text
}

/// The decimal text of an identity.
pub fn decimal_text(n: i64) -> (text: String)
    ensures
        text@ == decimal(n as int),
{
    if n < 0 {
        let magnitude: u64 = ((-(n + 1)) as u64) + 1;
        proof {
            reveal_strlit("-");
            assert("-"@ =~= seq!['-']);
        }
        String::from_str("-").concat(digits_text(magnitude).as_str())
    } else {
        digits_text(n as u64)
    }
}

/// The characters that Unicode gives the property White_Space.
pub open spec fn is_white_space(c: char) -> bool {
    let code = c as u32;
    ||| 0x09 <= code <= 0x0d
    ||| code == 0x20
    ||| code == 0x85
    ||| code == 0xa0
    ||| code == 0x1680
    ||| 0x2000 <= code <= 0x200a
    ||| code == 0x2028
    ||| code == 0x2029
    ||| code == 0x202f
    ||| code == 0x205f
    ||| code == 0x3000
}

/// The first place at or after `from` that holds no white space, or the
/// length of the text.
pub open spec fn skip_leading(text: Seq<char>, from: int) -> int
    decreases text.len() - from,
{
    if 0 <= from < text.len() && is_white_space(text[from]) {
        skip_leading(text, from + 1)
    } else {
        from
    }
}

/// The end of the text once the white space before `upto` is cut off, never
/// below `floor`.
pub open spec fn skip_trailing(text: Seq<char>, floor: int, upto: int) -> int
    decreases upto,
{
    if 0 <= floor < upto <= text.len() && is_white_space(text[upto - 1]) {
        skip_trailing(text, floor, upto - 1)
    } else {
        upto
    }
}

/// The text without the white space at its two ends.
pub open spec fn trimmed(text: Seq<char>) -> Seq<char> {
    let start = skip_leading(text, 0);
    text.subrange(start, skip_trailing(text, start, text.len() as int))
}

/// Calls `str::trim` of the standard library, whose documentation says: the
/// string without leading and trailing white space, white space being the
/// characters with the Unicode property White_Space.
#[verifier::external_body]
pub(crate) fn trim_text(text: &str) -> (cut: String)
    ensures
        cut@ == trimmed(text@),
{
    text.trim().to_owned()
}

} // verus!
