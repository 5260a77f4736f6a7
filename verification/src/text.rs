//! Texts: comparison, decimal numbers and quoting.

use vstd::prelude::*;
use vstd::string::*;

verus! {

/// What Rust's `Debug` formatting makes of a text: the text in double
/// quotes, with the characters that need it escaped.
pub uninterp spec fn debug_text(s: Seq<char>) -> Seq<char>;

/// Formats a text with `format!` and `{:?}`, that is by the standard
/// library's `Debug` for `str`. Nothing is proved of the call: the result
/// is taken to depend on the characters alone, and is known here only by
/// the name `debug_text`.
#[verifier::external_body]
pub(crate) fn quoted(s: &String) -> (r: String)
    ensures
        r@ == debug_text(s@),
{
    format!("{:?}", s)
}

/// Whether a text holds exactly the characters of `word`.
pub fn text_is(s: &String, word: &str) -> (b: bool)
    ensures
        b == (s@ == word@),
{
    let other = String::from_str(word);
    *s == other
}

/// Whether a text begins with the characters of `prefix`.
pub fn text_starts_with(s: &String, prefix: &str) -> (b: bool)
    ensures
        b == prefix@.is_prefix_of(s@),
{
    let text = s.as_str();
    let n = prefix.unicode_len();
    if text.unicode_len() < n {
        return false;
    }
    let mut i: usize = 0;
    while i < n
        invariant
            n == prefix@.len(),
            n <= text@.len(),
            text@ == s@,
            i <= n,
            forall|k: int| 0 <= k < i ==> text@[k] == prefix@[k],
        decreases n - i,
    {
        if text.get_char(i) != prefix.get_char(i) {
            return false;
        }
        i += 1;
    }
    true
}

/// The character of a decimal digit.
pub open spec fn digit_char(d: int) -> char
    recommends
        0 <= d < 10,
{
    if d == 0 {
        '0'
    } else if d == 1 {
        '1'
    } else if d == 2 {
        '2'
    } else if d == 3 {
        '3'
    } else if d == 4 {
        '4'
    } else if d == 5 {
        '5'
    } else if d == 6 {
        '6'
    } else if d == 7 {
        '7'
    } else if d == 8 {
        '8'
    } else {
        '9'
    }
}

/// The decimal digits of a natural number, the most significant first and
/// without leading zeros.
pub open spec fn digits(n: nat) -> Seq<char>
    decreases n,
{
    if n < 10 {
        seq![digit_char(n as int)]
    } else {
        digits(n / 10).push(digit_char((n % 10) as int))
    }
}

/// The decimal text of an integer, with a minus sign before a negative one.
pub open spec fn decimal(n: int) -> Seq<char> {
    if n < 0 {
        seq!['-'] + digits((-n) as nat)
    } else {
        digits(n as nat)
    }
}

fn digit_text(d: u64) -> (r: &'static str)
    requires
        d < 10,
    ensures
        r@ == seq![digit_char(d as int)],
{
    proof {
        reveal_strlit("0");
        reveal_strlit("1");
        reveal_strlit("2");
        reveal_strlit("3");
        reveal_strlit("4");
        reveal_strlit("5");
        reveal_strlit("6");
        reveal_strlit("7");
        reveal_strlit("8");
        reveal_strlit("9");
    }
    if d == 0 {
        "0"
    } else if d == 1 {
        "1"
    } else if d == 2 {
        "2"
    } else if d == 3 {
        "3"
    } else if d == 4 {
        "4"
    } else if d == 5 {
        "5"
    } else if d == 6 {
        "6"
    } else if d == 7 {
        "7"
    } else if d == 8 {
        "8"
    } else {
        "9"
    }
}

/// The decimal text of an unsigned number.
pub fn unsigned_text(n: u64) -> (r: String)
    ensures
        r@ == digits(n as nat),
    decreases n,
{
    if n < 10 {
        String::from_str(digit_text(n))
    } else {
        let head = unsigned_text(n / 10);
        head.concat(digit_text(n % 10))
    }
}

/// The decimal text of a signed number.
pub fn signed_text(n: i64) -> (r: String)
    ensures
        r@ == decimal(n as int),
{
    if n < 0 {
        let magnitude: u64 = (-(n + 1)) as u64 + 1;
        proof {
            reveal_strlit("-");
        }
        String::from_str("-").concat(unsigned_text(magnitude).as_str())
    } else {
        unsigned_text(n as u64)
    }
}

/// The decimal digits of a number are never none, and begin with a zero
/// only for the number zero.
pub proof fn digits_have_no_leading_zero(n: nat)
    ensures
        digits(n).len() >= 1,
        n > 0 ==> digits(n)[0] != '0',
    decreases n,
{
    if n >= 10 {
        digits_have_no_leading_zero(n / 10);
    }
}

} // verus!
