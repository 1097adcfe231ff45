//! Text that the collectors write: numbers in digits, and names made fit to
//! stand between quotes.

use vstd::prelude::*;
use vstd::string::{StrSliceExecFns, StringExecFns};

verus! {

/// `String::push` appends one character to the end of the string.
pub assume_specification[ String::push ](text: &mut String, ch: char)
    ensures
        final(text)@ == old(text)@.push(ch),
;

/// The character that writes the digit `d`, in lower case above nine.
pub open spec fn digit_char(d: int) -> char {
    seq!['0', '1', '2', '3', '4', '5', '6', '7', '8', '9', 'a', 'b', 'c', 'd', 'e', 'f'][d]
}

/// The digits of `n` to the base `radix`, most significant first, with no
/// leading zero; zero is written `0`.
pub open spec fn digits(n: nat, radix: nat) -> Seq<char>
    recommends
        2 <= radix <= 16,
    decreases n,
{
    if n < radix || radix < 2 {
        seq![digit_char(n as int)]
    } else {
        proof {
            quotient_is_smaller(n, radix);
        }
        digits(n / radix, radix).push(digit_char((n % radix) as int))
    }
}

/// Dividing by two or more makes a positive number smaller.
pub proof fn quotient_is_smaller(n: nat, radix: nat)
    requires
        2 <= radix <= n,
    ensures
        n / radix < n,
{
    assert(n / radix < n) by (nonlinear_arith)
        requires
            2 <= radix <= n,
    ;
}

/// The text in which every double quote is preceded by a backslash.
pub open spec fn escaped(text: Seq<char>) -> Seq<char>
    decreases text.len(),
{
    if text.len() == 0 {
        Seq::empty()
    } else if text.last() == '"' {
        escaped(text.drop_last()).push('\\').push('"')
    } else {
        escaped(text.drop_last()).push(text.last())
    }
}

/// The text of one digit.
fn digit_text(d: u64) -> (text: &'static str)
    requires
        d < 16,
    ensures
        text@ == seq![digit_char(d as int)],
{
    proof {
        reveal_strlit("0");
        reveal_strlit("1");
        reveal_strlit("2");
        reveal_strlit("3");
        reveal_strlit("4");
        reveal_strlit("5");
        reveal_strlit("6");
        reveal_strlit("7");
        reveal_strlit("8");
        reveal_strlit("9");
        reveal_strlit("a");
        reveal_strlit("b");
        reveal_strlit("c");
        reveal_strlit("d");
        reveal_strlit("e");
        reveal_strlit("f");
    }
    let text = match d {
        0 => "0",
        1 => "1",
        2 => "2",
        3 => "3",
        4 => "4",
        5 => "5",
        6 => "6",
        7 => "7",
        8 => "8",
        9 => "9",
        10 => "a",
        11 => "b",
        12 => "c",
        13 => "d",
        14 => "e",
        _ => "f",
    };
    assert(text@ =~= seq![digit_char(d as int)]);
    text
}

/// Appends the digits of `n` to the base `radix` to `text`.
pub fn push_digits(text: &mut String, n: u64, radix: u64)
    requires
        2 <= radix <= 16,
    ensures
        final(text)@ == old(text)@ + digits(n as nat, radix as nat),
    decreases n,
{
    if n >= radix {
        proof {
            quotient_is_smaller(n as nat, radix as nat);
        }
        push_digits(text, n / radix, radix);
    } else {
        assert(n % radix == n) by (nonlinear_arith)
            requires
                0 <= n < radix,
        ;
    }
    text.append(digit_text(n % radix));
    assert(text@ =~= old(text)@ + digits(n as nat, radix as nat));
}

/// Escapes the double quotes of `text`, so that it can stand between quotes.
pub fn escape_quotes(text: &str) -> (safe: String)
    ensures
        safe@ == escaped(text@),
{
    let mut safe = String::new();
    let len = text.unicode_len();
    let mut i: usize = 0;
    while i < len
        invariant
            i <= len == text@.len(),
            safe@ == escaped(text@.take(i as int)),
        decreases len - i,
    {
        let ch = text.get_char(i);
        proof {
            assert(text@.take(i + 1).drop_last() =~= text@.take(i as int));
            assert(text@.take(i + 1).last() == ch);
        }
        if ch == '"' {
            safe.push('\\');
        }
        safe.push(ch);
        i = i + 1;
    }
    proof {
        assert(text@.take(len as int) =~= text@);
    }
    safe
}

} // verus!
