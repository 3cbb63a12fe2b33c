//! Minting of record ids: a fixed tag followed by the decimal milliseconds of
//! the clock reading at upload time.

use vstd::prelude::*;
use vstd::string::StringExecFns;

verus! {

/// The decimal character for a value below 10.
pub open spec fn dec_digit(d: int) -> char {
    if d == 0 {
        '0'
    } else if d == 1 {
        '1'
    } else if d == 2 {
        '2'
    } else if d == 3 {
        '3'
    } else if d == 4 {
        '4'
    } else if d == 5 {
        '5'
    } else if d == 6 {
        '6'
    } else if d == 7 {
        '7'
    } else if d == 8 {
        '8'
    } else {
        '9'
    }
}

/// The decimal rendering of a number, most significant digit first, with no
/// leading zero except for the number zero itself.
pub open spec fn dec_of(n: nat) -> Seq<char>
    decreases n,
{
    if n < 10 {
        seq![dec_digit(n as int)]
    } else {
        dec_of(n / 10).push(dec_digit((n % 10) as int))
    }
}

/// The id minted for a clock reading of `ms` milliseconds.
pub open spec fn file_id_of(ms: u64) -> Seq<char> {
    "file_"@ + dec_of(ms as nat)
}

/// The one-character string for a decimal digit.
fn dec_digit_str(d: u64) -> (r: &'static str)
    requires
        d < 10,
    ensures
        r@ == seq![dec_digit(d as int)],
{
    let r: &'static str = if d == 0 {
        "0"
    } else if d == 1 {
        "1"
    } else if d == 2 {
        "2"
    } else if d == 3 {
        "3"
    } else if d == 4 {
        "4"
    } else if d == 5 {
        "5"
    } else if d == 6 {
        "6"
    } else if d == 7 {
        "7"
    } else if d == 8 {
        "8"
    } else {
        "9"
    };
    proof {
        reveal_strlit("0");
        reveal_strlit("1");
        reveal_strlit("2");
        reveal_strlit("3");
        reveal_strlit("4");
        reveal_strlit("5");
        reveal_strlit("6");
        reveal_strlit("7");
        reveal_strlit("8");
        reveal_strlit("9");
        assert(r@ =~= seq![dec_digit(d as int)]);
    }
    r
}

/// Appends the decimal rendering of `n` to `out`.
fn push_dec(n: u64, out: &mut String)
    ensures
        final(out)@ == old(out)@ + dec_of(n as nat),
    decreases n,
{
    if n >= 10 {
        push_dec(n / 10, out);
    }
    out.append(dec_digit_str(n % 10));
    proof {
        if n >= 10 {
            assert(old(out)@ + dec_of((n / 10) as nat) + seq![dec_digit((n % 10) as int)]
                =~= old(out)@ + dec_of(n as nat));
        } else {
            assert(old(out)@ + seq![dec_digit(n as int)] =~= old(out)@ + dec_of(n as nat));
        }
    }
}

/// Mints the id for a clock reading: the tag `file_` followed by the decimal
/// milliseconds.
pub fn mint_id(ms: u64) -> (r: String)
    ensures
        r@ == file_id_of(ms),
{
    let mut out = String::new();
    out.append("file_");
    push_dec(ms, &mut out);
    proof {
        assert(out@ =~= file_id_of(ms));
    }
    out
}

} // verus!
