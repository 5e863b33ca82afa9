use vstd::prelude::*;
use vstd::string::*;

verus! {

pub const DIGITS: &'static str = "0123456789";

/// The decimal digits of `n`, most significant first.
pub open spec fn digits_of(n: nat) -> Seq<char>
    decreases n,
{
    if n < 10 {
        DIGITS@.subrange(n as int, n as int + 1)
    } else {
        digits_of(n / 10) + DIGITS@.subrange((n % 10) as int, (n % 10) as int + 1)
    }
}

/// The decimal form of `n`, with a leading `-` when negative.
pub open spec fn decimal_of(n: int) -> Seq<char> {
    if n < 0 {
        "-"@ + digits_of((-n) as nat)
    } else {
        digits_of(n as nat)
    }
}

fn append_digits(out: &mut String, n: u64)
    ensures
        final(out)@ == old(out)@ + digits_of(n as nat),
    decreases n,
{
    proof {
        reveal_strlit("0123456789");
    }
    if n >= 10 {
        append_digits(out, n / 10);
    }
    let d = (n % 10) as usize;
    out.append(DIGITS.substring_char(d, d + 1));
    proof {
        if n >= 10 {
            assert(final(out)@ =~= old(out)@ + digits_of(n as nat));
        }
    }
}

/// The decimal form of `n`.
pub fn decimal(n: i64) -> (r: String)
    ensures
        r@ == decimal_of(n as int),
{
    let mut out = String::new();
    if n < 0 {
        out.append("-");
        let m: i128 = -(n as i128);
        append_digits(&mut out, m as u64);
    } else {
        append_digits(&mut out, n as u64);
    }
    out
}

} // verus!
