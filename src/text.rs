//! Decimal rendering of integers, as it appears in request paths.
use vstd::prelude::*;
use vstd::string::*;

verus! {

/// The ten decimal digits, in order.
pub open spec fn digits() -> Seq<char> {
    seq!['0', '1', '2', '3', '4', '5', '6', '7', '8', '9']
}

/// The decimal text of a natural number, most significant digit first, without
/// leading zeros.
pub open spec fn decimal(n: nat) -> Seq<char>
    decreases n,
{
    if n < 10 {
        seq![digits()[n as int]]
    } else {
        decimal(n / 10) + seq![digits()[(n % 10) as int]]
    }
}

/// The decimal text of an integer, with a leading `-` when it is negative.
pub open spec fn signed_decimal(n: int) -> Seq<char> {
    if n < 0 {
        seq!['-'] + decimal((-n) as nat)
    } else {
        decimal(n as nat)
    }
}

fn digit_text(d: u64) -> (r: String)
    requires
        d < 10,
    ensures
        r@ == seq![digits()[d as int]],
{
    let all: &str = "0123456789";
    proof {
        reveal_strlit("0123456789");
        assert(all@ =~= digits());
    }
    let one = all.substring_char(d as usize, (d + 1) as usize);
    proof {
        assert(one@ =~= seq![digits()[d as int]]);
    }
    one.to_owned()
}

/// The decimal text of `n`.
pub fn u64_text(n: u64) -> (r: String)
    ensures
        r@ == decimal(n as nat),
    decreases n,
{
    if n < 10 {
        digit_text(n)
    } else {
        let mut head = u64_text(n / 10);
        let last = digit_text(n % 10);
        head.append(last.as_str());
        head
    }
}

/// The decimal text of `n`, signed.
pub fn i64_text(n: i64) -> (r: String)
    ensures
        r@ == signed_decimal(n as int),
{
    if n < 0 {
        let magnitude: u64 = (0i128 - n as i128) as u64;
        let digits_part = u64_text(magnitude);
        let mut sign = String::from_str("-");
        proof {
            reveal_strlit("-");
        }
        sign.append(digits_part.as_str());
        sign
    } else {
        u64_text(n as u64)
    }
}

} // verus!
