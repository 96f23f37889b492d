//! Decimal rendering of integers.
use vstd::prelude::*;

verus! {

/// The decimal digits of `n`.
pub fn decimal_text(n: u64) -> (r: String)
    ensures
        r@.len() > 0,
{
    let mut digits: Vec<u8> = Vec::new();
    digits.push((n % 10) as u8);
    let mut m = n / 10;
    while m > 0
        invariant
            digits@.len() > 0,
        decreases m,
    {
        digits.push((m % 10) as u8);
        m = m / 10;
    }
    let mut out = String::new();
    let mut i = digits.len();
    while i > 0
        invariant
            i <= digits@.len(),
            digits@.len() > 0,
            i < digits@.len() ==> out@.len() > 0,
        decreases i,
    {
        i -= 1;
        let d = digits[i];
        let text = if d == 0 {
            "0"
        } else if d == 1 {
            "1"
        } else if d == 2 {
            "2"
        } else if d == 3 {
            "3"
        } else if d == 4 {
            "4"
        } else if d == 5 {
            "5"
        } else if d == 6 {
            "6"
        } else if d == 7 {
            "7"
        } else if d == 8 {
            "8"
        } else {
            "9"
        };
        proof {
            reveal_strlit("0");
            reveal_strlit("1");
            reveal_strlit("2");
            reveal_strlit("3");
            reveal_strlit("4");
            reveal_strlit("5");
            reveal_strlit("6");
            reveal_strlit("7");
            reveal_strlit("8");
            reveal_strlit("9");
        }
        out.append(text);
    }
    out
}

/// The decimal text of `n`, with a minus sign when it is negative.
pub fn signed_text(n: i64) -> (r: String) {
    if n < 0 {
        let magnitude: u64 = ((-(n + 1)) as u64) + 1;
        let mut out = "-".to_owned();
        out.append(decimal_text(magnitude).as_str());
        out
    } else {
        decimal_text(n as u64)
    }
}

} // verus!
