//! Decimal fractions in millionths.

use vstd::prelude::*;

use crate::text::number;

verus! {

/// A decimal fraction, in millionths.
#[derive(Clone, Copy, Debug, PartialEq, Eq, Structural)]
pub struct Decimal {
    pub micros: i64,
}

/// `n` millionths rounded to the nearest whole number, with ties to the even
/// one. `n` is not negative.
pub open spec fn rounded(n: int) -> int {
    let whole = n / 1_000_000;
    let rest = n % 1_000_000;
    if rest > 500_000 || (rest == 500_000 && whole % 2 == 1) {
        whole + 1
    } else {
        whole
    }
}

impl Decimal {
    /// The whole number `n`.
    pub open spec fn spec_whole(n: int) -> Decimal {
        Decimal { micros: (n * 1_000_000) as i64 }
    }

    /// The whole number `n`.
    pub fn whole(n: i32) -> (d: Decimal)
        ensures
            d == Self::spec_whole(n as int),
            d.micros == n * 1_000_000,
    {
        Decimal { micros: n as i64 * 1_000_000 }
    }

    /// The number rounded to a whole one, with its sign.
    pub open spec fn whole_text(self) -> Seq<char> {
        if self.micros < 0 {
            seq!['-'] + number::digits(rounded(-(self.micros as int)) as nat)
        } else {
            number::digits(rounded(self.micros as int) as nat)
        }
    }

    /// The number rounded to a whole one, with its sign.
    pub fn to_whole_text(self) -> (r: String)
        ensures
            r@ == self.whole_text(),
    {
        let mut r = String::new();
        let n: u64 = if self.micros < 0 {
            r.push('-');
            (-(self.micros as i128)) as u64
        } else {
            self.micros as u64
        };
        let mut whole: u64 = n / 1_000_000;
        let rest: u64 = n % 1_000_000;
        if rest > 500_000 || (rest == 500_000 && whole % 2 == 1) {
            whole = whole + 1;
        }
        number::push_digits(&mut r, whole);
        assert(r@ =~= self.whole_text());
        r
    }
}

} // verus!
