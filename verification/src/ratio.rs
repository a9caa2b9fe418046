//! Exact fractions of wins among plays.

use vstd::prelude::*;

verus! {

/// A fraction of two counts. Its denominator is not 0.
#[derive(Clone, Copy, Debug)]
pub struct Ratio {
    pub num: usize,
    pub den: usize,
}

impl Ratio {
    /// Whether this fraction is greater than the other, both denominators
    /// being positive.
    pub open spec fn exceeds(self, other: Ratio) -> bool {
        self.num * other.den > other.num * self.den
    }

    /// The fraction of wins among plays, and 0 where nothing was played.
    pub open spec fn of(wins: nat, plays: nat) -> Ratio {
        if plays == 0 {
            Ratio { num: 0, den: 1 }
        } else {
            Ratio { num: wins as usize, den: plays as usize }
        }
    }

    pub fn new(wins: usize, plays: usize) -> (r: Ratio)
        ensures
            r == Ratio::of(wins as nat, plays as nat),
            r.den > 0,
            wins <= plays ==> r.num <= r.den,
    {
        if plays == 0 {
            Ratio { num: 0, den: 1 }
        } else {
            Ratio { num: wins, den: plays }
        }
    }

    pub fn gt(&self, other: &Ratio) -> (b: bool)
        ensures
            b == self.exceeds(*other),
    {
        let a: u128 = self.num as u128;
        let b: u128 = other.den as u128;
        let c: u128 = other.num as u128;
        let d: u128 = self.den as u128;
        assert(a * b <= 0xffff_ffff_ffff_ffff * 0xffff_ffff_ffff_ffff) by (nonlinear_arith)
            requires
                a <= 0xffff_ffff_ffff_ffff,
                b <= 0xffff_ffff_ffff_ffff,
        ;
        assert(c * d <= 0xffff_ffff_ffff_ffff * 0xffff_ffff_ffff_ffff) by (nonlinear_arith)
            requires
                c <= 0xffff_ffff_ffff_ffff,
                d <= 0xffff_ffff_ffff_ffff,
        ;
        a * b > c * d
    }
}

/// Of three fractions with positive denominators, where the first does not
/// exceed the second and the third exceeds the second, the third exceeds
/// the first.
pub proof fn lemma_exceeds_chain(a: Ratio, b: Ratio, c: Ratio)
    requires
        a.den > 0,
        b.den > 0,
        c.den > 0,
        !a.exceeds(b),
        c.exceeds(b),
    ensures
        c.exceeds(a),
        !a.exceeds(c),
{
    let (an, ad) = (a.num as int, a.den as int);
    let (bn, bd) = (b.num as int, b.den as int);
    let (cn, cd) = (c.num as int, c.den as int);
    assert(an * bd * cd <= bn * ad * cd) by (nonlinear_arith)
        requires
            an * bd <= bn * ad,
            cd > 0,
    ;
    assert(cn * bd * ad > bn * cd * ad) by (nonlinear_arith)
        requires
            cn * bd > bn * cd,
            ad > 0,
    ;
    assert(bn * ad * cd == bn * cd * ad) by (nonlinear_arith);
    assert(an * bd * cd == (an * cd) * bd) by (nonlinear_arith);
    assert(cn * bd * ad == (cn * ad) * bd) by (nonlinear_arith);
    assert(cn * ad > an * cd) by (nonlinear_arith)
        requires
            (cn * ad) * bd > (an * cd) * bd,
            bd > 0,
    ;
}

} // verus!
