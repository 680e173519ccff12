//! The triple-modifier stat container: flat, increased, more.

use vstd::prelude::*;
use crate::fixed::{
    sat_add, sat_add_spec, sat_factor, factor_applied, clamp_amount, SCALE, MAX_AMOUNT,
};

verus! {

/// A stat following the flat / increased / more model.
///
/// The computed value is
/// `(base + flat) * (1 + increased) * product(1 + more[i])`,
/// carried out in saturating milli-unit arithmetic: `increased` and each
/// `more` entry are milli fractions (`400` stands for `+40%`).
/// Increased bonuses sum additively; more bonuses multiply independently.
pub struct StatValue {
    /// Base value, in milli-units.
    pub base: i64,
    /// Sum of all flat additions, in milli-units.
    pub flat: i64,
    /// Sum of all increased bonuses, as a milli fraction.
    pub increased: i64,
    /// More multipliers, each a milli fraction; order is kept for display,
    /// though the product does not depend on it.
    pub more: Vec<i64>,
}

/// The stat value before more multipliers:
/// `(base + flat) * (1 + increased)`, saturated.
pub open spec fn pre_more_spec(v: StatValue) -> int {
    factor_applied(sat_add_spec(v.base as int, v.flat as int), v.increased as int)
}

/// `x` after the first `n` more multipliers of `more` have been applied,
/// each step saturating.
pub open spec fn apply_more_prefix(x: int, more: Seq<i64>, n: int) -> int
    recommends
        0 <= n <= more.len(),
    decreases n,
{
    if n <= 0 {
        x
    } else {
        factor_applied(apply_more_prefix(x, more, n - 1), more[n - 1] as int)
    }
}

/// The unrounded numerator of the combined more multiplier: the product of
/// `SCALE + more[i]` over the whole list. Dividing by `SCALE^len` gives the
/// exact combined factor, so this captures multiplicative stacking without
/// fixed-point rounding.
pub open spec fn more_product_num(more: Seq<i64>) -> int
    decreases more.len(),
{
    if more.len() == 0 {
        1
    } else {
        more_product_num(more.drop_last()) * (SCALE as int + more.last() as int)
    }
}

/// Value equality for stats: equal scalar parts and equal more lists.
pub open spec fn sv_eq(a: StatValue, b: StatValue) -> bool {
    a.base == b.base && a.flat == b.flat && a.increased == b.increased && a.more@ == b.more@
}

/// The result of granting `x` increased to `v`.
pub open spec fn spec_add_increased(v: StatValue, x: i64) -> StatValue {
    StatValue {
        base: v.base,
        flat: v.flat,
        increased: clamp_amount(v.increased as int + x as int) as i64,
        more: v.more,
    }
}

impl StatValue {
    /// The computed value of this stat (the compose law):
    /// `(base + flat) * (1 + increased) * product(1 + more[i])`,
    /// in saturating milli-unit arithmetic.
    pub open spec fn compute_spec(self) -> int {
        apply_more_prefix(pre_more_spec(self), self.more@, self.more@.len() as int)
    }

    /// Create a new stat with the given base and no modifiers.
    pub fn with_base(base: i64) -> (r: StatValue)
        ensures
            r.base == base,
            r.flat == 0,
            r.increased == 0,
            r.more@ =~= Seq::<i64>::empty(),
    {
        StatValue { base, flat: 0, increased: 0, more: Vec::new() }
    }

    /// Compose law: the computed value is
    /// `(base + flat) * (1 + increased) * product(1 + more[i])`.
    pub fn compute(&self) -> (r: i64)
        ensures
            r as int == self.compute_spec(),
    {
        let bt: i64 = sat_add(self.base, self.flat);
        let mut acc: i64 = sat_factor(bt, self.increased);
        let mut i: usize = 0;
        while i < self.more.len()
            invariant
                i <= self.more.len(),
                acc as int == apply_more_prefix(pre_more_spec(*self), self.more@, i as int),
            decreases self.more.len() - i,
        {
            acc = sat_factor(acc, self.more[i]);
            i = i + 1;
        }
        acc
    }

    /// Add a flat bonus, in milli-units.
    pub fn add_flat(&mut self, value: i64)
        ensures
            final(self).base == old(self).base,
            final(self).flat as int == sat_add_spec(old(self).flat as int, value as int),
            final(self).increased == old(self).increased,
            final(self).more == old(self).more,
    {
        self.flat = sat_add(self.flat, value);
    }

    /// Add an increased bonus, as a milli fraction (`400` for 40%).
    /// Increased bonuses accumulate by addition.
    pub fn add_increased(&mut self, value: i64)
        ensures
            *final(self) == spec_add_increased(*old(self), value),
    {
        self.increased = sat_add(self.increased, value);
    }

    /// Push a more multiplier, as a milli fraction (`200` for 20% more).
    /// More multipliers accumulate multiplicatively.
    pub fn add_more(&mut self, value: i64)
        ensures
            final(self).base == old(self).base,
            final(self).flat == old(self).flat,
            final(self).increased == old(self).increased,
            final(self).more@ =~= old(self).more@.push(value),
    {
        self.more.push(value);
    }

    /// Drop every modifier, keeping only the base.
    pub fn reset_to_base(&mut self)
        ensures
            final(self).base == old(self).base,
            final(self).flat == 0,
            final(self).increased == 0,
            final(self).more@ =~= Seq::<i64>::empty(),
    {
        self.flat = 0;
        self.increased = 0;
        self.more.clear();
    }

    /// The flat part: `base + flat`, saturated.
    pub fn total_flat(&self) -> (r: i64)
        ensures
            r as int == sat_add_spec(self.base as int, self.flat as int),
    {
        sat_add(self.base, self.flat)
    }

    /// The combined increased factor `1 + increased`, as a saturated milli
    /// factor (`1400` stands for `x1.4`).
    pub fn total_increased_multiplier(&self) -> (r: i64)
        ensures
            r as int == sat_add_spec(SCALE as int, self.increased as int),
    {
        sat_add(SCALE, self.increased)
    }

    /// The combined more factor `product(1 + more[i])`, as a saturated
    /// milli factor computed stepwise.
    pub fn total_more_multiplier(&self) -> (r: i64)
        ensures
            r as int == apply_more_prefix(SCALE as int, self.more@, self.more@.len() as int),
    {
        let mut acc: i64 = SCALE;
        let mut i: usize = 0;
        while i < self.more.len()
            invariant
                i <= self.more.len(),
                acc as int == apply_more_prefix(SCALE as int, self.more@, i as int),
            decreases self.more.len() - i,
        {
            acc = sat_factor(acc, self.more[i]);
            i = i + 1;
        }
        acc
    }

    /// Push a whole list of more multipliers, keeping their order.
    pub fn add_more_list(&mut self, list: &Vec<i64>)
        ensures
            final(self).base == old(self).base,
            final(self).flat == old(self).flat,
            final(self).increased == old(self).increased,
            final(self).more@ =~= old(self).more@ + list@,
    {
        let mut i: usize = 0;
        while i < list.len()
            invariant
                i <= list.len(),
                self.base == old(self).base,
                self.flat == old(self).flat,
                self.increased == old(self).increased,
                self.more@ =~= old(self).more@ + list@.subrange(0, i as int),
            decreases list.len() - i,
        {
            self.more.push(list[i]);
            proof {
                assert(list@.subrange(0, i as int + 1) =~= list@.subrange(0, i as int).push(
                    list@[i as int],
                ));
            }
            i = i + 1;
        }
        proof {
            assert(list@.subrange(0, list@.len() as int) =~= list@);
        }
    }

    /// An independent copy of this stat, equal in value.
    pub fn duplicate(&self) -> (r: StatValue)
        ensures
            sv_eq(r, *self),
            r.compute_spec() == self.compute_spec(),
    {
        let mut more: Vec<i64> = Vec::new();
        let mut i: usize = 0;
        while i < self.more.len()
            invariant
                i <= self.more.len(),
                more@ =~= self.more@.subrange(0, i as int),
            decreases self.more.len() - i,
        {
            more.push(self.more[i]);
            i = i + 1;
        }
        proof {
            assert(more@ =~= self.more@);
        }
        StatValue { base: self.base, flat: self.flat, increased: self.increased, more }
    }
}

/// Additive stacking of increased bonuses: granting `a` and then `b`
/// increased leaves the stat exactly as granting `a + b` at once, as long
/// as the running sums stay inside the engine's range.
pub proof fn lemma_increased_additive(v: StatValue, a: i64, b: i64, both: i64)
    requires
        both as int == a as int + b as int,
        -(MAX_AMOUNT as int) <= v.increased as int + a as int <= MAX_AMOUNT as int,
        -(MAX_AMOUNT as int) <= v.increased as int + a as int + b as int <= MAX_AMOUNT as int,
    ensures
        spec_add_increased(spec_add_increased(v, a), b) == spec_add_increased(v, both),
        spec_add_increased(spec_add_increased(v, a), b).compute_spec() == spec_add_increased(
            v,
            both,
        ).compute_spec(),
{
}

/// Multiplicative stacking of more bonuses: pushing `a` and then `b` onto a
/// more list multiplies the exact combined factor by `(1 + a) * (1 + b)`,
/// not by `1 + a + b`.
pub proof fn lemma_more_multiplicative(more: Seq<i64>, a: i64, b: i64)
    ensures
        more_product_num(more.push(a).push(b)) == more_product_num(more) * (SCALE as int
            + a as int) * (SCALE as int + b as int),
{
    let m1 = more.push(a);
    let m2 = m1.push(b);
    assert(m2.drop_last() =~= m1);
    assert(m1.drop_last() =~= more);
    assert(more_product_num(m2) == more_product_num(m1) * (SCALE as int + b as int));
    assert(more_product_num(m1) == more_product_num(more) * (SCALE as int + a as int));
}

/// A 20% and a 30% more bonus combine to exactly x1.56 — more than the
/// x1.5 that additive stacking would give.
pub proof fn lemma_more_twenty_thirty()
    ensures
        more_product_num(seq![200i64, 300i64]) == 1_560_000,
        more_product_num(seq![200i64, 300i64]) != (SCALE as int + 500) * (SCALE as int),
{
    reveal_with_fuel(more_product_num, 4);
    let s = seq![200i64, 300i64];
    assert(s.drop_last() =~= seq![200i64]);
    assert(seq![200i64].drop_last() =~= Seq::<i64>::empty());
    assert(more_product_num(Seq::<i64>::empty()) == 1);
    assert(more_product_num(seq![200i64]) == 1200);
    assert(more_product_num(s) == 1200 * 1300);
}

} // verus!
