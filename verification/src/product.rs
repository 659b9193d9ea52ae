//! One row of the day's tally: a product of the catalogue, how many times it
//! was sold today, and the points it currently earns.
use vstd::prelude::*;

use crate::catalog::ProductDef;
use crate::text::{decimal_text, int_text};

verus! {

#[derive(Clone, Copy)]
pub struct Product {
    pub def: ProductDef,
    pub count: u32,
    pub points: i32,
}

/// `v` restricted to `lo..=hi`, as `Ord::clamp` gives it.
pub open spec fn clamp_spec(v: int, lo: int, hi: int) -> int {
    if v < lo {
        lo
    } else if v > hi {
        hi
    } else {
        v
    }
}

/// The points a row contributes to the day: count times points.
pub open spec fn row_points(p: Product) -> int {
    p.count * p.points
}

/// `p` with one more sale.
pub open spec fn incremented(p: Product) -> Product {
    Product { count: (p.count + 1) as u32, ..p }
}

/// `p` with one sale less, never below zero.
pub open spec fn decremented(p: Product) -> Product {
    Product { count: if p.count == 0 { 0 } else { (p.count - 1) as u32 }, ..p }
}

/// `p` with its points brought into the product's range.
pub open spec fn clamped(p: Product) -> Product {
    Product {
        points: clamp_spec(p.points as int, p.def.min_points as int, p.def.max_points as int) as i32,
        ..p
    }
}

/// `p` with its points set to `value`, brought into the product's range.
pub open spec fn with_points(p: Product, value: i32) -> Product {
    Product {
        points: clamp_spec(value as int, p.def.min_points as int, p.def.max_points as int) as i32,
        ..p
    }
}

/// How a number of points is shown: the number, then " б.".
pub open spec fn points_label_text(v: int) -> Seq<char> {
    int_text(v) + " б."@
}

/// Writes `v` as a number of points: "{v} б.".
pub fn points_label(v: i64) -> (res: String)
    ensures
        res@ == points_label_text(v as int),
{
    let mut s = decimal_text(v);
    s.append(" б.");
    s
}

impl Product {
    /// The points lie in the range of the product.
    pub open spec fn in_range(self) -> bool {
        self.def.min_points <= self.points <= self.def.max_points
    }

    /// A fresh row for `def`: nothing sold yet, at the product's starting points.
    pub fn from_def(def: ProductDef) -> (p: Product)
        ensures
            p == (Product { def, count: 0, points: def.points }),
    {
        Product { def, count: 0, points: def.points }
    }

    /// The points this row contributes to the day.
    pub fn row_total(&self) -> (r: i64)
        ensures
            r == row_points(*self),
    {
        proof {
            lemma_row_points_bounds(*self);
        }
        self.count as i64 * self.points as i64
    }

    /// The label shown at the end of a row: "= {points} б.", only when the row
    /// contributes more than zero points.
    pub fn row_label(&self) -> (res: Option<String>)
        ensures
            row_points(*self) > 0 ==> res is Some && res->0@ == seq!['=', ' '] + points_label_text(
                row_points(*self),
            ),
            row_points(*self) <= 0 ==> res is None,
    {
        let row = self.row_total();
        if row > 0 {
            let mut s = String::new();
            s.append("= ");
            let t = points_label(row);
            s.append(t.as_str());
            assert(s@ =~= seq!['=', ' '] + points_label_text(row_points(*self))) by {
                reveal_strlit("= ");
            }
            Some(s)
        } else {
            None
        }
    }

    /// One more sale of this product.
    pub fn increment(&mut self)
        requires
            old(self).count < u32::MAX,
        ensures
            *final(self) == incremented(*old(self)),
    {
        self.count = self.count + 1;
    }

    /// One sale less, never below zero.
    pub fn decrement(&mut self)
        ensures
            *final(self) == decremented(*old(self)),
    {
        self.count = self.count.saturating_sub(1);
    }

    /// Brings the points into the product's range.
    pub fn clamp_points(&mut self)
        requires
            old(self).def.wf(),
        ensures
            *final(self) == clamped(*old(self)),
            final(self).in_range(),
    {
        let lo = self.def.min_points;
        let hi = self.def.max_points;
        if self.points < lo {
            self.points = lo;
        } else if self.points > hi {
            self.points = hi;
        }
    }

    /// Sets the points by hand; the value is brought into the product's range.
    pub fn set_points(&mut self, value: i32)
        requires
            old(self).def.wf(),
        ensures
            *final(self) == with_points(*old(self), value),
            final(self).in_range(),
    {
        self.points = value;
        self.clamp_points();
    }
}

/// The points of one row fit in an `i64`.
pub proof fn lemma_row_points_bounds(p: Product)
    ensures
        -0x8000_0000_0000_0000 <= row_points(p) < 0x8000_0000_0000_0000,
{
    assert(-0x8000_0000_0000_0000 <= p.count * p.points < 0x8000_0000_0000_0000)
        by (nonlinear_arith)
        requires
            0 <= p.count <= 0xffff_ffff,
            -0x8000_0000 <= p.points <= 0x7fff_ffff,
    ;
}

/// A sale added and then taken back leaves the row as it was.
pub proof fn lemma_increment_then_decrement(p: Product)
    requires
        p.count < u32::MAX,
    ensures
        decremented(incremented(p)) == p,
{
}

/// A sale taken back and added again leaves a row with sales as it was.
pub proof fn lemma_decrement_then_increment(p: Product)
    requires
        p.count > 0,
    ensures
        incremented(decremented(p)) == p,
{
}

/// Taking a sale back from a row without sales changes nothing.
pub proof fn lemma_decrement_at_zero(p: Product)
    requires
        p.count == 0,
    ensures
        decremented(p) == p,
{
}

/// Clamping brings the points into range, keeps points already in range, and
/// a second clamp changes nothing.
pub proof fn lemma_clamp(p: Product)
    requires
        p.def.wf(),
    ensures
        clamped(p).in_range(),
        p.in_range() ==> clamped(p) == p,
        clamped(clamped(p)) == clamped(p),
{
}

/// A product with fixed points keeps them, whatever is entered by hand.
pub proof fn lemma_fixed_points_stay(p: Product, value: i32)
    requires
        p.def.min_points == p.def.max_points,
    ensures
        with_points(p, value).points == p.def.min_points,
{
}

} // verus!
