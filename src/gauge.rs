//! The budget gauge: how much of the ceiling the payments use, as an exact
//! fraction, and the colour and label it is drawn with.

use vstd::prelude::*;
use crate::session::{App, Budget, Payment};

verus! {

/// The gauge's colour.
#[derive(Clone, Copy, Debug, PartialEq, Eq, Structural)]
pub enum GaugeTone {
    /// The payments sum to zero.
    Neutral,
    /// More is spent than received, within the ceiling.
    Warning,
    /// More is spent than the ceiling allows.
    Alert,
    /// More is received than spent.
    Safe,
}

/// The text on the gauge.
#[derive(Clone, Copy, Debug, PartialEq, Eq, Structural)]
pub enum GaugeLabel {
    NoBudget,
    /// The payments' total and the ceiling's size, in cents.
    Spent { total: i128, ceiling: u64 },
}

/// The filled part of the gauge is `num / den`, with `num <= den` and `den > 0`.
#[derive(Clone, Copy, Debug, PartialEq, Eq, Structural)]
pub struct GaugePlan {
    pub num: u64,
    pub den: u64,
    pub tone: GaugeTone,
    pub label: GaugeLabel,
}

/// The sum of the payments' amounts, in cents.
pub open spec fn total_of(s: Seq<Payment>) -> int
    decreases s.len(),
{
    if s.len() == 0 {
        0
    } else {
        total_of(s.drop_last()) + s.last().amount
    }
}

pub open spec fn abs(x: int) -> int {
    if x < 0 {
        -x
    } else {
        x
    }
}

/// The ceiling the total is held against: none without a budget.
pub open spec fn ceiling_of(budget: Option<Budget>) -> int {
    match budget {
        Some(b) => b.amount as int,
        None => 0,
    }
}

/// `|total| / |ceiling|` clamped to one, as a fraction; a full gauge when
/// no budget is loaded or its ceiling is zero.
pub open spec fn ratio_of(budget: Option<Budget>, total: int) -> (int, int) {
    match budget {
        Some(b) => if b.amount == 0 {
            (1, 1)
        } else if abs(total) <= abs(b.amount as int) {
            (abs(total), abs(b.amount as int))
        } else {
            (abs(b.amount as int), abs(b.amount as int))
        },
        None => (1, 1),
    }
}

pub open spec fn tone_of(budget: Option<Budget>, total: int) -> GaugeTone {
    if total == 0 {
        GaugeTone::Neutral
    } else if total > 0 {
        if total > ceiling_of(budget) {
            GaugeTone::Alert
        } else {
            GaugeTone::Warning
        }
    } else {
        GaugeTone::Safe
    }
}

pub open spec fn label_of(budget: Option<Budget>, total: int) -> GaugeLabel {
    match budget {
        Some(b) => GaugeLabel::Spent { total: total as i128, ceiling: abs(b.amount as int) as u64 },
        None => GaugeLabel::NoBudget,
    }
}

const HALF_RANGE: i128 = 9223372036854775808;

/// Adds up the payments' amounts. The sum cannot leave `i128`: there are at
/// most `usize::MAX` payments of at most 2^63 cents each.
pub fn payments_total(payments: &Vec<Payment>) -> (r: i128)
    ensures
        r == total_of(payments@),
{
    let mut acc: i128 = 0;
    let mut i: usize = 0;
    while i < payments.len()
        invariant
            i <= payments@.len(),
            acc == total_of(payments@.take(i as int)),
            -(i as int) * HALF_RANGE <= acc <= (i as int) * HALF_RANGE,
        decreases payments@.len() - i,
    {
        let x = payments[i].amount;
        proof {
            assert(payments@.take(i + 1).drop_last() =~= payments@.take(i as int));
            assert((i as int + 1) * HALF_RANGE <= 18446744073709551615int * HALF_RANGE)
                by (nonlinear_arith)
                requires i as int + 1 <= 18446744073709551615int;
            assert((i as int + 1) * HALF_RANGE == (i as int) * HALF_RANGE + HALF_RANGE)
                by (nonlinear_arith);
        }
        acc = acc + x as i128;
        i = i + 1;
    }
    assert(payments@.take(i as int) =~= payments@);
    acc
}

fn magnitude(x: i64) -> (r: u64)
    ensures
        r == abs(x as int),
{
    if x < 0 {
        if x == i64::MIN {
            9223372036854775808u64
        } else {
            (-x) as u64
        }
    } else {
        x as u64
    }
}

impl App {
    /// How the budget gauge is drawn from the snapshot.
    pub fn budget_gauge(&self) -> (r: GaugePlan)
        ensures
            (r.num as int, r.den as int) == ratio_of(self.budget, total_of(self.payments@)),
            r.num <= r.den,
            r.den > 0,
            r.tone == tone_of(self.budget, total_of(self.payments@)),
            r.label == label_of(self.budget, total_of(self.payments@)),
    {
        let total = payments_total(&self.payments);
        let (num, den, ceiling, label) = match &self.budget {
            Some(b) => {
                let c = magnitude(b.amount);
                let (n, d) = if b.amount == 0 {
                    (1u64, 1u64)
                } else if total <= c as i128 && total >= -(c as i128) {
                    (if total < 0 { (-total) as u64 } else { total as u64 }, c)
                } else {
                    (c, c)
                };
                (n, d, b.amount as i128, GaugeLabel::Spent { total, ceiling: c })
            },
            None => (1u64, 1u64, 0i128, GaugeLabel::NoBudget),
        };
        let tone = if total == 0 {
            GaugeTone::Neutral
        } else if total > 0 {
            if total > ceiling {
                GaugeTone::Alert
            } else {
                GaugeTone::Warning
            }
        } else {
            GaugeTone::Safe
        };
        GaugePlan { num, den, tone, label }
    }
}

} // verus!
