//! CPU utilization as an exact fixed-point number, and the mean over cores.

use vstd::prelude::*;

verus! {

/// Millionths of a percent in one percent.
pub const MICRO_PER_PERCENT: u32 = 1_000_000;

/// One hundred percent, in millionths of a percent.
pub const FULL_SCALE: u32 = 100_000_000;

/// A utilization between 0 % and 100 %, held in millionths of a percent.
#[derive(Clone, Copy, Debug, PartialEq, Eq)]
pub struct Usage {
    micro: u32,
}

impl View for Usage {
    type V = nat;

    /// The utilization in millionths of a percent.
    closed spec fn view(&self) -> nat {
        self.micro as nat
    }
}

impl Usage {
    #[verifier::type_invariant]
    spec fn in_range(self) -> bool {
        self.micro <= FULL_SCALE
    }

    /// No utilization at all.
    pub fn idle() -> (usage: Usage)
        ensures
            usage@ == 0,
    {
        Usage { micro: 0 }
    }

    /// Full utilization.
    pub fn full() -> (usage: Usage)
        ensures
            usage@ == FULL_SCALE,
    {
        Usage { micro: FULL_SCALE }
    }

    /// The utilization of `value` millionths of a percent, if that is at most
    /// 100 %.
    pub fn from_micro_percent(value: u32) -> (usage: Option<Usage>)
        ensures
            usage is Some <==> value <= FULL_SCALE,
            usage matches Some(u) ==> u@ == value,
    {
        if value <= FULL_SCALE {
            Some(Usage { micro: value })
        } else {
            None
        }
    }

    /// The utilization of `value` millionths of a percent, held at 100 % where
    /// `value` is more.
    pub fn saturating(value: u64) -> (usage: Usage)
        ensures
            usage@ == if value >= FULL_SCALE {
                FULL_SCALE as nat
            } else {
                value as nat
            },
    {
        if value >= FULL_SCALE as u64 {
            Usage { micro: FULL_SCALE }
        } else {
            Usage { micro: value as u32 }
        }
    }

    /// The utilization in millionths of a percent.
    pub fn micro_percent(&self) -> (value: u32)
        ensures
            value == self@,
            value <= FULL_SCALE,
    {
        proof {
            use_type_invariant(self);
        }
        self.micro
    }
}

/// The utilizations of `samples` as plain numbers, in the same order.
pub open spec fn levels(samples: Seq<Usage>) -> Seq<nat> {
    samples.map_values(|usage: Usage| usage@)
}

/// Whether every one of `values` is at most 100 %.
pub open spec fn all_in_range(values: Seq<nat>) -> bool {
    forall|i: int| 0 <= i < values.len() ==> #[trigger] values[i] <= FULL_SCALE
}

/// The sum of `values`.
pub open spec fn total_of(values: Seq<nat>) -> nat
    decreases values.len(),
{
    if values.len() == 0 {
        0
    } else {
        total_of(values.drop_last()) + values.last()
    }
}

/// The arithmetic mean of `values`, rounded down to a whole number; zero for
/// an empty sequence.
pub open spec fn mean_of(values: Seq<nat>) -> nat {
    if values.len() == 0 {
        0
    } else {
        total_of(values) / values.len()
    }
}

/// Taking one more value into a prefix adds that value to the prefix's sum.
pub proof fn lemma_total_of_prefix(values: Seq<nat>, end: int)
    requires
        0 <= end < values.len(),
    ensures
        total_of(values.take(end + 1)) == total_of(values.take(end)) + values[end],
{
    assert(values.take(end + 1).drop_last() =~= values.take(end));
}

/// The sum of values that all lie between `low` and `high` lies between
/// `low` and `high` times their number.
pub proof fn lemma_total_of_bounds(values: Seq<nat>, low: nat, high: nat)
    requires
        forall|i: int| 0 <= i < values.len() ==> low <= #[trigger] values[i] <= high,
    ensures
        low * values.len() <= total_of(values) <= high * values.len(),
    decreases values.len(),
{
    if values.len() > 0 {
        let front = values.drop_last();
        lemma_total_of_bounds(front, low, high);
        assert(low * values.len() == low * front.len() + low) by (nonlinear_arith)
            requires
                values.len() == front.len() + 1,
        ;
        assert(high * values.len() == high * front.len() + high) by (nonlinear_arith)
            requires
                values.len() == front.len() + 1,
        ;
    }
}

/// The mean of a non-empty sequence is the exact quotient of its sum by its
/// length, rounded down: it falls short of the true mean by less than one
/// unit.
pub proof fn lemma_mean_of_is_floor(values: Seq<nat>)
    requires
        values.len() > 0,
    ensures
        mean_of(values) * values.len() <= total_of(values) < (mean_of(values) + 1) * values.len(),
{
    let total = total_of(values) as int;
    let count = values.len() as int;
    assert((total / count) * count <= total < (total / count + 1) * count) by (nonlinear_arith)
        requires
            count > 0,
            total >= 0,
    ;
}

/// The mean of a non-empty sequence lies between any two bounds that hold of
/// all its values: it is never below the least nor above the greatest.
pub proof fn lemma_mean_of_bounds(values: Seq<nat>, low: nat, high: nat)
    requires
        values.len() > 0,
        forall|i: int| 0 <= i < values.len() ==> low <= #[trigger] values[i] <= high,
    ensures
        low <= mean_of(values) <= high,
{
    lemma_total_of_bounds(values, low, high);
    let total = total_of(values) as int;
    let count = values.len() as int;
    assert(low <= total / count <= high) by (nonlinear_arith)
        requires
            count > 0,
            low * count <= total <= high * count,
    ;
}

/// The mean of values that all lie in the range of a utilization lies in it
/// too, whether or not there are any.
pub proof fn lemma_mean_of_in_range(values: Seq<nat>)
    requires
        all_in_range(values),
    ensures
        mean_of(values) <= FULL_SCALE,
{
    if values.len() > 0 {
        lemma_mean_of_bounds(values, 0, FULL_SCALE as nat);
    }
}

/// The overall utilization of a set of cores: the arithmetic mean of their
/// utilizations, rounded down to a millionth of a percent. With no cores it
/// is zero. Every sample is at most 100 %, and so is the mean.
pub fn mean(samples: &[Usage]) -> (overall: Usage)
    ensures
        overall@ == mean_of(levels(samples@)),
        samples@.len() == 0 ==> overall@ == 0,
        all_in_range(levels(samples@)),
        overall@ <= FULL_SCALE,
{
    let count: usize = samples.len();
    if count == 0 {
        return Usage::idle();
    }
    let ghost values = levels(samples@);
    let mut sum: u128 = 0;
    let mut index: usize = 0;
    while index < count
        invariant
            count == samples@.len(),
            values == levels(samples@),
            index <= count,
            sum == total_of(values.take(index as int)),
            sum <= index * FULL_SCALE,
            all_in_range(values.take(index as int)),
        decreases count - index,
    {
        let sample: Usage = samples[index];
        let level: u32 = sample.micro_percent();
        proof {
            lemma_total_of_prefix(values, index as int);
            assert(index * FULL_SCALE + FULL_SCALE == (index + 1) * FULL_SCALE)
                by (nonlinear_arith);
            assert((index + 1) * FULL_SCALE <= 0x1_0000_0000_0000_0000 * 0x1_0000_0000)
                by (nonlinear_arith)
                requires
                    index + 1 <= 0x1_0000_0000_0000_0000,
                    FULL_SCALE <= 0x1_0000_0000,
            ;
        }
        sum = sum + level as u128;
        index = index + 1;
    }
    proof {
        assert(values.take(count as int) =~= values);
    }
    let quotient: u128 = sum / (count as u128);
    proof {
        let total = sum as int;
        let number = count as int;
        assert(total / number <= FULL_SCALE) by (nonlinear_arith)
            requires
                number > 0,
                0 <= total <= number * FULL_SCALE,
        ;
    }
    Usage { micro: quotient as u32 }
}

} // verus!
