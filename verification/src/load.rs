//! Processor load as a number: a percentage with one decimal place, and the
//! mean of the loads of all cores.

use vstd::prelude::*;

verus! {

/// The largest load, 100.0 %, in tenths of a percent.
pub const FULL_LOAD_TENTHS: u16 = 1000;

/// A processor load between 0.0 % and 100.0 %, held in tenths of a percent.
///
/// Its view is the number of tenths, between 0 and 1000.
#[derive(Clone, Copy, Debug, PartialEq, Eq, Structural)]
pub struct Percentage {
    tenths: u16,
}

impl View for Percentage {
    type V = int;

    closed spec fn view(&self) -> int {
        self.tenths as int
    }
}

impl Percentage {
    #[verifier::type_invariant]
    spec fn is_load(self) -> bool {
        self.tenths <= FULL_LOAD_TENTHS
    }

    /// No load at all.
    pub fn zero() -> (p: Percentage)
        ensures
            p@ == 0,
    {
        Percentage { tenths: 0 }
    }

    /// The load of `tenths` tenths of a percent; anything above 100.0 % counts
    /// as 100.0 %.
    pub fn from_tenths(tenths: u32) -> (p: Percentage)
        ensures
            p@ == if tenths <= FULL_LOAD_TENTHS {
                tenths as int
            } else {
                FULL_LOAD_TENTHS as int
            },
    {
        if tenths <= FULL_LOAD_TENTHS as u32 {
            Percentage { tenths: tenths as u16 }
        } else {
            Percentage { tenths: FULL_LOAD_TENTHS }
        }
    }

    /// This load in tenths of a percent.
    pub fn tenths(&self) -> (t: u16)
        ensures
            t == self@,
            t <= FULL_LOAD_TENTHS,
    {
        proof {
            use_type_invariant(self);
        }
        self.tenths
    }
}

/// The loads of `cores`, in tenths of a percent, in order.
pub open spec fn loads_of(cores: Seq<Percentage>) -> Seq<int> {
    Seq::new(cores.len(), |i: int| cores[i]@)
}

/// The sum of `loads`.
pub open spec fn total(loads: Seq<int>) -> int
    decreases loads.len(),
{
    if loads.len() == 0 {
        0
    } else {
        total(loads.drop_last()) + loads.last()
    }
}

/// The mean of `loads`, rounded down to a whole tenth; nothing for no loads.
pub open spec fn mean(loads: Seq<int>) -> Option<int> {
    if loads.len() == 0 {
        None
    } else {
        Some(total(loads) / (loads.len() as int))
    }
}

/// Whether every one of `loads` lies between 0.0 % and 100.0 %.
pub open spec fn loads_in_range(loads: Seq<int>) -> bool {
    forall|i: int| 0 <= i < loads.len() ==> 0 <= #[trigger] loads[i] <= FULL_LOAD_TENTHS
}

/// The sum of loads lies between zero and as many times 100.0 % as there are
/// loads.
proof fn lemma_total_in_range(loads: Seq<int>)
    requires
        loads_in_range(loads),
    ensures
        0 <= total(loads) <= FULL_LOAD_TENTHS * loads.len(),
    decreases loads.len(),
{
    if loads.len() > 0 {
        lemma_total_in_range(loads.drop_last());
    }
}

/// The mean of loads is a load: it lies between 0.0 % and 100.0 %.
pub proof fn lemma_mean_in_range(loads: Seq<int>)
    requires
        loads_in_range(loads),
    ensures
        mean(loads) matches Some(load) ==> 0 <= load <= FULL_LOAD_TENTHS,
{
    if loads.len() > 0 {
        lemma_total_in_range(loads);
        let sum = total(loads);
        let n = loads.len() as int;
        assert(0 <= sum / n <= 1000) by (nonlinear_arith)
            requires
                0 <= sum <= 1000 * n,
                n > 0,
        ;
    }
}

/// The mean load over all cores, rounded down to a tenth of a percent, or
/// nothing where there is no core to read.
pub fn average(cores: &Vec<Percentage>) -> (avg: Option<Percentage>)
    ensures
        match avg {
            Some(p) => mean(loads_of(cores@)) == Some(p@) && 0 <= p@ <= FULL_LOAD_TENTHS,
            None => mean(loads_of(cores@)) is None,
        },
{
    let n: usize = cores.len();
    if n == 0 {
        return None;
    }
    let mut sum: u128 = 0;
    let mut i: usize = 0;
    while i < n
        invariant
            n == cores.len(),
            i <= n,
            sum == total(loads_of(cores@).take(i as int)),
            sum <= FULL_LOAD_TENTHS * i,
        decreases n - i,
    {
        let t: u16 = cores[i].tenths();
        assert(loads_of(cores@).take(i + 1).drop_last() =~= loads_of(cores@).take(i as int));
        sum = sum + t as u128;
        i = i + 1;
    }
    proof {
        assert(loads_of(cores@).take(n as int) =~= loads_of(cores@));
        assert(sum / (n as u128) <= FULL_LOAD_TENTHS) by (nonlinear_arith)
            requires
                sum <= FULL_LOAD_TENTHS * n,
                n > 0,
        ;
    }
    let avg: u128 = sum / (n as u128);
    Some(Percentage { tenths: avg as u16 })
}

} // verus!
