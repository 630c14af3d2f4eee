//! Cutting off durable writes at a chosen point, so that what a kill leaves
//! behind can be looked at.
use vstd::prelude::*;

verus! {

/// How many durable writes still land, and what to run the next time a row
/// has left the live queue.
pub struct StoreCut<T> {
    /// `None` lets every write land.
    pub budget: Option<u32>,
    /// Runs once.
    pub gap: Option<T>,
}

impl<T> StoreCut<T> {
    /// Nothing is cut.
    pub fn new() -> (r: StoreCut<T>)
        ensures
            r.budget is None,
            r.gap is None,
    {
        StoreCut { budget: None, gap: None }
    }
}

/// Lets `writes` further durable writes land, and none after them.
pub fn arm_cut<T>(cut: &mut StoreCut<T>, writes: u32)
    ensures
        final(cut).budget == Some(writes),
        final(cut).gap == old(cut).gap,
{
    cut.budget = Some(writes);
}

/// Lets everything land again, and forgets what was to run.
pub fn disarm<T>(cut: &mut StoreCut<T>)
    ensures
        final(cut).budget is None,
        final(cut).gap is None,
{
    cut.budget = None;
    cut.gap = None;
}

/// Whether the write at hand must not happen.
pub open spec fn is_cut(budget: Option<u32>) -> bool {
    budget == Some(0u32)
}

/// The budget after a write was asked about.
pub open spec fn spent(budget: Option<u32>) -> Option<u32> {
    match budget {
        Some(n) if n > 0 => Some((n - 1) as u32),
        _ => budget,
    }
}

/// Whether the write at hand must not happen. One that may counts.
pub fn cut_here<T>(cut: &mut StoreCut<T>) -> (r: bool)
    ensures
        r == is_cut(old(cut).budget),
        final(cut).budget == spent(old(cut).budget),
        final(cut).gap == old(cut).gap,
{
    match cut.budget {
        None => false,
        Some(n) => {
            if n == 0 {
                true
            } else {
                cut.budget = Some(n - 1);
                false
            }
        },
    }
}

/// Has `f` run the next time a row has left the live queue.
pub fn on_park_gap<T>(cut: &mut StoreCut<T>, f: T)
    ensures
        final(cut).budget == old(cut).budget,
        final(cut).gap == Some(f),
{
    cut.gap = Some(f);
}

/// Hands out what is to run, once: it is taken out before it runs, so that it
/// cannot come upon itself.
pub fn park_gap<T>(cut: &mut StoreCut<T>) -> (r: Option<T>)
    ensures
        r == old(cut).gap,
        final(cut).gap is None,
        final(cut).budget == old(cut).budget,
{
    cut.gap.take()
}

/// The budget after `k` writes were asked about.
pub open spec fn spent_after(budget: Option<u32>, k: nat) -> Option<u32>
    decreases k,
{
    if k == 0 {
        budget
    } else {
        spent(spent_after(budget, (k - 1) as nat))
    }
}

/// Armed with `n`, the first `n` writes land and every later one is cut.
pub proof fn a_cut_lets_exactly_its_budget_land(n: u32, k: nat)
    ensures
        is_cut(spent_after(Some(n), k)) == (k >= n),
        k <= n ==> spent_after(Some(n), k) == Some((n - k) as u32),
        k >= n ==> spent_after(Some(n), k) == Some(0u32),
    decreases k,
{
    if k > 0 {
        a_cut_lets_exactly_its_budget_land(n, (k - 1) as nat);
    }
}

/// Without a budget no write is ever cut.
pub proof fn an_unarmed_cut_lets_everything_land(k: nat)
    ensures
        spent_after(None, k) is None,
        !is_cut(spent_after(None, k)),
    decreases k,
{
    if k > 0 {
        an_unarmed_cut_lets_everything_land((k - 1) as nat);
    }
}

/// A write is cut exactly where the budget is used up; each that lands counts.
pub proof fn when_a_write_is_cut<T>(cut: &mut StoreCut<T>, r: bool)
    requires
        call_ensures(cut_here::<T>, (cut,), r),
    ensures
        r <==> old(cut).budget == Some(0u32),
        old(cut).budget is None ==> final(cut).budget is None,
        old(cut).budget is Some && old(cut).budget->0 > 0 ==> final(cut).budget is Some
            && final(cut).budget->0 + 1 == old(cut).budget->0,
        final(cut).gap == old(cut).gap,
{
}

/// Arming sets how many further writes land, and nothing else.
pub proof fn what_arming_does<T>(cut: &mut StoreCut<T>, writes: u32, r: ())
    requires
        call_ensures(arm_cut::<T>, (cut, writes), r),
    ensures
        final(cut).budget == Some(writes) && final(cut).gap == old(cut).gap,
{
}

/// What is to run at a gap is handed out once.
pub proof fn a_gap_runs_once<T>(cut: &mut StoreCut<T>, r: Option<T>)
    requires
        call_ensures(park_gap::<T>, (cut,), r),
    ensures
        r == old(cut).gap,
        final(cut).gap is None && final(cut).budget == old(cut).budget,
{
}

/// After disarming nothing is cut and nothing is to run.
pub proof fn what_disarming_does<T>(cut: &mut StoreCut<T>, r: ())
    requires
        call_ensures(disarm::<T>, (cut,), r),
    ensures
        final(cut).budget is None && final(cut).gap is None,
{
}

} // verus!
