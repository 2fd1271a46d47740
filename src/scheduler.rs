use vstd::prelude::*;

verus! {

/// Time between two scheduler cycles, in milliseconds.
pub const CYCLE_PERIOD_MS: u64 = 86_400_000;

/// Where a scheduler cycle stands. A cycle backs up every known database in
/// turn, then prunes expired snapshots, then sleeps until the next cycle.
#[derive(Clone, Copy, Debug, PartialEq, Eq, Structural)]
pub enum CronPhase {
    /// Back up the database at this position of the cycle's list.
    Save(usize),
    /// Run the retention pruner.
    Clean,
    /// Sleep for the cycle period, then start a new cycle.
    Sleep,
}

/// The phase of a cycle over `n` databases after `k` steps.
pub open spec fn phase_after(n: nat, k: nat) -> CronPhase
    decreases k,
{
    if k == 0 {
        if n > 0 {
            CronPhase::Save(0)
        } else {
            CronPhase::Clean
        }
    } else {
        next_phase(phase_after(n, (k - 1) as nat), n)
    }
}

/// The phase that follows `phase` in a cycle over `n` databases.
pub open spec fn next_phase(phase: CronPhase, n: nat) -> CronPhase {
    match phase {
        CronPhase::Save(i) => if i + 1 < n {
            CronPhase::Save((i + 1) as usize)
        } else {
            CronPhase::Clean
        },
        CronPhase::Clean => CronPhase::Sleep,
        CronPhase::Sleep => CronPhase::Sleep,
    }
}

/// The first phase of a cycle over `n_databases` databases.
pub fn start_cron(n_databases: usize) -> (r: CronPhase)
    ensures
        r == phase_after(n_databases as nat, 0),
{
    if n_databases > 0 {
        CronPhase::Save(0)
    } else {
        CronPhase::Clean
    }
}

/// The phase after `phase` has been carried out. Whether the step succeeded
/// does not matter: a failed backup of one database does not stop the cycle.
pub fn cron_step(phase: CronPhase, n_databases: usize, succeeded: bool) -> (r: CronPhase)
    requires
        phase matches CronPhase::Save(i) ==> i < n_databases,
    ensures
        r == next_phase(phase, n_databases as nat),
        r matches CronPhase::Save(j) ==> j < n_databases,
{
    match phase {
        CronPhase::Save(i) => if i + 1 < n_databases {
            CronPhase::Save(i + 1)
        } else {
            CronPhase::Clean
        },
        CronPhase::Clean => CronPhase::Sleep,
        CronPhase::Sleep => CronPhase::Sleep,
    }
}

/// A cycle over `n` databases backs up each of them once, in order, before it
/// prunes, and sleeps right after pruning.
pub proof fn lemma_cycle_order(n: nat, k: nat)
    requires
        n < usize::MAX,
    ensures
        k < n ==> phase_after(n, k) == CronPhase::Save(k as usize),
        k == n ==> phase_after(n, k) == CronPhase::Clean,
        k > n ==> phase_after(n, k) == CronPhase::Sleep,
    decreases k,
{
    if k > 0 {
        lemma_cycle_order(n, (k - 1) as nat);
    }
}

} // verus!
