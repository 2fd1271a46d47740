use vstd::prelude::*;

use crate::model::Snapshot;

verus! {

/// One day in milliseconds.
pub const DAY_MS: i64 = 86_400_000;

/// One week in milliseconds.
pub const WEEK_MS: i64 = 604_800_000;

/// The retention policy's month (31 days) in milliseconds.
pub const MONTH_MS: i64 = 2_678_400_000;

/// The retention policy's year (365 days) in milliseconds.
pub const YEAR_MS: i64 = 31_536_000_000;

/// Timestamps within this distance of the epoch always have a calendar date.
pub const CALENDAR_LIMIT_MS: i64 = 8_000_000_000_000_000;

/// The UTC day of month (1 to 31) of a millisecond timestamp.
pub uninterp spec fn utc_day_of_month(timestamp_ms: int) -> int;

/// Relies on chrono's `DateTime::from_timestamp_millis` and `Datelike::day`:
/// the UTC calendar day of the month of a millisecond timestamp, from 1 to 31.
/// chrono represents every instant within about 262,000 years of the common
/// era, so within the limit the conversion always yields a date.
#[verifier::external_body]
fn day_of_month(timestamp_ms: i64) -> (r: u32)
    requires
        -CALENDAR_LIMIT_MS <= timestamp_ms <= CALENDAR_LIMIT_MS,
    ensures
        r == utc_day_of_month(timestamp_ms as int),
        1 <= r <= 31,
{
    match chrono::DateTime::from_timestamp_millis(timestamp_ms) {
        Some(date) => chrono::Datelike::day(&date),
        None => 0,
    }
}

/// The snapshot's age falls in the weekly tier, where one snapshot per
/// seven-day bucket of the month is kept.
pub open spec fn in_weekly_tier(age: int) -> bool {
    WEEK_MS < age < MONTH_MS
}

/// The snapshot's age falls in the monthly tier, where the snapshot of the
/// first day of each month is kept.
pub open spec fn in_monthly_tier(age: int) -> bool {
    MONTH_MS < age < YEAR_MS
}

/// The tiered policy on an automatic snapshot of the given age, taken on the
/// given day of month: whether it is kept. Ages of a week or less are always
/// kept, and so are those that no tier covers (exactly one month, a year or
/// more).
pub open spec fn survives(age: int, day: int) -> bool {
    if in_weekly_tier(age) {
        day % 7 == 1
    } else if in_monthly_tier(age) {
        day == 1
    } else {
        true
    }
}

/// The pruner deletes this snapshot at time `now`: it is automatic, its
/// timestamp has a calendar date, and the tiered policy drops it.
pub open spec fn expired(now: int, s: Snapshot) -> bool {
    &&& !s.manual
    &&& -CALENDAR_LIMIT_MS <= s.timestamp <= CALENDAR_LIMIT_MS
    &&& !survives(now - s.timestamp, utc_day_of_month(s.timestamp as int))
}

/// The snapshots of `saves` that survive pruning at `now`, in their order.
pub open spec fn kept_saves(now: int, saves: Seq<Snapshot>) -> Seq<Snapshot>
    decreases saves.len(),
{
    if saves.len() == 0 {
        saves
    } else if expired(now, saves.last()) {
        kept_saves(now, saves.drop_last())
    } else {
        kept_saves(now, saves.drop_last()).push(saves.last())
    }
}

/// The snapshots of `saves` that pruning at `now` deletes, in their order.
pub open spec fn expired_saves(now: int, saves: Seq<Snapshot>) -> Seq<Snapshot>
    decreases saves.len(),
{
    if saves.len() == 0 {
        saves
    } else if expired(now, saves.last()) {
        expired_saves(now, saves.drop_last()).push(saves.last())
    } else {
        expired_saves(now, saves.drop_last())
    }
}

/// Applies the tiered policy to an automatic snapshot of age `age` taken on
/// day `day` of its month.
pub fn keeps_save(age: i64, day: u32) -> (r: bool)
    ensures
        r == survives(age as int, day as int),
{
    if WEEK_MS < age && age < MONTH_MS {
        day % 7 == 1
    } else if MONTH_MS < age && age < YEAR_MS {
        day == 1
    } else {
        true
    }
}

/// Whether pruning at `now` deletes `save`. Manual snapshots are never
/// deleted; neither is one whose timestamp lies beyond the calendar.
pub fn is_expired(now: i64, save: &Snapshot) -> (r: bool)
    ensures
        r == expired(now as int, *save),
{
    if save.manual {
        return false;
    }
    if save.timestamp < -CALENDAR_LIMIT_MS || save.timestamp > CALENDAR_LIMIT_MS {
        return false;
    }
    let age = now as i128 - save.timestamp as i128;
    if age <= WEEK_MS as i128 || age >= YEAR_MS as i128 || age == MONTH_MS as i128 {
        return false;
    }
    let day = day_of_month(save.timestamp);
    !keeps_save(age as i64, day)
}

/// Splits the snapshots into those that survive pruning at `now` and those
/// to delete, each in the order given.
pub fn clean_db_saves(now: i64, saves: &Vec<Snapshot>) -> (r: (Vec<Snapshot>, Vec<Snapshot>))
    ensures
        r.0@ == kept_saves(now as int, saves@),
        r.1@ == expired_saves(now as int, saves@),
{
    let mut kept: Vec<Snapshot> = Vec::new();
    let mut removed: Vec<Snapshot> = Vec::new();
    let mut i: usize = 0;
    while i < saves.len()
        invariant
            i <= saves.len(),
            kept@ == kept_saves(now as int, saves@.subrange(0, i as int)),
            removed@ == expired_saves(now as int, saves@.subrange(0, i as int)),
        decreases saves.len() - i,
    {
        let ghost prefix = saves@.subrange(0, i as int + 1);
        assert(prefix.drop_last() =~= saves@.subrange(0, i as int));
        assert(prefix.last() == saves@[i as int]);
        if is_expired(now, &saves[i]) {
            removed.push(saves[i].duplicate());
        } else {
            kept.push(saves[i].duplicate());
        }
        i = i + 1;
    }
    assert(saves@.subrange(0, saves.len() as int) =~= saves@);
    (kept, removed)
}

/// Pruning is idempotent: a second pass at the same time over the survivors
/// of a first pass keeps every one of them and deletes none.
pub proof fn lemma_prune_idempotent(now: int, saves: Seq<Snapshot>)
    ensures
        kept_saves(now, kept_saves(now, saves)) == kept_saves(now, saves),
        expired_saves(now, kept_saves(now, saves)) == Seq::<Snapshot>::empty(),
    decreases saves.len(),
{
    if saves.len() > 0 {
        lemma_prune_idempotent(now, saves.drop_last());
        let k = kept_saves(now, saves.drop_last());
        if !expired(now, saves.last()) {
            let kk = k.push(saves.last());
            assert(kk.drop_last() =~= k);
            assert(kk.last() == saves.last());
        }
    }
}

} // verus!
