use watchtower::model::Snapshot;
use watchtower::retention::{
    clean_db_saves, is_expired, keeps_save, DAY_MS, MONTH_MS, WEEK_MS, YEAR_MS,
};

const JAN_01_NOON: i64 = 1_704_110_400_000;
const JAN_08_NOON: i64 = 1_704_715_200_000;
const JAN_09_NOON: i64 = 1_704_801_600_000;
const JAN_15_NOON: i64 = 1_705_320_000_000;
const JAN_22_MIDNIGHT: i64 = 1_705_881_600_000;
const DEC_29_ELEVEN_PM: i64 = 1_703_890_800_000;
const JAN_29_NOON: i64 = 1_706_529_600_000;

fn save(id: &str, timestamp: i64, manual: bool) -> Snapshot {
    Snapshot {
        id: id.to_string(),
        database_id: "d".to_string(),
        timestamp,
        manual,
    }
}

fn ids(saves: &[Snapshot]) -> Vec<String> {
    saves.iter().map(|s| s.id.clone()).collect()
}

#[test]
fn policy_constants() {
    assert_eq!(DAY_MS, 86_400_000);
    assert_eq!(WEEK_MS, 7 * DAY_MS);
    assert_eq!(MONTH_MS, 31 * DAY_MS);
    assert_eq!(YEAR_MS, 365 * DAY_MS);
}

#[test]
fn weekly_tier_keeps_one_day_per_week() {
    let age = 10 * DAY_MS;
    assert!(keeps_save(age, 1));
    assert!(keeps_save(age, 8));
    assert!(keeps_save(age, 29));
    assert!(!keeps_save(age, 9));
    assert!(!keeps_save(age, 2));
}

#[test]
fn monthly_tier_keeps_first_of_month() {
    let age = 100 * DAY_MS;
    assert!(keeps_save(age, 1));
    assert!(!keeps_save(age, 8));
    assert!(!keeps_save(age, 31));
}

#[test]
fn recent_and_old_snapshots_are_kept() {
    assert!(keeps_save(DAY_MS, 9));
    assert!(keeps_save(WEEK_MS, 9));
    assert!(keeps_save(MONTH_MS, 9));
    assert!(keeps_save(YEAR_MS, 9));
    assert!(keeps_save(2 * YEAR_MS, 9));
    assert!(keeps_save(-DAY_MS, 9));
}

#[test]
fn tier_boundaries_on_a_ninth() {
    let s = save("a", JAN_09_NOON, false);
    assert!(!is_expired(JAN_09_NOON + WEEK_MS - 1, &s));
    assert!(is_expired(JAN_09_NOON + WEEK_MS + 1, &s));
    assert!(is_expired(JAN_09_NOON + MONTH_MS - 1, &s));
    assert!(is_expired(JAN_09_NOON + MONTH_MS + 1, &s));
}

#[test]
fn tier_boundaries_on_an_eighth() {
    let s = save("a", JAN_08_NOON, false);
    assert!(!is_expired(JAN_08_NOON + WEEK_MS - 1, &s));
    assert!(!is_expired(JAN_08_NOON + WEEK_MS + 1, &s));
    assert!(!is_expired(JAN_08_NOON + MONTH_MS - 1, &s));
    assert!(is_expired(JAN_08_NOON + MONTH_MS + 1, &s));
}

#[test]
fn tier_boundaries_on_a_first() {
    let s = save("a", JAN_01_NOON, false);
    assert!(!is_expired(JAN_01_NOON + WEEK_MS + 1, &s));
    assert!(!is_expired(JAN_01_NOON + MONTH_MS + 1, &s));
    assert!(!is_expired(JAN_01_NOON + YEAR_MS - 1, &s));
}

#[test]
fn exactly_a_month_old_is_kept() {
    let s = save("a", JAN_09_NOON, false);
    assert!(!is_expired(JAN_09_NOON + MONTH_MS, &s));
    assert!(!is_expired(JAN_09_NOON + WEEK_MS, &s));
}

#[test]
fn weekly_tier_scenario_deletes_only_the_ninth() {
    let saves = vec![
        save("29", DEC_29_ELEVEN_PM, false),
        save("1", JAN_01_NOON, false),
        save("8", JAN_08_NOON, false),
        save("9", JAN_09_NOON, false),
        save("15", JAN_15_NOON, false),
        save("22", JAN_22_MIDNIGHT, false),
    ];
    for s in &saves {
        let age = JAN_29_NOON - s.timestamp;
        assert!(age > WEEK_MS && age < MONTH_MS);
    }
    let (kept, removed) = clean_db_saves(JAN_29_NOON, &saves);
    assert_eq!(ids(&kept), vec!["29", "1", "8", "15", "22"]);
    assert_eq!(ids(&removed), vec!["9"]);
}

#[test]
fn manual_snapshot_of_four_hundred_days_is_kept() {
    let s = save("m", JAN_09_NOON, true);
    let now = JAN_09_NOON + 400 * DAY_MS;
    assert!(!is_expired(now, &s));
    let (kept, removed) = clean_db_saves(now, &vec![s]);
    assert_eq!(ids(&kept), vec!["m"]);
    assert!(removed.is_empty());
}

#[test]
fn manual_snapshots_survive_every_tier() {
    let s = save("m", JAN_09_NOON, true);
    assert!(!is_expired(JAN_09_NOON + 10 * DAY_MS, &s));
    assert!(!is_expired(JAN_09_NOON + 100 * DAY_MS, &s));
}

#[test]
fn pruning_twice_keeps_the_same_set() {
    let now = JAN_29_NOON + 20 * DAY_MS;
    let saves = vec![
        save("29", DEC_29_ELEVEN_PM, false),
        save("1", JAN_01_NOON, false),
        save("8", JAN_08_NOON, false),
        save("9", JAN_09_NOON, false),
        save("m", JAN_09_NOON, true),
        save("15", JAN_15_NOON, false),
        save("22", JAN_22_MIDNIGHT, false),
        save("new", now - DAY_MS, false),
    ];
    let (first, removed_first) = clean_db_saves(now, &saves);
    let (second, removed_second) = clean_db_saves(now, &first);
    assert_eq!(ids(&first), ids(&second));
    assert!(removed_second.is_empty());
    assert_eq!(ids(&removed_first), vec!["29", "8", "9", "15"]);
    assert_eq!(ids(&first), vec!["1", "m", "22", "new"]);
}

#[test]
fn empty_list_prunes_to_empty() {
    let (kept, removed) = clean_db_saves(JAN_29_NOON, &Vec::new());
    assert!(kept.is_empty());
    assert!(removed.is_empty());
}

#[test]
fn timestamps_beyond_the_calendar_are_kept() {
    let s = save("far", i64::MIN, false);
    assert!(!is_expired(i64::MIN + 10 * DAY_MS, &s));
}
