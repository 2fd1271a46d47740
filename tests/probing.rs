use watchtower::model::{DatabaseRecord, DbStatus};
use watchtower::prober::{
    begin_probe, check_db, connect_failure, probe_collections, probe_databases, probe_failure,
    update_db_datas,
};

fn names(v: &[&str]) -> Vec<String> {
    v.iter().map(|s| s.to_string()).collect()
}

fn record() -> DatabaseRecord {
    DatabaseRecord {
        id: "65a0".to_string(),
        name: "shop".to_string(),
        custom_name: "Shop".to_string(),
        connection_string: "mongodb://10.255.255.1:27017".to_string(),
        authentication_database: String::new(),
        status: DbStatus::Connected,
        collections: names(&["orders", "users"]),
        message: String::new(),
        last_save: Some(5),
    }
}

#[test]
fn check_db_finds_the_database() {
    let r = check_db(&names(&["admin", "shop", "local"]), &"shop".to_string());
    assert!(r.success);
    assert_eq!(r.message, "");
}

#[test]
fn check_db_reports_a_missing_database() {
    let r = check_db(&names(&["admin", "local"]), &"shop".to_string());
    assert!(!r.success);
    assert_eq!(r.message, "Database not found: shop");
}

#[test]
fn check_db_on_an_empty_server() {
    let r = check_db(&Vec::new(), &"shop".to_string());
    assert!(!r.success);
}

#[test]
fn connect_failure_explains_the_reason() {
    let p = connect_failure(&"invalid scheme".to_string());
    assert!(!p.reachable);
    assert!(p.collections.is_empty());
    assert_eq!(p.error, "Failed to parse connection string: invalid scheme");
}

#[test]
fn probe_databases_goes_on_only_when_present() {
    assert!(probe_databases(&names(&["shop"]), &"shop".to_string()).is_ok());
    let p = probe_databases(&names(&["other"]), &"shop".to_string()).unwrap_err();
    assert!(!p.reachable);
    assert_eq!(p.error, "Database not found: shop");
}

#[test]
fn probe_collections_reports_success() {
    let p = probe_collections(&names(&["a", "b"]));
    assert!(p.reachable);
    assert_eq!(p.collections, names(&["a", "b"]));
    assert_eq!(p.error, "");
}

#[test]
fn begin_probe_marks_connecting() {
    let mut rec = record();
    begin_probe(&mut rec);
    assert_eq!(rec.status, DbStatus::Connecting);
    assert_eq!(rec.collections, names(&["orders", "users"]));
}

#[test]
fn unreachable_host_disconnects_and_clears_collections() {
    let mut rec = record();
    begin_probe(&mut rec);
    let p = probe_failure(&"Server selection timeout: No available servers".to_string());
    assert!(!p.reachable);
    let res = update_db_datas(&mut rec, &p);
    assert!(!res.success);
    assert_eq!(rec.status, DbStatus::Disconnected);
    assert!(!rec.message.is_empty());
    assert_eq!(rec.message, "Server selection timeout: No available servers");
    assert!(rec.collections.is_empty());
    assert_eq!(rec.last_save, Some(5));
    assert_eq!(rec.name, "shop");
}

#[test]
fn successful_probe_connects_and_stores_collections() {
    let mut rec = record();
    rec.status = DbStatus::Disconnected;
    rec.message = "old".to_string();
    rec.collections = Vec::new();
    let res = update_db_datas(&mut rec, &probe_collections(&names(&["carts"])));
    assert!(res.success);
    assert_eq!(res.message, "");
    assert_eq!(rec.status, DbStatus::Connected);
    assert_eq!(rec.collections, names(&["carts"]));
    assert_eq!(rec.message, "");
}

#[test]
fn status_names_round_trip() {
    for s in [DbStatus::Connecting, DbStatus::Connected, DbStatus::Disconnected] {
        assert_eq!(DbStatus::parse(&s.as_text()), Some(s));
    }
    assert_eq!(DbStatus::Connected.as_text(), "connected");
    assert_eq!(DbStatus::parse(&"Connected".to_string()), None);
    assert_eq!(DbStatus::parse(&String::new()), None);
}
