//! The decisions of the database setup.
use shopping_list::setup::{
    after_connect, after_create, after_existence_check, after_migrate, after_url, LogLevel,
    SetupAction,
};

fn url() -> String {
    "sqlite://shop.db".to_string()
}

#[test]
fn missing_url_stops_setup() {
    match after_url(None) {
        SetupAction::Abort(m) => assert_eq!(m, "DATABASE_URL must be set"),
        _ => panic!("setup goes on without a URL"),
    }
    assert!(matches!(after_url(Some(url())), SetupAction::CheckExists(u) if u == url()));
}

#[test]
fn existing_database_is_connected_to() {
    let step = after_existence_check(url(), Some(true));
    let line = step.log.unwrap();
    assert_eq!(line.level, LogLevel::Info);
    assert_eq!(line.text, "Database found at sqlite://shop.db");
    assert!(matches!(step.action, SetupAction::Connect(u) if u == url()));
}

#[test]
fn missing_database_is_created_then_connected_to() {
    let step = after_existence_check(url(), Some(false));
    assert!(step.log.is_none());
    assert!(matches!(step.action, SetupAction::Create(u) if u == url()));
    let step = after_create(url(), true);
    assert_eq!(step.log.unwrap().text, "Created database at sqlite://shop.db");
    assert!(matches!(step.action, SetupAction::Connect(u) if u == url()));
}

#[test]
fn failures_before_connecting_stop_setup() {
    let step = after_existence_check(url(), None);
    assert!(matches!(step.action, SetupAction::Abort(m) if m == "Failed to check database existence"));
    let step = after_create(url(), false);
    assert!(matches!(step.action, SetupAction::Abort(m) if m == "Failed to create database"));
    assert!(matches!(after_connect(false), SetupAction::Abort(m) if m == "Failed to connect to the database"));
    assert!(matches!(after_connect(true), SetupAction::Migrate));
}

#[test]
fn failed_migrations_are_only_logged() {
    let step = after_migrate(Some("no such table".to_string()));
    let line = step.log.unwrap();
    assert_eq!(line.level, LogLevel::Error);
    assert_eq!(line.text, "Failed to run database migrations: no such table");
    assert!(matches!(step.action, SetupAction::Done));
    let step = after_migrate(None);
    let line = step.log.unwrap();
    assert_eq!(line.level, LogLevel::Info);
    assert_eq!(line.text, "Database migrations applied successfully");
    assert!(matches!(step.action, SetupAction::Done));
}
