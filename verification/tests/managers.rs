use icie_judge::error::Error;
use icie_judge::manager::{connect, Action, Event, Manager, Stage};

type Snapshot = u32;

fn credentials() -> Event<Snapshot> {
    Event::Credentials { username: "alice".to_string(), password: "secret".to_string() }
}

fn login() -> Action<Snapshot> {
    Action::Login { username: "alice".to_string(), password: "secret".to_string() }
}

/// What the auth cache holds after the caller did as it was told.
fn apply(cache: Option<Snapshot>, action: &Action<Snapshot>) -> Option<Snapshot> {
    match action {
        Action::Store(snapshot) => Some(*snapshot),
        Action::StoreNone | Action::DiscardAndAskCredentials => None,
        _ => cache,
    }
}

#[test]
fn a_new_manager_is_idle() {
    let manager = Manager::new();
    assert_eq!(manager.stage, Stage::Idle);
    assert!(!manager.relogged);
    assert!(!manager.is_finished());
}

#[test]
fn a_cached_snapshot_is_restored() {
    let mut manager = Manager::new();
    assert_eq!(manager.step::<Snapshot>(Event::Begin), Action::ReadCache);
    assert_eq!(manager.step(Event::CacheRead(Some(7))), Action::Restore(7));
    assert_eq!(manager.stage, Stage::Calling);
    assert_eq!(manager.step::<Snapshot>(Event::CallSucceeded), Action::Succeed);
    assert!(manager.is_finished());
}

#[test]
fn connect_begins_with_the_cache() {
    let (manager, action) = connect(Some(7u32));
    assert_eq!(action, Action::Restore(7));
    assert_eq!(manager.stage, Stage::Calling);
    let (manager, action) = connect::<Snapshot>(None);
    assert_eq!(action, Action::AskCredentials);
    assert_eq!(manager.stage, Stage::FetchingCredentials);
}

#[test]
fn without_a_snapshot_the_user_logs_in() {
    let (mut manager, _) = connect::<Snapshot>(None);
    assert_eq!(manager.step(credentials()), login());
    assert_eq!(manager.step::<Snapshot>(Event::LoggedIn), Action::Capture);
    assert_eq!(manager.step(Event::Captured(Some(9))), Action::Store(9));
    assert_eq!(manager.step::<Snapshot>(Event::CallSucceeded), Action::Succeed);
    assert!(manager.is_finished());
}

#[test]
fn nothing_to_keep_is_recorded() {
    let (mut manager, _) = connect::<Snapshot>(None);
    manager.step(credentials());
    manager.step::<Snapshot>(Event::LoggedIn);
    assert_eq!(manager.step::<Snapshot>(Event::Captured(None)), Action::StoreNone);
    assert_eq!(manager.stage, Stage::Calling);
}

#[test]
fn a_denied_call_is_worth_one_login() {
    let (mut manager, _) = connect(Some(7u32));
    assert_eq!(
        manager.step::<Snapshot>(Event::CallFailed(Error::AccessDenied)),
        Action::DiscardAndAskCredentials
    );
    assert!(manager.relogged);
    assert_eq!(manager.step(credentials()), login());
    assert_eq!(manager.step::<Snapshot>(Event::LoggedIn), Action::Capture);
    assert_eq!(manager.step(Event::Captured(Some(8))), Action::Store(8));
    assert_eq!(
        manager.step::<Snapshot>(Event::CallFailed(Error::AccessDenied)),
        Action::Fail(Error::AccessDenied)
    );
    assert!(manager.is_finished());
}

#[test]
fn a_denied_call_after_a_fresh_login_is_retried_once() {
    let (mut manager, _) = connect::<Snapshot>(None);
    manager.step(credentials());
    manager.step::<Snapshot>(Event::LoggedIn);
    manager.step(Event::Captured(Some(1)));
    assert_eq!(
        manager.step::<Snapshot>(Event::CallFailed(Error::AccessDenied)),
        Action::DiscardAndAskCredentials
    );
    manager.step(credentials());
    manager.step::<Snapshot>(Event::LoggedIn);
    manager.step(Event::Captured(Some(2)));
    assert_eq!(
        manager.step::<Snapshot>(Event::CallFailed(Error::AccessDenied)),
        Action::Fail(Error::AccessDenied)
    );
}

#[test]
fn wrong_credentials_end_the_protocol_and_keep_the_cache() {
    let mut cache: Option<Snapshot> = Some(7);
    let (mut manager, action) = connect(cache);
    cache = apply(cache, &action);
    assert_eq!(cache, Some(7));

    let action = manager.step::<Snapshot>(Event::CallFailed(Error::AccessDenied));
    cache = apply(cache, &action);
    assert_eq!(cache, None);

    let action = manager.step(credentials());
    cache = apply(cache, &action);
    let before = cache;
    let action = manager.step::<Snapshot>(Event::LoginFailed(Error::WrongCredentials));
    assert_eq!(action, Action::Fail(Error::WrongCredentials));
    assert_eq!(apply(cache, &action), before);
    assert!(manager.is_finished());
    assert_eq!(manager.step(credentials()), Action::Ignore);
}

#[test]
fn a_first_failed_login_leaves_the_cache_alone() {
    let cache: Option<Snapshot> = None;
    let (mut manager, _) = connect::<Snapshot>(cache);
    manager.step(credentials());
    let action = manager.step::<Snapshot>(Event::LoginFailed(Error::WrongCredentials));
    assert_eq!(action, Action::Fail(Error::WrongCredentials));
    assert_eq!(apply(Some(3), &action), Some(3));
    assert_eq!(apply(None, &action), None);
}

#[test]
fn a_network_failure_passes_through() {
    let failure = Error::NetworkFailure("connection reset".to_string());
    let (mut manager, _) = connect(Some(7u32));
    assert_eq!(
        manager.step::<Snapshot>(Event::CallFailed(failure.clone())),
        Action::Fail(failure.clone())
    );
    assert!(manager.is_finished());
    assert!(!manager.relogged);

    let (mut manager, _) = connect::<Snapshot>(None);
    manager.step(credentials());
    assert_eq!(
        manager.step::<Snapshot>(Event::LoginFailed(failure.clone())),
        Action::Fail(failure)
    );
}

#[test]
fn an_event_out_of_turn_is_ignored() {
    let mut manager = Manager::new();
    assert_eq!(manager.step::<Snapshot>(Event::CallSucceeded), Action::Ignore);
    assert_eq!(manager.step(credentials()), Action::Ignore);
    assert_eq!(manager.step::<Snapshot>(Event::LoggedIn), Action::Ignore);
    assert_eq!(manager, Manager::new());
}

#[test]
fn any_run_relogs_once_at_most() {
    let events: Vec<Event<Snapshot>> = vec![
        Event::Begin,
        Event::CacheRead(Some(1)),
        Event::CallFailed(Error::AccessDenied),
        Event::CallFailed(Error::AccessDenied),
        credentials(),
        Event::LoggedIn,
        Event::Captured(None),
        Event::CallFailed(Error::AccessDenied),
        Event::Begin,
        Event::CallFailed(Error::AccessDenied),
    ];
    let mut manager = Manager::new();
    let mut relogins = 0;
    for event in events {
        if manager.step(event) == Action::DiscardAndAskCredentials {
            relogins += 1;
        }
    }
    assert_eq!(relogins, 1);
    assert!(manager.is_finished());
}

#[test]
fn access_denied_is_told_apart() {
    assert!(Error::AccessDenied.is_access_denied());
    assert!(!Error::WrongCredentials.is_access_denied());
    assert!(!Error::NetworkFailure(String::new()).is_access_denied());
}

#[test]
fn a_duplicate_error_is_equal() {
    let errors = vec![
        Error::WrongTaskUrl,
        Error::UnrecognizedSite,
        Error::WrongCredentials,
        Error::AccessDenied,
        Error::UnexpectedVerdict("x".to_string()),
        Error::NetworkFailure("y".to_string()),
    ];
    for error in errors {
        assert_eq!(error.duplicate(), error);
    }
}

#[test]
fn any_run_logs_in_twice_at_most() {
    let mut events: Vec<Event<Snapshot>> = vec![Event::Begin, Event::CacheRead(None)];
    for _ in 0..4 {
        events.push(credentials());
        events.push(Event::LoggedIn);
        events.push(Event::Captured(None));
        events.push(Event::CallFailed(Error::AccessDenied));
    }
    let mut manager = Manager::new();
    let mut logins = 0;
    for event in events {
        if let Action::Login { .. } = manager.step(event) {
            logins += 1;
        }
    }
    assert_eq!(logins, 2);
}
