use koditool::api::{get_status, health_check, play_random_show, PlayRequest};
use koditool::catalog::ShowMappings;
use koditool::mode::{ModeError, TVModeStatus};
use koditool::routing::{all_routes, Endpoint, Method};

fn catalog() -> ShowMappings {
    let mut c = ShowMappings::new();
    c.insert("alice".to_string(), vec!["Friends".to_string()]);
    c.insert("bob".to_string(), vec!["Seinfeld".to_string(), "Frasier".to_string()]);
    c.insert("carol".to_string(), vec![]);
    c
}

fn same(a: &TVModeStatus, b: &TVModeStatus) -> bool {
    a.active() == b.active() && a.user() == b.user() && a.sleep_timer() == b.sleep_timer()
}

#[test]
fn starts_disabled() {
    let mode = TVModeStatus::new();
    assert!(!mode.active());
    assert!(mode.user().is_none());
    assert!(mode.sleep_timer().is_none());
}

#[test]
fn enable_sets_user_and_clears_timer() {
    let c = catalog();
    let mut mode = TVModeStatus::new();
    mode.enable(&c, &"bob".to_string()).unwrap();
    mode.set_sleep_timer(4, 1000).unwrap();
    let snap = mode.enable(&c, &"alice".to_string()).unwrap();
    assert!(snap.active());
    assert_eq!(snap.user().unwrap(), "alice");
    assert_eq!(snap.sleep_timer(), None);
    assert!(same(&snap, &mode));
}

#[test]
fn disable_is_idempotent() {
    let c = catalog();
    let mut mode = TVModeStatus::new();
    mode.enable(&c, &"alice".to_string()).unwrap();
    mode.set_sleep_timer(1, 50).unwrap();
    let first = mode.disable();
    let second = mode.disable();
    assert!(same(&first, &second));
    assert!(same(&second, &mode));
    assert!(!mode.active() && mode.user().is_none() && mode.sleep_timer().is_none());
}

#[test]
fn enable_unknown_user_changes_nothing() {
    let c = catalog();
    let mut mode = TVModeStatus::new();
    mode.enable(&c, &"bob".to_string()).unwrap();
    let before = mode.snapshot();
    assert!(matches!(mode.enable(&c, &"mallory".to_string()), Err(ModeError::UnknownUser)));
    assert!(same(&before, &mode));
    assert!(matches!(mode.enable(&c, &"carol".to_string()), Err(ModeError::NoShowsForUser)));
    assert!(same(&before, &mode));
}

#[test]
fn invalid_sleep_duration_whatever_the_mode() {
    let c = catalog();
    let mut off = TVModeStatus::new();
    for h in [0u32, 3, 5, 6, 7, 9, 10, 11, 13, 24, u32::MAX] {
        assert!(matches!(off.set_sleep_timer(h, 0), Err(ModeError::InvalidSleepDuration)));
    }
    let mut on = TVModeStatus::new();
    on.enable(&c, &"alice".to_string()).unwrap();
    assert!(matches!(on.set_sleep_timer(3, 0), Err(ModeError::InvalidSleepDuration)));
    assert_eq!(on.sleep_timer(), None);
    assert!(matches!(off.set_sleep_timer(2, 0), Err(ModeError::ModeNotActive)));
}

#[test]
fn sleep_timer_deadline_and_clear() {
    let c = catalog();
    let mut mode = TVModeStatus::new();
    assert!(matches!(mode.clear_sleep_timer(), Err(ModeError::ModeNotActive)));
    mode.enable(&c, &"bob".to_string()).unwrap();
    let snap = mode.set_sleep_timer(12, 1_000).unwrap();
    assert_eq!(snap.sleep_timer(), Some(1_000 + 12 * 3600));
    assert!(!mode.sleep_timer_expired(1_000 + 12 * 3600 - 1));
    assert!(mode.sleep_timer_expired(1_000 + 12 * 3600));
    mode.set_sleep_timer(8, u64::MAX - 5).unwrap();
    assert_eq!(mode.sleep_timer(), Some(u64::MAX));
    let cleared = mode.clear_sleep_timer().unwrap();
    assert_eq!(cleared.sleep_timer(), None);
    assert!(cleared.active());
    let before = mode.snapshot();
    assert!(matches!(mode.clear_sleep_timer(), Err(ModeError::NoSleepTimer)));
    assert!(same(&before, &mode));
}

#[test]
fn play_enables_without_sleep_timer() {
    let c = catalog();
    let mut mode = TVModeStatus::new();
    let snap = play_random_show(&mut mode, &c, &"alice".to_string(), None).unwrap();
    assert_eq!(snap.sleep_timer(), None);
    mode.set_sleep_timer(4, 100).unwrap();
    let req = PlayRequest { sleep_timer_hours: Some(8) };
    play_random_show(&mut mode, &c, &"bob".to_string(), Some(req)).unwrap();
    assert_eq!(mode.user().unwrap(), "bob");
    assert_eq!(mode.sleep_timer(), None);
    let no_hours = PlayRequest { sleep_timer_hours: None };
    assert!(play_random_show(&mut mode, &c, &"alice".to_string(), Some(no_hours)).is_ok());
    let bad = PlayRequest { sleep_timer_hours: Some(5) };
    assert!(matches!(
        play_random_show(&mut mode, &c, &"bob".to_string(), Some(bad)),
        Err(ModeError::InvalidSleepDuration)
    ));
    assert_eq!(mode.user().unwrap(), "alice");
    assert!(matches!(
        play_random_show(&mut mode, &c, &"nobody".to_string(), None),
        Err(ModeError::UnknownUser)
    ));
    assert!(matches!(
        play_random_show(&mut mode, &c, &"carol".to_string(), None),
        Err(ModeError::NoShowsForUser)
    ));
}

#[test]
fn catalog_lookup_and_sorting() {
    let mut c = ShowMappings::new();
    c.insert("zed".to_string(), vec!["b".to_string(), "a".to_string()]);
    c.insert("amy".to_string(), vec!["Zulu".to_string(), "alpha".to_string(), "Bravo".to_string()]);
    c.insert("zed".to_string(), vec!["Yes".to_string(), "No".to_string()]);
    assert_eq!(c.get(&"zed".to_string()).unwrap(), &vec!["Yes".to_string(), "No".to_string()]);
    assert!(c.get(&"bob".to_string()).is_none());
    let sorted = c.sorted_shows();
    assert_eq!(
        sorted,
        vec![
            ("amy".to_string(), vec!["Bravo".to_string(), "Zulu".to_string(), "alpha".to_string()]),
            ("zed".to_string(), vec!["No".to_string(), "Yes".to_string()]),
        ]
    );
}

#[test]
fn status_reports() {
    let mode = TVModeStatus::new();
    let r = get_status(mode.snapshot(), Ok(true));
    assert_eq!(r.status, "active");
    assert_eq!(r.message, "Media is currently playing");
    let r = get_status(mode.snapshot(), Ok(false));
    assert_eq!(r.status, "inactive");
    let r = get_status(mode.snapshot(), Err("RPC call timed out after 5 seconds".to_string()));
    assert_eq!(r.status, "error");
    assert_eq!(r.message, "Unable to connect to media server");
    assert_eq!(r.error_details.as_deref(), Some("RPC call timed out after 5 seconds"));
    assert!(r.tv_mode.is_some());
    let h = health_check();
    assert_eq!(h.status, "success");
    assert_eq!(h.message, "API is healthy");
    assert!(h.tv_mode.is_none());
}

#[test]
fn route_table() {
    let routes = all_routes();
    assert_eq!(routes.len(), 14);
    assert!(!routes.iter().any(|r| r.path == "/jukectl/proxy/queue"));
    assert_eq!(routes[0].path, "/");
    assert_eq!(routes[0].endpoint, Endpoint::Index);
    assert!(routes.iter().any(|r| r.method == Method::Delete && r.path == "/api/sleep-timer"
        && r.endpoint == Endpoint::ClearSleepTimer));
    assert_eq!(routes[13].path, "/jukectl/proxy/tags");
    assert_eq!(routes[13].method, Method::Post);
}

#[test]
fn users_listing_is_sorted() {
    let mut c = ShowMappings::new();
    c.insert("bob".to_string(), vec!["Seinfeld".to_string(), "Frasier".to_string()]);
    c.insert("alice".to_string(), vec!["Friends".to_string()]);
    let users = koditool::api::get_users(&c);
    assert_eq!(
        users.show_mappings,
        vec![
            ("alice".to_string(), vec!["Friends".to_string()]),
            ("bob".to_string(), vec!["Frasier".to_string(), "Seinfeld".to_string()]),
        ]
    );
}
