use nanod::profile::manager::{ManagerError, ProfileManager};
use nanod::protocol::command::ProfilePayload;

fn make_profile(name: &str) -> ProfilePayload {
    ProfilePayload { name: name.into(), haptic: None, led: None }
}

#[test]
fn test_add_and_get() {
    let mut mgr = ProfileManager::new();
    mgr.set_profile(make_profile("a")).unwrap();
    assert!(mgr.get_profile("a").is_some());
    assert!(mgr.get_profile("b").is_none());
}

#[test]
fn test_update_existing() {
    let mut mgr = ProfileManager::new();
    assert!(mgr.set_profile(make_profile("a")).unwrap());
    assert!(!mgr.set_profile(make_profile("a")).unwrap());
    assert_eq!(mgr.count(), 1);
}

#[test]
fn test_max_profiles() {
    let mut mgr = ProfileManager::new();
    for i in 0..10 {
        mgr.set_profile(make_profile(&format!("p{i}"))).unwrap();
    }
    assert_eq!(mgr.set_profile(make_profile("overflow")), Err(ManagerError::Full));
}

#[test]
fn test_list_names() {
    let mut mgr = ProfileManager::new();
    mgr.set_profile(make_profile("alpha")).unwrap();
    mgr.set_profile(make_profile("beta")).unwrap();
    mgr.set_profile(make_profile("gamma")).unwrap();
    let names = mgr.list_names();
    assert_eq!(names, vec!["alpha", "beta", "gamma"]);
}

#[test]
fn test_active_profile() {
    let mut mgr = ProfileManager::new();
    mgr.set_profile(make_profile("a")).unwrap();
    mgr.set_profile(make_profile("b")).unwrap();
    assert!(mgr.active_profile().is_none());
    mgr.set_active("b").unwrap();
    assert_eq!(mgr.active_name(), Some("b"));
}

#[test]
fn test_set_active_not_found() {
    let mut mgr = ProfileManager::new();
    assert_eq!(mgr.set_active("nope"), Err(ManagerError::NotFound));
}

#[test]
fn test_remove() {
    let mut mgr = ProfileManager::new();
    mgr.set_profile(make_profile("a")).unwrap();
    mgr.set_profile(make_profile("b")).unwrap();
    mgr.set_active("b").unwrap();
    mgr.remove("a").unwrap();
    assert_eq!(mgr.count(), 1);
    assert_eq!(mgr.active_name(), Some("b"));
}

#[test]
fn test_remove_active_clears() {
    let mut mgr = ProfileManager::new();
    mgr.set_profile(make_profile("a")).unwrap();
    mgr.set_active("a").unwrap();
    mgr.remove("a").unwrap();
    assert!(mgr.active_profile().is_none());
}

#[test]
fn test_dirty_tracking() {
    let mut mgr = ProfileManager::new();
    mgr.set_profile(make_profile("a")).unwrap();
    mgr.set_profile(make_profile("b")).unwrap();
    assert_eq!(mgr.dirty_profiles().len(), 2);
    mgr.mark_clean("a");
    assert_eq!(mgr.dirty_profiles().len(), 1);
    assert_eq!(mgr.dirty_profiles()[0].name, "b");
    mgr.mark_all_clean();
    assert_eq!(mgr.dirty_profiles().len(), 0);
}

#[test]
fn test_load_from_storage_is_clean() {
    let mut mgr = ProfileManager::new();
    mgr.load_from_storage(make_profile("disk")).unwrap();
    assert_eq!(mgr.dirty_profiles().len(), 0);
    assert_eq!(mgr.count(), 1);
}

#[test]
fn test_remove_not_found() {
    let mut mgr = ProfileManager::new();
    assert_eq!(mgr.remove("nope"), Err(ManagerError::NotFound));
}

#[test]
fn put_then_get_returns_what_was_put() {
    let mut mgr = ProfileManager::new();
    let mut p = make_profile("x");
    p.led = Some(nanod::led::types::LedConfig::default());
    mgr.set_profile(p.clone()).unwrap();
    assert_eq!(mgr.get_profile("x"), Some(&p));
}

#[test]
fn full_store_still_updates_existing() {
    let mut mgr = ProfileManager::new();
    for i in 0..10 {
        mgr.set_profile(make_profile(&format!("p{i}"))).unwrap();
    }
    assert_eq!(mgr.set_profile(make_profile("p3")), Ok(false));
    assert_eq!(mgr.count(), 10);
}

#[test]
fn manager_error_messages() {
    assert_eq!(ManagerError::Full.message(), "profile storage full (max 10)");
    assert_eq!(ManagerError::NotFound.message(), "profile not found");
}

#[test]
fn removing_keeps_other_names_in_order() {
    let mut mgr = ProfileManager::new();
    for n in ["a", "b", "c", "d"] {
        mgr.set_profile(make_profile(n)).unwrap();
    }
    mgr.remove("b").unwrap();
    assert_eq!(mgr.list_names(), vec!["a", "c", "d"]);
}
