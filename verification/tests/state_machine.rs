use unsynced::UpdateState;

fn s(text: &str) -> String {
    String::from(text)
}

#[test]
fn synced_stays_synced_without_write() {
    let (next, wrote) = UpdateState::Synced.determine_system_state(&s("abc"), &s("abc"));
    assert_eq!(next, UpdateState::Synced);
    assert!(!wrote);
}

#[test]
fn synced_goes_unsynced_with_count_one() {
    let (next, wrote) = UpdateState::Synced.determine_system_state(&s("def"), &s("abc"));
    assert_eq!(next, UpdateState::Unsynced(1, s("def")));
    assert!(wrote);
}

#[test]
fn unsynced_counts_each_new_remote_revision() {
    let prev = UpdateState::Unsynced(3, s("abc"));
    let (next, wrote) = prev.determine_system_state(&s("def"), &s("xyz"));
    assert_eq!(next, UpdateState::Unsynced(4, s("def")));
    assert!(wrote);
}

#[test]
fn unsynced_unchanged_while_remote_stands_still() {
    let prev = UpdateState::Unsynced(2, s("abc"));
    let (next, wrote) = prev.determine_system_state(&s("abc"), &s("xyz"));
    assert_eq!(next, UpdateState::Unsynced(2, s("abc")));
    assert!(!wrote);
}

#[test]
fn catching_up_resets_to_synced() {
    let prev = UpdateState::Unsynced(17, s("abc"));
    let (next, wrote) = prev.determine_system_state(&s("xyz"), &s("xyz"));
    assert_eq!(next, UpdateState::Synced);
    assert!(wrote);
}

#[test]
fn catching_up_discards_any_count() {
    for count in [1, 2, 1000, u32::MAX - 1] {
        let prev = UpdateState::Unsynced(count, s("old"));
        let (next, wrote) = prev.determine_system_state(&s("new"), &s("new"));
        assert_eq!(next, UpdateState::Synced);
        assert!(wrote);
    }
}

#[test]
fn default_record_is_synced() {
    assert_eq!(UpdateState::default(), UpdateState::Synced);
}
