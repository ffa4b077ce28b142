use ssh_mcp_client::profiles::{delete, find, new_profile, set_favorite, set_host_key_fingerprint, upsert, ServerProfile};

fn profile(id: &str, name: &str) -> ServerProfile {
    ServerProfile {
        id: id.to_string(),
        name: name.to_string(),
        host: format!("{name}.example.org"),
        port: 22,
        username: "root".to_string(),
        host_key_fingerprint: None,
        favorite: false,
    }
}

fn ids(list: &[ServerProfile]) -> Vec<String> {
    list.iter().map(|p| p.id.clone()).collect()
}

#[test]
fn upsert_appends_new_id() {
    let mut list = vec![profile("a", "alpha")];
    upsert(&mut list, profile("b", "beta"));
    assert_eq!(ids(&list), vec!["a", "b"]);
}

#[test]
fn upsert_replaces_existing_id_in_place() {
    let mut list = vec![profile("a", "alpha"), profile("b", "beta"), profile("c", "gamma")];
    upsert(&mut list, profile("b", "renamed"));
    assert_eq!(ids(&list), vec!["a", "b", "c"]);
    assert_eq!(list[1].name, "renamed");
    assert_eq!(list.len(), 3);
}

#[test]
fn upsert_replaces_only_first_duplicate() {
    let mut list = vec![profile("a", "one"), profile("a", "two")];
    upsert(&mut list, profile("a", "three"));
    assert_eq!(list[0].name, "three");
    assert_eq!(list[1].name, "two");
}

#[test]
fn find_after_upsert_gives_profile_back() {
    let mut list = vec![profile("a", "alpha"), profile("b", "beta")];
    let mut p = profile("b", "beta2");
    p.port = 2222;
    upsert(&mut list, p);
    let found = find(list, "b").expect("saved profile is found");
    assert_eq!(found.name, "beta2");
    assert_eq!(found.port, 2222);
}

#[test]
fn upsert_twice_same_as_once() {
    let mut once = vec![profile("a", "alpha")];
    upsert(&mut once, profile("b", "beta"));
    let mut twice = vec![profile("a", "alpha")];
    upsert(&mut twice, profile("b", "beta"));
    upsert(&mut twice, profile("b", "beta"));
    assert_eq!(ids(&once), ids(&twice));
}

#[test]
fn find_missing_is_none() {
    let list = vec![profile("a", "alpha")];
    assert!(find(list, "zzz").is_none());
    assert!(find(Vec::new(), "a").is_none());
}

#[test]
fn find_returns_first_of_duplicates() {
    let list = vec![profile("x", "first"), profile("x", "second")];
    assert_eq!(find(list, "x").unwrap().name, "first");
}

#[test]
fn delete_removes_every_match_and_keeps_order() {
    let mut list = vec![
        profile("a", "1"),
        profile("b", "2"),
        profile("a", "3"),
        profile("c", "4"),
        profile("a", "5"),
    ];
    delete(&mut list, "a");
    assert_eq!(ids(&list), vec!["b", "c"]);
    assert!(find(list, "a").is_none());
}

#[test]
fn delete_unknown_id_changes_nothing() {
    let mut list = vec![profile("a", "1"), profile("b", "2")];
    delete(&mut list, "q");
    assert_eq!(ids(&list), vec!["a", "b"]);
}

#[test]
fn delete_keeps_other_lookups() {
    let mut list = vec![profile("a", "1"), profile("b", "2")];
    delete(&mut list, "a");
    assert_eq!(find(list, "b").unwrap().name, "2");
}

#[test]
fn set_favorite_changes_only_flag() {
    let mut list = vec![profile("a", "1"), profile("b", "2")];
    set_favorite(&mut list, "b", true);
    assert!(!list[0].favorite);
    assert!(list[1].favorite);
    assert_eq!(list[1].name, "2");
    set_favorite(&mut list, "b", false);
    assert!(!list[1].favorite);
}

#[test]
fn set_favorite_unknown_id_changes_nothing() {
    let mut list = vec![profile("a", "1")];
    set_favorite(&mut list, "nope", true);
    assert!(!list[0].favorite);
}

#[test]
fn recorded_fingerprint_is_found() {
    let mut list = vec![profile("a", "1"), profile("b", "2")];
    set_host_key_fingerprint(&mut list, "b", "SHA256:abc");
    assert_eq!(list[0].host_key_fingerprint, None);
    let found = find(list, "b").unwrap();
    assert_eq!(found.host_key_fingerprint.as_deref(), Some("SHA256:abc"));
}

#[test]
fn fingerprint_for_unknown_id_changes_nothing() {
    let mut list = vec![profile("a", "1")];
    set_host_key_fingerprint(&mut list, "b", "SHA256:abc");
    assert_eq!(list[0].host_key_fingerprint, None);
    assert_eq!(list.len(), 1);
}

#[test]
fn new_profile_has_fresh_uuid_id() {
    let p = new_profile("web".to_string(), "10.0.0.1".to_string(), 2200, "admin".to_string());
    let q = new_profile("web".to_string(), "10.0.0.1".to_string(), 2200, "admin".to_string());
    assert_eq!(p.id.len(), 36);
    for (i, c) in p.id.chars().enumerate() {
        if i == 8 || i == 13 || i == 18 || i == 23 {
            assert_eq!(c, '-');
        } else {
            assert!(c.is_ascii_hexdigit() && !c.is_ascii_uppercase());
        }
    }
    let chars: Vec<char> = p.id.chars().collect();
    assert_eq!(chars[14], '4');
    assert!(matches!(chars[19], '8' | '9' | 'a' | 'b'));
    assert_ne!(p.id, q.id);
    assert_eq!(p.port, 2200);
    assert!(!p.favorite);
    assert!(p.host_key_fingerprint.is_none());
}
