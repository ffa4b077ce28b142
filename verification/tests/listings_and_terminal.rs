use ssh_mcp_client::listing::{local_listing, remote_listing, LocalEntry, RemoteEntry};
use ssh_mcp_client::mcp_params::default_dir_path;
use ssh_mcp_client::pty::{pty_closed_event, pty_output_event, pty_step, PtyAction, PtyEvent, PtyInput};

fn remote(name: &str, is_dir: bool) -> RemoteEntry {
    RemoteEntry { name: name.into(), path: format!("/srv/{name}"), is_dir, size: 1, modified: None }
}

#[test]
fn remote_listing_directories_first_then_name_case_insensitive() {
    let entries = vec![
        remote("zeta.txt", false),
        remote("Beta", true),
        remote("alpha.txt", false),
        remote("alpha", true),
        remote("Gamma.txt", false),
    ];
    let l = remote_listing("/srv".into(), entries);
    let names: Vec<&str> = l.entries.iter().map(|e| e.name.as_str()).collect();
    assert_eq!(names, vec!["alpha", "Beta", "alpha.txt", "Gamma.txt", "zeta.txt"]);
    assert_eq!(l.current, "/srv");
}

#[test]
fn equal_names_keep_input_order() {
    let entries = vec![remote("README", false), remote("readme", false), remote("ReadMe", false)];
    let l = remote_listing("/".into(), entries);
    let names: Vec<&str> = l.entries.iter().map(|e| e.name.as_str()).collect();
    assert_eq!(names, vec!["README", "readme", "ReadMe"]);
}

#[test]
fn prefix_sorts_before_longer_name() {
    let entries = vec![remote("abc", false), remote("ab", false), remote("", false)];
    let l = remote_listing("/".into(), entries);
    let names: Vec<&str> = l.entries.iter().map(|e| e.name.as_str()).collect();
    assert_eq!(names, vec!["", "ab", "abc"]);
}

#[test]
fn unicode_names_lowercased() {
    let entries = vec![remote("Ωmega", false), remote("ωa", false), remote("Émile", false)];
    let l = remote_listing("/".into(), entries);
    let names: Vec<&str> = l.entries.iter().map(|e| e.name.as_str()).collect();
    assert_eq!(names, vec!["Émile", "ωa", "Ωmega"]);
}

#[test]
fn local_listing_sorted_and_parent_kept() {
    let entries = vec![
        LocalEntry { name: "b.txt".into(), path: "/h/b.txt".into(), is_dir: false, size: 3 },
        LocalEntry { name: "Docs".into(), path: "/h/Docs".into(), is_dir: true, size: 0 },
        LocalEntry { name: "A.txt".into(), path: "/h/A.txt".into(), is_dir: false, size: 9 },
    ];
    let l = local_listing(Some("/".into()), entries);
    let names: Vec<&str> = l.entries.iter().map(|e| e.name.as_str()).collect();
    assert_eq!(names, vec!["Docs", "A.txt", "b.txt"]);
    assert_eq!(l.parent.as_deref(), Some("/"));
    assert!(local_listing(None, Vec::new()).entries.is_empty());
}

#[test]
fn default_directory_is_login_directory() {
    assert_eq!(default_dir_path(), ".");
}

#[test]
fn terminal_output_is_base64_event() {
    match pty_step("srv1", PtyEvent::Output(b"hello".to_vec())) {
        PtyAction::Emit { event, payload } => {
            assert_eq!(event, "pty-output:srv1");
            assert_eq!(payload, "aGVsbG8=");
        }
        _ => panic!("output must be emitted"),
    }
    match pty_step("s", PtyEvent::Output(vec![0xff, 0x00, 0xfe, 0x41])) {
        PtyAction::Emit { payload, .. } => assert_eq!(payload, "/wD+QQ=="),
        _ => panic!("output must be emitted"),
    }
    match pty_step("s", PtyEvent::Output(Vec::new())) {
        PtyAction::Emit { payload, .. } => assert_eq!(payload, ""),
        _ => panic!("output must be emitted"),
    }
}

#[test]
fn terminal_input_and_close() {
    assert!(matches!(pty_step("s", PtyEvent::Input(PtyInput::Data(vec![1, 2]))), PtyAction::SendData(d) if d == vec![1, 2]));
    assert!(matches!(
        pty_step("s", PtyEvent::Input(PtyInput::Resize { cols: 80, rows: 24 })),
        PtyAction::WindowChange { cols: 80, rows: 24 }
    ));
    assert!(matches!(pty_step("s", PtyEvent::InputClosed), PtyAction::SendEofAndStop));
    assert!(matches!(pty_step("s", PtyEvent::OutputEnded), PtyAction::Stop));
    assert!(matches!(pty_step("s", PtyEvent::OutputOther), PtyAction::Continue));
    assert_eq!(pty_closed_event("s"), "pty-closed:s");
    assert_eq!(pty_output_event("a b"), "pty-output:a b");
}
