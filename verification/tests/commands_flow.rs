use ssh_mcp_client::audit::{audit_record, blocked_command_record, excerpt, executed_command_record, failed_command_record, AUDIT_EXCERPT_CHARS};
use ssh_mcp_client::dangerous::{is_dangerous, DANGER_REASON};
use ssh_mcp_client::error::AppError;
use ssh_mcp_client::operations::{
    blocked_outcome, check_host_key, executed_outcome, fingerprint_to_record, list_servers,
    mcp_port_from_setting, plan_command, require_profile, CommandPlan, ExecOutput, DEFAULT_MCP_PORT,
};
use ssh_mcp_client::pending::{take_confirmed, PendingCommand, PendingStore, EXPIRED_MESSAGE, PENDING_TTL_NANOS};
use ssh_mcp_client::profiles::ServerProfile;

const SECOND: u64 = 1_000_000_000;

#[test]
fn destructive_commands_are_dangerous() {
    let cases = [
        "rm -rf /",
        "sudo rm -fr /var/www",
        "dd if=/dev/zero of=/dev/sda",
        "mkfs.ext4 /dev/sdb1",
        ":(){ :|:& };:",
        "shutdown -h now",
        "reboot",
        "halt",
        "systemctl stop nginx",
        "service nginx stop",
        "echo x > /dev/sda",
        "cat img > /dev/nvme0n1",
        "chmod -R 000 /etc",
        "chmod -R 777 /",
        "userdel bob",
        "deluser bob",
        "psql -c 'drop database app'",
        "mysql -e 'truncate table users'",
        "ufw disable",
        "iptables -F",
        "kill -9 1",
        "apt-get remove -y nginx",
        "echo root > /etc/passwd",
    ];
    for c in cases {
        assert_eq!(is_dangerous(c), Some(DANGER_REASON), "{c}");
    }
}

#[test]
fn ordinary_commands_are_not_dangerous() {
    for c in ["ls -la", "uptime", "df -h", "cat /etc/hostname", "rm file.txt", "systemctl status nginx", "echo hello"] {
        assert_eq!(is_dangerous(c), None, "{c}");
    }
}

#[test]
fn safe_command_is_planned_for_execution() {
    let mut store = PendingStore::new();
    let plan = plan_command(&mut store, "srv", "uptime", 5);
    assert!(matches!(plan, CommandPlan::Execute));
    assert_eq!(store.len(), 0);
}

#[test]
fn dangerous_command_held_and_confirmable_once() {
    let mut store = PendingStore::new();
    let plan = plan_command(&mut store, "srv", "rm -rf /tmp/x", 10 * SECOND);
    let (token, outcome) = match plan {
        CommandPlan::Blocked { token, outcome } => (token, outcome),
        CommandPlan::Execute => panic!("dangerous command must be held back"),
    };
    assert!(!outcome.executed);
    assert!(outcome.requires_confirmation);
    assert_eq!(outcome.confirmation_token.as_deref(), Some(token.as_str()));
    assert_eq!(
        outcome.reason.as_deref(),
        Some(format!("Blocked: {DANGER_REASON}. Show this to the user in chat; if they agree, call confirm_dangerous_command with this token.").as_str())
    );
    assert!(store.contains(&token));
    let held = take_confirmed(&mut store, &token, 10 * SECOND + 299 * SECOND).expect("confirmed in time");
    assert_eq!(held.server_id, "srv");
    assert_eq!(held.command, "rm -rf /tmp/x");
    assert!(matches!(take_confirmed(&mut store, &token, 11 * SECOND), Err(AppError::UnknownToken)));
}

#[test]
fn confirmation_at_exact_ttl_is_accepted() {
    let mut store = PendingStore::new();
    store.insert("t".to_string(), PendingCommand { server_id: "s".into(), command: "reboot".into(), created_at: 100 });
    assert!(take_confirmed(&mut store, "t", 100 + PENDING_TTL_NANOS).is_ok());
}

#[test]
fn expired_token_refused_and_used_up() {
    let mut store = PendingStore::new();
    store.insert("t".to_string(), PendingCommand { server_id: "s".into(), command: "reboot".into(), created_at: 100 });
    match take_confirmed(&mut store, "t", 101 + PENDING_TTL_NANOS) {
        Err(AppError::Other(m)) => assert_eq!(m, EXPIRED_MESSAGE),
        _ => panic!("expired token must be refused"),
    }
    assert!(!store.contains("t"));
    assert!(matches!(take_confirmed(&mut store, "t", 200), Err(AppError::UnknownToken)));
}

#[test]
fn unknown_token_refused() {
    let mut store = PendingStore::new();
    assert!(matches!(take_confirmed(&mut store, "nope", 0), Err(AppError::UnknownToken)));
    assert_eq!(AppError::UnknownToken.message(), "unknown or expired confirmation token");
}

#[test]
fn confirming_one_token_keeps_others() {
    let mut store = PendingStore::new();
    store.insert("a".to_string(), PendingCommand { server_id: "s".into(), command: "halt".into(), created_at: 0 });
    store.insert("b".to_string(), PendingCommand { server_id: "s".into(), command: "reboot".into(), created_at: 0 });
    take_confirmed(&mut store, "a", 1).unwrap();
    assert!(store.contains("b"));
    assert_eq!(take_confirmed(&mut store, "b", 1).unwrap().command, "reboot");
}

#[test]
fn clock_before_creation_counts_as_no_time() {
    let mut store = PendingStore::new();
    store.insert("a".to_string(), PendingCommand { server_id: "s".into(), command: "halt".into(), created_at: 500 });
    assert!(take_confirmed(&mut store, "a", 10).is_ok());
}

#[test]
fn executed_outcome_reports_output() {
    let o = executed_outcome(ExecOutput { stdout: "up 3 days".into(), stderr: String::new(), exit_code: Some(0) });
    assert!(o.executed);
    assert_eq!(o.stdout.as_deref(), Some("up 3 days"));
    assert_eq!(o.stderr.as_deref(), Some(""));
    assert_eq!(o.exit_code, Some(0));
    assert!(!o.requires_confirmation);
    assert!(o.confirmation_token.is_none() && o.reason.is_none());
}

#[test]
fn blocked_outcome_text() {
    let o = blocked_outcome("tok".into(), "why");
    assert_eq!(o.reason.as_deref(), Some("Blocked: why. Show this to the user in chat; if they agree, call confirm_dangerous_command with this token."));
    assert!(o.stdout.is_none() && o.exit_code.is_none());
}

fn profile(id: &str, favorite: bool) -> ServerProfile {
    ServerProfile {
        id: id.into(),
        name: format!("n-{id}"),
        host: "h".into(),
        port: 22,
        username: "u".into(),
        host_key_fingerprint: Some("fp".into()),
        favorite,
    }
}

#[test]
fn servers_listed_favorites_first_in_saved_order() {
    let profiles = vec![profile("a", false), profile("b", true), profile("c", false), profile("d", true)];
    let connected = vec!["c".to_string(), "zzz".to_string()];
    let list = list_servers(&profiles, &connected);
    let order: Vec<&str> = list.iter().map(|s| s.id.as_str()).collect();
    assert_eq!(order, vec!["b", "d", "a", "c"]);
    assert!(list[3].connected);
    assert!(!list[0].connected && !list[1].connected && !list[2].connected);
    assert!(list[0].favorite && list[1].favorite);
    assert_eq!(list[0].name, "n-b");
    assert_eq!(list.len(), profiles.len());
}

#[test]
fn empty_server_list() {
    assert!(list_servers(&Vec::new(), &Vec::new()).is_empty());
}

#[test]
fn profile_lookup_errors() {
    match require_profile(None, "srv9") {
        Err(e @ AppError::ServerNotFound(_)) => assert_eq!(e.message(), "server not found: srv9"),
        _ => panic!("missing profile must be an error"),
    }
    assert_eq!(require_profile(Some(profile("a", false)), "a").unwrap().id, "a");
}

#[test]
fn host_key_trust_on_first_use() {
    assert_eq!(check_host_key(&None, Some("SHA256:x".into())).unwrap(), "SHA256:x");
    assert_eq!(check_host_key(&Some("SHA256:x".into()), Some("SHA256:x".into())).unwrap(), "SHA256:x");
    match check_host_key(&Some("SHA256:x".into()), Some("SHA256:y".into())) {
        Err(e @ AppError::HostKeyMismatch { .. }) => assert_eq!(
            e.message(),
            "host key changed for this server: expected SHA256:x, got SHA256:y (possible MITM or reinstalled server — delete and re-add the profile if this is expected)"
        ),
        _ => panic!("changed host key must be refused"),
    }
    match check_host_key(&None, None) {
        Err(e @ AppError::Other(_)) => assert_eq!(e.message(), "server did not present a host key"),
        _ => panic!("missing host key must be refused"),
    }
}

#[test]
fn fingerprint_recorded_only_when_missing() {
    let mut p = profile("a", false);
    assert_eq!(fingerprint_to_record(&p, "new"), None);
    p.host_key_fingerprint = None;
    assert_eq!(fingerprint_to_record(&p, "new").as_deref(), Some("new"));
}

#[test]
fn mcp_port_setting() {
    assert_eq!(mcp_port_from_setting(None), DEFAULT_MCP_PORT);
    assert_eq!(DEFAULT_MCP_PORT, 47821);
    assert_eq!(mcp_port_from_setting(Some(8080)), 8080);
    assert_eq!(mcp_port_from_setting(Some(65536 + 22)), 22);
}

#[test]
fn error_messages() {
    assert_eq!(AppError::Ssh("x".into()).message(), "ssh error: x");
    assert_eq!(AppError::Sftp("x".into()).message(), "sftp error: x");
    assert_eq!(AppError::AuthFailed.message(), "authentication failed");
    assert_eq!(AppError::Keychain("x".into()).message(), "keychain error: x");
    assert_eq!(AppError::Io("x".into()).message(), "io error: x");
    assert_eq!(AppError::Json("x".into()).message(), "json error: x");
    assert_eq!(AppError::Db("x".into()).message(), "database error: x");
    assert_eq!(AppError::Other("plain".into()).message(), "plain");
}

#[test]
fn audit_rows() {
    let long: String = "é".repeat(AUDIT_EXCERPT_CHARS + 5);
    let r = executed_command_record("s", "ls", false, Some(0), &long);
    assert_eq!(r.stdout_excerpt.chars().count(), AUDIT_EXCERPT_CHARS);
    assert!(!r.dangerous && !r.confirmed);
    assert_eq!(r.source, "mcp");
    let r = executed_command_record("s", "reboot", true, None, "ok");
    assert!(r.dangerous && r.confirmed);
    assert_eq!(r.stdout_excerpt, "ok");
    let b = blocked_command_record("s", "reboot");
    assert!(b.dangerous && !b.confirmed && b.exit_code.is_none());
    assert_eq!(b.stdout_excerpt, "");
    let a = audit_record("s", "c", "gui", false, false, Some(3), "out");
    assert_eq!(a.source, "gui");
    assert_eq!(a.exit_code, Some(3));
    assert_eq!(excerpt("abcdef", 3), "abc");
    assert_eq!(excerpt("ab", 3), "ab");
}

#[test]
fn failed_run_rows() {
    let r = failed_command_record("s", "uptime", false);
    assert!(!r.dangerous && !r.confirmed);
    assert_eq!(r.exit_code, None);
    assert_eq!(r.stdout_excerpt, "");
    assert_eq!(r.source, "mcp");
    assert_eq!(r.command, "uptime");
    let r = failed_command_record("s", "reboot", true);
    assert!(r.dangerous && r.confirmed);
    assert_eq!(r.server_id, "s");
}

#[test]
fn held_command_token_is_random_uuid() {
    let mut store = PendingStore::new();
    match plan_command(&mut store, "srv", "halt", 0) {
        CommandPlan::Blocked { token, .. } => {
            let chars: Vec<char> = token.chars().collect();
            assert_eq!(chars.len(), 36);
            assert_eq!(chars[14], '4');
            assert!(matches!(chars[19], '8' | '9' | 'a' | 'b'));
        }
        CommandPlan::Execute => panic!("halt must be held back"),
    }
}
