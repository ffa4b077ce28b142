use std::time::{Duration, SystemTime, UNIX_EPOCH};

use ssh_mcp_client::audit::AuditRecord;
use ssh_mcp_client::dangerous::{danger_verdict, DANGER_REASON};
use ssh_mcp_client::error::AppError;
use ssh_mcp_client::flow::{command_flow_step, CommandFlow, FlowAction, FlowEvent};
use ssh_mcp_client::listing::{local_listing_for, sort_listing_by_names, LocalEntry, RemoteEntry};
use ssh_mcp_client::operations::{ExecOutput, DEFAULT_MCP_PORT};
use ssh_mcp_client::pending::{PendingCommand, PendingStore, PENDING_TTL_NANOS};
use ssh_mcp_client::settings::{json_member_u64_of, mcp_port_from_settings};
use ssh_mcp_client::times::unix_secs;

#[test]
fn settings_port() {
    assert_eq!(mcp_port_from_settings(Some(r#"{"mcp_port": 5000}"#)), 5000);
    assert_eq!(mcp_port_from_settings(Some(r#"{"other": 1, "mcp_port": 70000}"#)), 4464);
    assert_eq!(mcp_port_from_settings(Some("[5000]")), DEFAULT_MCP_PORT);
    assert_eq!(mcp_port_from_settings(Some(r#"{"mcp_port": "5000"}"#)), DEFAULT_MCP_PORT);
    assert_eq!(mcp_port_from_settings(Some(r#"{"mcp_port": -1}"#)), DEFAULT_MCP_PORT);
    assert_eq!(mcp_port_from_settings(Some("not json")), DEFAULT_MCP_PORT);
    assert_eq!(mcp_port_from_settings(Some("{}")), DEFAULT_MCP_PORT);
    assert_eq!(mcp_port_from_settings(None), DEFAULT_MCP_PORT);
    assert_eq!(json_member_u64_of(r#"{"a": 7}"#, "a"), Some(7));
    assert_eq!(json_member_u64_of(r#"{"a": {"b": 7}}"#, "b"), None);
}

#[test]
fn verdict_from_results() {
    assert_eq!(danger_verdict(true, false), None);
    assert_eq!(danger_verdict(true, true), Some(DANGER_REASON));
    assert_eq!(danger_verdict(false, false), Some(DANGER_REASON));
}

fn remote(name: &str, is_dir: bool) -> RemoteEntry {
    RemoteEntry { name: name.into(), path: name.into(), is_dir, size: 0, modified: None }
}

#[test]
fn sort_with_given_lowercase_names() {
    let entries = vec![remote("Docs", false), remote("apps", false), remote("bin", true)];
    let names = vec!["docs".to_string(), "apps".to_string(), "bin".to_string()];
    let out = sort_listing_by_names(entries, names);
    let order: Vec<&str> = out.iter().map(|e| e.name.as_str()).collect();
    assert_eq!(order, vec!["bin", "apps", "Docs"]);
}

#[test]
fn unix_seconds_of_times() {
    assert_eq!(unix_secs(Ok(UNIX_EPOCH + Duration::from_secs(1_700_000_000))), Some(1_700_000_000));
    assert_eq!(unix_secs(Ok(UNIX_EPOCH + Duration::from_millis(2_500))), Some(2));
    assert_eq!(unix_secs(Ok(UNIX_EPOCH - Duration::from_secs(5))), None);
    assert_eq!(unix_secs(Err(std::io::Error::other("no mtime"))), None);
    assert!(unix_secs(Ok(SystemTime::now())).unwrap() > 1_600_000_000);
}

#[test]
fn local_listing_parent() {
    let l = local_listing_for("/home/user", vec![LocalEntry { name: "b".into(), path: "/home/user/b".into(), is_dir: false, size: 1 }]);
    assert_eq!(l.parent.as_deref(), Some("/home"));
    assert_eq!(local_listing_for("/", Vec::new()).parent, None);
    assert_eq!(local_listing_for("docs", Vec::new()).parent.as_deref(), Some(""));
}

fn log_row(action: FlowAction) -> AuditRecord {
    match action {
        FlowAction::Log(r) => r,
        other => panic!("expected a log row, got {other:?}"),
    }
}

fn step(flow: &mut CommandFlow, pending: &mut PendingStore, event: FlowEvent) -> FlowAction {
    assert!(flow.awaits(&event));
    command_flow_step(flow, pending, event, 0)
}

#[test]
fn safe_command_flow_runs_logs_replies() {
    let mut pending = PendingStore::new();
    let (mut flow, a) = CommandFlow::start_run("srv", "uptime");
    assert!(matches!(a, FlowAction::Connect { ref server_id } if server_id == "srv"));
    assert!(!flow.awaits(&FlowEvent::Logged));
    let a = step(&mut flow, &mut pending, FlowEvent::Connected);
    assert!(matches!(a, FlowAction::Run { ref command, .. } if command == "uptime"));
    let out = ExecOutput { stdout: "up".into(), stderr: String::new(), exit_code: Some(0) };
    let row = log_row(step(&mut flow, &mut pending, FlowEvent::Ran(out)));
    assert!(!row.dangerous && !row.confirmed);
    assert_eq!(row.exit_code, Some(0));
    assert_eq!(row.stdout_excerpt, "up");
    match step(&mut flow, &mut pending, FlowEvent::Logged) {
        FlowAction::Reply(Ok(o)) => assert!(o.executed && o.stdout.as_deref() == Some("up")),
        other => panic!("expected reply, got {other:?}"),
    }
    assert!(!flow.awaits(&FlowEvent::Logged));
}

#[test]
fn dangerous_command_flow_holds_and_logs() {
    let mut pending = PendingStore::new();
    let (mut flow, _) = CommandFlow::start_run("srv", "reboot");
    let row = log_row(step(&mut flow, &mut pending, FlowEvent::Connected));
    assert!(row.dangerous && !row.confirmed && row.exit_code.is_none());
    assert_eq!(pending.len(), 1);
    let token = match step(&mut flow, &mut pending, FlowEvent::Logged) {
        FlowAction::Reply(Ok(o)) => {
            assert!(!o.executed && o.requires_confirmation);
            o.confirmation_token.unwrap()
        }
        other => panic!("expected reply, got {other:?}"),
    };
    let (mut flow, a) = CommandFlow::start_confirm(&mut pending, &token, PENDING_TTL_NANOS);
    assert!(matches!(a, FlowAction::Connect { ref server_id } if server_id == "srv"));
    let a = step(&mut flow, &mut pending, FlowEvent::Connected);
    assert!(matches!(a, FlowAction::Run { ref command, .. } if command == "reboot"));
    let row = log_row(step(&mut flow, &mut pending, FlowEvent::RunFailed(AppError::Ssh("gone".into()))));
    assert!(row.dangerous && row.confirmed);
    match step(&mut flow, &mut pending, FlowEvent::LogFailed(AppError::Db("locked".into()))) {
        FlowAction::Reply(Err(AppError::Ssh(m))) => assert_eq!(m, "gone"),
        other => panic!("expected the run error, got {other:?}"),
    }
    let (_, a) = CommandFlow::start_confirm(&mut pending, &token, PENDING_TTL_NANOS);
    assert!(matches!(a, FlowAction::Reply(Err(AppError::UnknownToken))));
}

#[test]
fn connect_failure_is_logged_then_reported() {
    let mut pending = PendingStore::new();
    let (mut flow, _) = CommandFlow::start_run("srv", "ls");
    let row = log_row(step(&mut flow, &mut pending, FlowEvent::ConnectFailed(AppError::AuthFailed)));
    assert!(!row.dangerous && !row.confirmed && row.stdout_excerpt.is_empty());
    assert!(matches!(step(&mut flow, &mut pending, FlowEvent::Logged), FlowAction::Reply(Err(AppError::AuthFailed))));
}

#[test]
fn log_failure_after_success_reports_log_error() {
    let mut pending = PendingStore::new();
    let (mut flow, _) = CommandFlow::start_run("srv", "ls");
    step(&mut flow, &mut pending, FlowEvent::Connected);
    step(&mut flow, &mut pending, FlowEvent::Ran(ExecOutput { stdout: String::new(), stderr: String::new(), exit_code: None }));
    assert!(matches!(step(&mut flow, &mut pending, FlowEvent::LogFailed(AppError::Db("x".into()))), FlowAction::Reply(Err(AppError::Db(_)))));
}

#[test]
fn expired_confirmation_refused_without_running() {
    let mut pending = PendingStore::new();
    pending.insert("t".into(), PendingCommand { server_id: "s".into(), command: "halt".into(), created_at: 0 });
    let (flow, a) = CommandFlow::start_confirm(&mut pending, "t", PENDING_TTL_NANOS + 1);
    assert!(matches!(a, FlowAction::Reply(Err(AppError::Other(_)))));
    assert!(!flow.awaits(&FlowEvent::Connected));
    assert_eq!(pending.len(), 0);
}
