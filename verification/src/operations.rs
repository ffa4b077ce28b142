//! The decisions shared by the desktop commands and the MCP tools: server
//! summaries, screening and holding back commands, what a command call
//! reports, and the checks made when connecting.
use vstd::prelude::*;
use vstd::string::*;

use crate::dangerous::{command_is_dangerous, is_dangerous, DANGER_REASON};
use crate::error::AppError;
use crate::ids::{fresh_uuid, is_random_uuid_text};
use crate::pending::{confirm_verdict, ConfirmVerdict, PendingCommand, PendingStore, PENDING_TTL_NANOS};
use crate::profiles::ServerProfile;
use crate::text::contains_str;

verus! {

/// The port of the embedded MCP server when the settings name none.
pub const DEFAULT_MCP_PORT: u16 = 47821;

/// A saved server as listed to the user and to the assistant (no password).
#[derive(Debug, Clone)]
pub struct ServerSummary {
    pub id: String,
    pub name: String,
    pub host: String,
    pub port: u16,
    pub username: String,
    pub connected: bool,
    pub favorite: bool,
}

/// What a command call reports back.
#[derive(Debug, Clone)]
pub struct CommandOutcome {
    pub executed: bool,
    pub stdout: Option<String>,
    pub stderr: Option<String>,
    pub exit_code: Option<i32>,
    pub requires_confirmation: bool,
    pub confirmation_token: Option<String>,
    pub reason: Option<String>,
}

/// What running a command on the server produced.
#[derive(Debug)]
pub struct ExecOutput {
    pub stdout: String,
    pub stderr: String,
    pub exit_code: Option<i32>,
}

/// The ids of the servers with an open session, as text.
pub open spec fn id_views(ids: Seq<String>) -> Seq<Seq<char>> {
    ids.map_values(|s: String| s@)
}

/// The summary of one profile.
pub open spec fn summary_of(p: ServerProfile, connected: Seq<Seq<char>>) -> ServerSummary {
    ServerSummary {
        id: p.id,
        name: p.name,
        host: p.host,
        port: p.port,
        username: p.username,
        connected: connected.contains(p.id@),
        favorite: p.favorite,
    }
}

/// Holds of the profiles marked favorite.
pub open spec fn is_favorite() -> spec_fn(ServerProfile) -> bool {
    |p: ServerProfile| p.favorite
}

/// Holds of the profiles not marked favorite.
pub open spec fn is_not_favorite() -> spec_fn(ServerProfile) -> bool {
    |p: ServerProfile| !p.favorite
}

/// Summaries of `s`, in order.
pub open spec fn summaries(s: Seq<ServerProfile>, connected: Seq<Seq<char>>) -> Seq<ServerSummary> {
    s.map_values(|p: ServerProfile| summary_of(p, connected))
}

/// The listing of the saved servers: favorites first, otherwise in the
/// saved order.
pub open spec fn server_listing(s: Seq<ServerProfile>, connected: Seq<Seq<char>>) -> Seq<
    ServerSummary,
> {
    summaries(s.filter(is_favorite()), connected) + summaries(s.filter(is_not_favorite()), connected)
}

/// The summary of one profile, computed.
fn summarize(p: &ServerProfile, connected_ids: &Vec<String>) -> (s: ServerSummary)
    ensures
        s == summary_of(*p, id_views(connected_ids@)),
        s.id == p.id,
        s.name == p.name,
        s.host == p.host,
        s.port == p.port,
        s.username == p.username,
        s.favorite == p.favorite,
        s.connected == id_views(connected_ids@).contains(p.id@),
{
    let connected = contains_str(connected_ids, p.id.as_str());
    proof {
        let v = id_views(connected_ids@);
        if connected {
            let k = choose|k: int| 0 <= k < connected_ids@.len() && (#[trigger] connected_ids@[k])@ == p.id@;
            assert(v[k] == p.id@);
        } else {
            assert forall|k: int| 0 <= k < v.len() implies v[k] != p.id@ by {
                assert(connected_ids@[k]@ == v[k]);
            }
        }
    }
    ServerSummary {
        id: p.id.clone(),
        name: p.name.clone(),
        host: p.host.clone(),
        port: p.port,
        username: p.username.clone(),
        connected,
        favorite: p.favorite,
    }
}

/// Appends the summaries of the profiles whose favorite flag is `favorite`.
fn push_summaries(
    out: &mut Vec<ServerSummary>,
    profiles: &Vec<ServerProfile>,
    connected_ids: &Vec<String>,
    favorite: bool,
)
    ensures
        final(out)@ == old(out)@ + summaries(
            profiles@.filter(if favorite { is_favorite() } else { is_not_favorite() }),
            id_views(connected_ids@),
        ),
{
    let ghost pred = if favorite { is_favorite() } else { is_not_favorite() };
    let ghost start = out@;
    let ghost conn = id_views(connected_ids@);
    let mut i: usize = 0;
    while i < profiles.len()
        invariant
            i <= profiles@.len(),
            pred == (if favorite { is_favorite() } else { is_not_favorite() }),
            conn == id_views(connected_ids@),
            out@ == start + summaries(profiles@.take(i as int).filter(pred), conn),
        decreases profiles@.len() - i,
    {
        proof {
            reveal_with_fuel(Seq::<_>::filter, 1);
            assert(profiles@.take(i + 1).drop_last() =~= profiles@.take(i as int));
        }
        if profiles[i].favorite == favorite {
            let s = summarize(&profiles[i], connected_ids);
            out.push(s);
            proof {
                assert(profiles@.take(i + 1).filter(pred) =~= profiles@.take(i as int).filter(
                    pred,
                ).push(profiles@[i as int]));
                assert(summaries(profiles@.take(i + 1).filter(pred), conn) =~= summaries(
                    profiles@.take(i as int).filter(pred),
                    conn,
                ).push(s));
                assert(out@ =~= start + summaries(profiles@.take(i + 1).filter(pred), conn));
            }
        } else {
            proof {
                assert(profiles@.take(i + 1).filter(pred) =~= profiles@.take(i as int).filter(
                    pred,
                ));
            }
        }
        i = i + 1;
    }
    proof {
        assert(profiles@.take(i as int) =~= profiles@);
    }
}

/// Summaries of the saved servers, telling which have an open session.
/// Favorites come first; otherwise the saved order is kept.
pub fn list_servers(profiles: &Vec<ServerProfile>, connected_ids: &Vec<String>) -> (r: Vec<
    ServerSummary,
>)
    ensures
        r@ == server_listing(profiles@, id_views(connected_ids@)),
{
    let mut out: Vec<ServerSummary> = Vec::new();
    push_summaries(&mut out, profiles, connected_ids, true);
    push_summaries(&mut out, profiles, connected_ids, false);
    assert(out@ =~= server_listing(profiles@, id_views(connected_ids@)));
    out
}

/// The favorites and the others together are all the profiles.
proof fn lemma_partition_length(s: Seq<ServerProfile>)
    ensures
        s.filter(is_favorite()).len() + s.filter(is_not_favorite()).len() == s.len(),
    decreases s.len(),
{
    reveal_with_fuel(Seq::<_>::filter, 1);
    if s.len() > 0 {
        lemma_partition_length(s.drop_last());
    }
}

/// The server listing drops no saved server and adds none.
pub proof fn law_listing_keeps_every_server(s: Seq<ServerProfile>, connected: Seq<Seq<char>>)
    ensures
        server_listing(s, connected).len() == s.len(),
{
    lemma_partition_length(s);
}

/// Each entry of the server listing describes one saved profile with that
/// profile's own id, name, host, port and user name, tells whether a session
/// to it is open, and the favorites (in saved order) come before the others
/// (in saved order).
pub proof fn law_listing_fields(s: Seq<ServerProfile>, connected: Seq<Seq<char>>)
    ensures
        ({
            let listing = server_listing(s, connected);
            let favorites = s.filter(is_favorite());
            let others = s.filter(is_not_favorite());
            &&& listing.len() == favorites.len() + others.len()
            &&& forall|k: int|
                0 <= k < favorites.len() ==> {
                    let e = #[trigger] listing[k];
                    let p = favorites[k];
                    &&& e.id == p.id
                    &&& e.name == p.name
                    &&& e.host == p.host
                    &&& e.port == p.port
                    &&& e.username == p.username
                    &&& e.connected == connected.contains(p.id@)
                    &&& e.favorite
                    &&& p.favorite
                    &&& s.contains(p)
                }
            &&& forall|k: int|
                0 <= k < others.len() ==> {
                    let e = #[trigger] listing[favorites.len() + k];
                    let p = others[k];
                    &&& e.id == p.id
                    &&& e.name == p.name
                    &&& e.host == p.host
                    &&& e.port == p.port
                    &&& e.username == p.username
                    &&& e.connected == connected.contains(p.id@)
                    &&& !e.favorite
                    &&& !p.favorite
                    &&& s.contains(p)
                }
        }),
{
    let favorites = s.filter(is_favorite());
    let others = s.filter(is_not_favorite());
    let listing = server_listing(s, connected);
    assert forall|k: int| 0 <= k < favorites.len() implies {
        let e = #[trigger] listing[k];
        let p = favorites[k];
        &&& e.id == p.id
        &&& e.name == p.name
        &&& e.host == p.host
        &&& e.port == p.port
        &&& e.username == p.username
        &&& e.connected == connected.contains(p.id@)
        &&& e.favorite
        &&& p.favorite
        &&& s.contains(p)
    } by {
        s.lemma_filter_pred(is_favorite(), k);
        assert(favorites.contains(favorites[k]));
        s.lemma_filter_contains_rev(is_favorite(), favorites[k]);
        assert(listing[k] == summaries(favorites, connected)[k]);
    }
    assert forall|k: int| 0 <= k < others.len() implies {
        let e = #[trigger] listing[favorites.len() + k];
        let p = others[k];
        &&& e.id == p.id
        &&& e.name == p.name
        &&& e.host == p.host
        &&& e.port == p.port
        &&& e.username == p.username
        &&& e.connected == connected.contains(p.id@)
        &&& !e.favorite
        &&& !p.favorite
        &&& s.contains(p)
    } by {
        s.lemma_filter_pred(is_not_favorite(), k);
        assert(others.contains(others[k]));
        s.lemma_filter_contains_rev(is_not_favorite(), others[k]);
        assert(listing[favorites.len() + k] == summaries(others, connected)[k]);
    }
}

/// A command that `plan_command` held back under `token` at clock reading
/// `now` can be confirmed up to the end of the validity period, and then
/// yields the server and command that were held back.
pub proof fn law_held_command_confirmable(
    pending: Map<Seq<char>, PendingCommand>,
    token: Seq<char>,
    server_id: Seq<char>,
    command: Seq<char>,
    now: u64,
    later: u64,
)
    requires
        pending.contains_key(token),
        pending[token].server_id@ == server_id,
        pending[token].command@ == command,
        pending[token].created_at == now,
        now <= later,
        later - now <= PENDING_TTL_NANOS,
    ensures
        confirm_verdict(pending, token, later) matches ConfirmVerdict::Granted(p) && p.server_id@
            == server_id && p.command@ == command,
{
}

/// The text returned to the assistant for a held-back command.
pub open spec fn blocked_reason_text(reason: Seq<char>) -> Seq<char> {
    "Blocked: "@ + reason
        + ". Show this to the user in chat; if they agree, call confirm_dangerous_command with this token."@
}

/// What the assistant is told about a command that was held back.
pub open spec fn is_blocked_outcome(o: CommandOutcome, token: Seq<char>, reason: Seq<char>) -> bool {
    &&& !o.executed
    &&& o.stdout is None
    &&& o.stderr is None
    &&& o.exit_code is None
    &&& o.requires_confirmation
    &&& o.confirmation_token matches Some(t) && t@ == token
    &&& o.reason matches Some(r) && r@ == blocked_reason_text(reason)
}

/// A held-back command is reported as not run, without output or exit code,
/// as waiting for confirmation, with the token it is held under.
pub proof fn law_blocked_outcome_meaning(o: CommandOutcome, token: Seq<char>, reason: Seq<char>)
    requires
        is_blocked_outcome(o, token, reason),
    ensures
        !o.executed,
        o.stdout is None,
        o.stderr is None,
        o.exit_code is None,
        o.requires_confirmation,
        o.confirmation_token matches Some(t) && t@ == token,
        o.reason is Some,
{
}

/// The report of a command that was held back for confirmation under `token`.
pub fn blocked_outcome(token: String, reason: &str) -> (o: CommandOutcome)
    ensures
        is_blocked_outcome(o, token@, reason@),
{
    let text = String::from_str("Blocked: ").concat(reason).concat(
        ". Show this to the user in chat; if they agree, call confirm_dangerous_command with this token.",
    );
    CommandOutcome {
        executed: false,
        stdout: None,
        stderr: None,
        exit_code: None,
        requires_confirmation: true,
        confirmation_token: Some(token),
        reason: Some(text),
    }
}

/// The report of a command that ran, with what it produced.
pub open spec fn executed_outcome_of(output: ExecOutput) -> CommandOutcome {
    CommandOutcome {
        executed: true,
        stdout: Some(output.stdout),
        stderr: Some(output.stderr),
        exit_code: output.exit_code,
        requires_confirmation: false,
        confirmation_token: None,
        reason: None,
    }
}

/// The report of a command that ran.
pub fn executed_outcome(output: ExecOutput) -> (o: CommandOutcome)
    ensures
        o == executed_outcome_of(output),
        o.executed,
        o.stdout == Some(output.stdout),
        o.stderr == Some(output.stderr),
        o.exit_code == output.exit_code,
        !o.requires_confirmation,
        o.confirmation_token is None,
        o.reason is None,
{
    CommandOutcome {
        executed: true,
        stdout: Some(output.stdout),
        stderr: Some(output.stderr),
        exit_code: output.exit_code,
        requires_confirmation: false,
        confirmation_token: None,
        reason: None,
    }
}

/// A command that ran is reported as run, with exactly the output streams
/// and exit code it produced, and with nothing to confirm.
pub proof fn law_executed_outcome_reports_output(output: ExecOutput)
    ensures
        executed_outcome_of(output).executed,
        executed_outcome_of(output).stdout == Some(output.stdout),
        executed_outcome_of(output).stderr == Some(output.stderr),
        executed_outcome_of(output).exit_code == output.exit_code,
        !executed_outcome_of(output).requires_confirmation,
        executed_outcome_of(output).confirmation_token is None,
        executed_outcome_of(output).reason is None,
{
}

/// What to do with a command the assistant asked to run.
#[derive(Debug)]
pub enum CommandPlan {
    /// Run it now.
    Execute,
    /// It was held back under `token`; report `outcome`.
    Blocked { token: String, outcome: CommandOutcome },
}

/// Screens `command`: a safe-looking command is to run now; a destructive-
/// looking one is held back under a fresh token (created at clock reading
/// `now`) and is not run.
pub fn plan_command(pending: &mut PendingStore, server_id: &str, command: &str, now: u64) -> (plan:
    CommandPlan)
    ensures
        plan is Execute <==> !command_is_dangerous(command@),
        plan is Execute ==> final(pending)@ == old(pending)@,
        plan matches CommandPlan::Blocked { token, outcome } ==> {
            &&& is_random_uuid_text(token@)
            &&& is_blocked_outcome(outcome, token@, DANGER_REASON@)
            &&& final(pending)@.contains_key(token@)
            &&& final(pending)@[token@].server_id@ == server_id@
            &&& final(pending)@[token@].command@ == command@
            &&& final(pending)@[token@].created_at == now
            &&& final(pending)@.remove(token@) == old(pending)@.remove(token@)
        },
{
    match is_dangerous(command) {
        None => CommandPlan::Execute,
        Some(reason) => {
            let token = fresh_uuid();
            let held = PendingCommand {
                server_id: server_id.to_string(),
                command: command.to_string(),
                created_at: now,
            };
            pending.insert(token.clone(), held);
            assert(pending@.remove(token@) =~= old(pending)@.remove(token@));
            let outcome = blocked_outcome(token.clone(), reason);
            CommandPlan::Blocked { token, outcome }
        },
    }
}

/// The profile that a lookup found, or the error for an unknown server.
pub fn require_profile(found: Option<ServerProfile>, server_id: &str) -> (r: Result<
    ServerProfile,
    AppError,
>)
    ensures
        found matches Some(p) ==> r == Ok::<ServerProfile, AppError>(p),
        found is None ==> (r matches Err(AppError::ServerNotFound(id)) && id@ == server_id@),
{
    match found {
        Some(p) => Ok(p),
        None => Err(AppError::ServerNotFound(server_id.to_string())),
    }
}

/// The text of the error for a server that presented no host key.
pub const NO_HOST_KEY_MESSAGE: &'static str = "server did not present a host key";

/// The MCP server listens on port 47821 unless the settings name another.
pub proof fn law_default_mcp_port()
    ensures
        DEFAULT_MCP_PORT == 47821,
{
}

/// Trust on first use: the host key fingerprint the server presented is
/// accepted when no fingerprint is expected yet or when it equals the
/// expected one; a server that presented none is refused.
pub fn check_host_key(expected: &Option<String>, observed: Option<String>) -> (r: Result<
    String,
    AppError,
>)
    ensures
        observed is None ==> (r matches Err(AppError::Other(m)) && m@ == NO_HOST_KEY_MESSAGE@),
        observed matches Some(o) ==> match expected {
            None => r == Ok::<String, AppError>(o),
            Some(e) => if e@ == o@ {
                r == Ok::<String, AppError>(o)
            } else {
                (r matches Err(AppError::HostKeyMismatch { expected: x, actual: a }) && x@ == e@
                    && a == o)
            },
        },
{
    match observed {
        None => Err(AppError::Other(String::from_str(NO_HOST_KEY_MESSAGE))),
        Some(o) => match expected {
            None => Ok(o),
            Some(e) => {
                if crate::text::str_equal(e.as_str(), o.as_str()) {
                    Ok(o)
                } else {
                    Err(AppError::HostKeyMismatch { expected: e.clone(), actual: o })
                }
            },
        },
    }
}

/// The fingerprint to record after connecting: the observed one, if the
/// profile has none recorded yet.
pub fn fingerprint_to_record(profile: &ServerProfile, observed: &str) -> (r: Option<String>)
    ensures
        profile.host_key_fingerprint is None ==> (r matches Some(f) && f@ == observed@),
        profile.host_key_fingerprint is Some ==> r is None,
{
    match profile.host_key_fingerprint {
        None => Some(observed.to_string()),
        Some(_) => None,
    }
}

/// The MCP port from the settings file's `mcp_port` entry: that number cut
/// to 16 bits, or the default port when there is none.
pub fn mcp_port_from_setting(setting: Option<u64>) -> (port: u16)
    ensures
        port == match setting {
            Some(v) => (v % 65536) as u16,
            None => DEFAULT_MCP_PORT,
        },
{
    match setting {
        Some(v) => (v % 65536) as u16,
        None => DEFAULT_MCP_PORT,
    }
}

} // verus!
