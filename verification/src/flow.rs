//! The course of one command call from the assistant, as a state machine:
//! the caller performs each action (connect, run, write the audit row, reply)
//! and feeds back what came of it.
use vstd::prelude::*;

use crate::audit::{
    blocked_command_record, executed_command_record, failed_command_record, is_row, prefix_chars,
    AuditRecord, AUDIT_EXCERPT_CHARS,
};
use crate::dangerous::{command_is_dangerous, DANGER_REASON};
use crate::error::AppError;
use crate::ids::is_random_uuid_text;
use crate::operations::{
    executed_outcome, executed_outcome_of, is_blocked_outcome, plan_command, CommandOutcome,
    CommandPlan, ExecOutput,
};
use crate::pending::{
    confirm_verdict, take_confirmed, ConfirmVerdict, PendingCommand, PendingStore, EXPIRED_MESSAGE,
};

verus! {

/// What came of the last action.
#[derive(Debug)]
pub enum FlowEvent {
    Connected,
    ConnectFailed(AppError),
    Ran(ExecOutput),
    RunFailed(AppError),
    Logged,
    LogFailed(AppError),
}

/// What the caller is to do next.
#[derive(Debug)]
pub enum FlowAction {
    /// Make sure there is an SSH session to this server.
    Connect { server_id: String },
    /// Run the command on the session.
    Run { server_id: String, command: String },
    /// Append this row to the audit log.
    Log(AuditRecord),
    /// Answer the call; the flow is over.
    Reply(Result<CommandOutcome, AppError>),
}

/// Where a command call stands.
#[derive(Debug)]
pub enum FlowPhase {
    /// A new command: connecting before it is screened.
    RunConnecting { server_id: String, command: String },
    /// A confirmed command: connecting before it runs.
    ConfirmConnecting { server_id: String, command: String },
    /// The command is running.
    Running { server_id: String, command: String, confirmed: bool },
    /// The audit row is being written; `reply` is the answer after it.
    Logging { reply: Result<CommandOutcome, AppError> },
    /// The call has been answered.
    Done,
}

/// One command call in progress.
#[derive(Debug)]
pub struct CommandFlow {
    phase: FlowPhase,
}

impl View for CommandFlow {
    type V = FlowPhase;

    closed spec fn view(&self) -> FlowPhase {
        self.phase
    }
}

/// The events the flow waits for in a phase.
pub open spec fn accepts(phase: FlowPhase, event: FlowEvent) -> bool {
    match phase {
        FlowPhase::RunConnecting { .. } => event is Connected || event is ConnectFailed,
        FlowPhase::ConfirmConnecting { .. } => event is Connected || event is ConnectFailed,
        FlowPhase::Running { .. } => event is Ran || event is RunFailed,
        FlowPhase::Logging { .. } => event is Logged || event is LogFailed,
        FlowPhase::Done => false,
    }
}

/// The answer once writing the audit row failed: a failed call keeps its
/// own error, a successful one reports the logging error.
pub open spec fn reply_after_log_failure(
    reply: Result<CommandOutcome, AppError>,
    log_error: AppError,
) -> Result<CommandOutcome, AppError> {
    match reply {
        Ok(_) => Err(log_error),
        Err(e) => Err(e),
    }
}

/// `pending` after `old` with `command` on `server_id` held under `token`
/// since `now`.
pub open spec fn holds_under(
    pending: Map<Seq<char>, PendingCommand>,
    old: Map<Seq<char>, PendingCommand>,
    token: Seq<char>,
    server_id: Seq<char>,
    command: Seq<char>,
    now: u64,
) -> bool {
    &&& pending.contains_key(token)
    &&& pending[token].server_id@ == server_id
    &&& pending[token].command@ == command
    &&& pending[token].created_at == now
    &&& pending.remove(token) == old.remove(token)
}

impl CommandFlow {
    /// Starts a call of `run_command`: first connect to the server.
    pub fn start_run(server_id: &str, command: &str) -> (r: (CommandFlow, FlowAction))
        ensures
            r.0@ matches FlowPhase::RunConnecting { server_id: s, command: c } && s@ == server_id@
                && c@ == command@,
            r.1 matches FlowAction::Connect { server_id: s } && s@ == server_id@,
    {
        let flow = CommandFlow {
            phase: FlowPhase::RunConnecting {
                server_id: server_id.to_string(),
                command: command.to_string(),
            },
        };
        (flow, FlowAction::Connect { server_id: server_id.to_string() })
    }

    /// Starts a call of `confirm_dangerous_command`: the token is used up;
    /// a granted command is connected for and run, a refused token is
    /// answered at once (nothing ran, so no row is written).
    pub fn start_confirm(pending: &mut PendingStore, token: &str, now: u64) -> (r: (
        CommandFlow,
        FlowAction,
    ))
        ensures
            final(pending)@ == old(pending)@.remove(token@),
            match confirm_verdict(old(pending)@, token@, now) {
                ConfirmVerdict::Granted(p) => r.0@ == (FlowPhase::ConfirmConnecting {
                    server_id: p.server_id,
                    command: p.command,
                }) && r.1 == (FlowAction::Connect { server_id: p.server_id }),
                ConfirmVerdict::Unknown => r.0@ is Done && r.1 matches FlowAction::Reply(
                    Err(AppError::UnknownToken),
                ),
                ConfirmVerdict::Expired => r.0@ is Done && (r.1 matches FlowAction::Reply(
                    Err(AppError::Other(m)),
                ) && m@ == EXPIRED_MESSAGE@),
            },
    {
        match take_confirmed(pending, token, now) {
            Ok(p) => {
                let action = FlowAction::Connect { server_id: p.server_id.clone() };
                (
                    CommandFlow {
                        phase: FlowPhase::ConfirmConnecting {
                            server_id: p.server_id,
                            command: p.command,
                        },
                    },
                    action,
                )
            },
            Err(e) => (CommandFlow { phase: FlowPhase::Done }, FlowAction::Reply(Err(e))),
        }
    }

    /// Whether the flow waits for `event` now.
    pub fn awaits(&self, event: &FlowEvent) -> (b: bool)
        ensures
            b == accepts(self@, *event),
    {
        match (&self.phase, event) {
            (FlowPhase::RunConnecting { .. }, FlowEvent::Connected) => true,
            (FlowPhase::RunConnecting { .. }, FlowEvent::ConnectFailed(_)) => true,
            (FlowPhase::ConfirmConnecting { .. }, FlowEvent::Connected) => true,
            (FlowPhase::ConfirmConnecting { .. }, FlowEvent::ConnectFailed(_)) => true,
            (FlowPhase::Running { .. }, FlowEvent::Ran(_)) => true,
            (FlowPhase::Running { .. }, FlowEvent::RunFailed(_)) => true,
            (FlowPhase::Logging { .. }, FlowEvent::Logged) => true,
            (FlowPhase::Logging { .. }, FlowEvent::LogFailed(_)) => true,
            _ => false,
        }
    }
}

/// Takes the flow one step on `event` (at clock reading `now`). A new
/// command is screened once connected: a destructive-looking one is held
/// back and not run. Every call that got as far as connecting writes exactly
/// one audit row, and is answered only after it.
pub fn command_flow_step(
    flow: &mut CommandFlow,
    pending: &mut PendingStore,
    event: FlowEvent,
    now: u64,
) -> (a: FlowAction)
    requires
        accepts(old(flow)@, event),
    ensures
        match (old(flow)@, event) {
            (FlowPhase::RunConnecting { server_id, command }, FlowEvent::Connected) => if command_is_dangerous(command@) {
                &&& a matches FlowAction::Log(r) && is_row(r, server_id@, command@, true, false, None, Seq::empty())
                &&& final(flow)@ matches FlowPhase::Logging { reply: Ok(o) } && o.confirmation_token matches Some(t)
                    && is_random_uuid_text(t@) && is_blocked_outcome(o, t@, DANGER_REASON@)
                    && holds_under(final(pending)@, old(pending)@, t@, server_id@, command@, now)
            } else {
                &&& a == (FlowAction::Run { server_id, command })
                &&& final(flow)@ == (FlowPhase::Running { server_id, command, confirmed: false })
                &&& final(pending)@ == old(pending)@
            },
            (FlowPhase::RunConnecting { server_id, command }, FlowEvent::ConnectFailed(e)) => {
                &&& a matches FlowAction::Log(r) && is_row(r, server_id@, command@, false, false, None, Seq::empty())
                &&& final(flow)@ == (FlowPhase::Logging { reply: Err(e) })
                &&& final(pending)@ == old(pending)@
            },
            (FlowPhase::ConfirmConnecting { server_id, command }, FlowEvent::Connected) => {
                &&& a == (FlowAction::Run { server_id, command })
                &&& final(flow)@ == (FlowPhase::Running { server_id, command, confirmed: true })
                &&& final(pending)@ == old(pending)@
            },
            (FlowPhase::ConfirmConnecting { server_id, command }, FlowEvent::ConnectFailed(e)) => {
                &&& a matches FlowAction::Log(r) && is_row(r, server_id@, command@, true, true, None, Seq::empty())
                &&& final(flow)@ == (FlowPhase::Logging { reply: Err(e) })
                &&& final(pending)@ == old(pending)@
            },
            (FlowPhase::Running { server_id, command, confirmed }, FlowEvent::Ran(out)) => {
                &&& a matches FlowAction::Log(r) && is_row(r, server_id@, command@, confirmed, confirmed,
                    out.exit_code, prefix_chars(out.stdout@, AUDIT_EXCERPT_CHARS as int))
                &&& final(flow)@ == (FlowPhase::Logging { reply: Ok(executed_outcome_of(out)) })
                &&& final(pending)@ == old(pending)@
            },
            (FlowPhase::Running { server_id, command, confirmed }, FlowEvent::RunFailed(e)) => {
                &&& a matches FlowAction::Log(r) && is_row(r, server_id@, command@, confirmed, confirmed, None, Seq::empty())
                &&& final(flow)@ == (FlowPhase::Logging { reply: Err(e) })
                &&& final(pending)@ == old(pending)@
            },
            (FlowPhase::Logging { reply }, FlowEvent::Logged) => {
                &&& a == FlowAction::Reply(reply)
                &&& final(flow)@ is Done
                &&& final(pending)@ == old(pending)@
            },
            (FlowPhase::Logging { reply }, FlowEvent::LogFailed(e)) => {
                &&& a == FlowAction::Reply(reply_after_log_failure(reply, e))
                &&& final(flow)@ is Done
                &&& final(pending)@ == old(pending)@
            },
            _ => false,
        },
        a matches FlowAction::Run { command, .. } ==> (old(flow)@ matches FlowPhase::RunConnecting {
            command: c,
            ..
        } && c == command && !command_is_dangerous(command@)) || old(flow)@ is ConfirmConnecting,
        (a is Log) <==> (final(flow)@ is Logging),
        (a is Reply) <==> (old(flow)@ is Logging),
        a is Reply ==> final(flow)@ is Done,
{
    let mut phase = FlowPhase::Done;
    std::mem::swap(&mut phase, &mut flow.phase);
    match phase {
        FlowPhase::RunConnecting { server_id, command } => match event {
            FlowEvent::Connected => {
                match plan_command(pending, server_id.as_str(), command.as_str(), now) {
                    CommandPlan::Execute => {
                        let action = FlowAction::Run {
                            server_id: server_id.clone(),
                            command: command.clone(),
                        };
                        flow.phase = FlowPhase::Running { server_id, command, confirmed: false };
                        action
                    },
                    CommandPlan::Blocked { token, outcome } => {
                        let row = blocked_command_record(server_id.as_str(), command.as_str());
                        assert(outcome.confirmation_token matches Some(t) && t@ == token@);
                        flow.phase = FlowPhase::Logging { reply: Ok(outcome) };
                        FlowAction::Log(row)
                    },
                }
            },
            FlowEvent::ConnectFailed(e) => {
                let row = failed_command_record(server_id.as_str(), command.as_str(), false);
                flow.phase = FlowPhase::Logging { reply: Err(e) };
                FlowAction::Log(row)
            },
            _ => {
                assert(false);
                FlowAction::Reply(Err(AppError::UnknownToken))
            },
        },
        FlowPhase::ConfirmConnecting { server_id, command } => match event {
            FlowEvent::Connected => {
                let action = FlowAction::Run { server_id: server_id.clone(), command: command.clone() };
                flow.phase = FlowPhase::Running { server_id, command, confirmed: true };
                action
            },
            FlowEvent::ConnectFailed(e) => {
                let row = failed_command_record(server_id.as_str(), command.as_str(), true);
                flow.phase = FlowPhase::Logging { reply: Err(e) };
                FlowAction::Log(row)
            },
            _ => {
                assert(false);
                FlowAction::Reply(Err(AppError::UnknownToken))
            },
        },
        FlowPhase::Running { server_id, command, confirmed } => match event {
            FlowEvent::Ran(out) => {
                let row = executed_command_record(
                    server_id.as_str(),
                    command.as_str(),
                    confirmed,
                    out.exit_code,
                    out.stdout.as_str(),
                );
                flow.phase = FlowPhase::Logging { reply: Ok(executed_outcome(out)) };
                FlowAction::Log(row)
            },
            FlowEvent::RunFailed(e) => {
                let row = failed_command_record(server_id.as_str(), command.as_str(), confirmed);
                flow.phase = FlowPhase::Logging { reply: Err(e) };
                FlowAction::Log(row)
            },
            _ => {
                assert(false);
                FlowAction::Reply(Err(AppError::UnknownToken))
            },
        },
        FlowPhase::Logging { reply } => match event {
            FlowEvent::Logged => FlowAction::Reply(reply),
            FlowEvent::LogFailed(e) => match reply {
                Ok(_) => FlowAction::Reply(Err(e)),
                Err(x) => FlowAction::Reply(Err(x)),
            },
            _ => {
                assert(false);
                FlowAction::Reply(Err(AppError::UnknownToken))
            },
        },
        FlowPhase::Done => {
            assert(false);
            FlowAction::Reply(Err(AppError::UnknownToken))
        },
    }
}

} // verus!
