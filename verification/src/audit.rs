//! The audit log rows written for every command call.
use vstd::prelude::*;
use vstd::string::*;

verus! {

/// At most this many characters of a command's output are kept in the log.
pub const AUDIT_EXCERPT_CHARS: usize = 2000;

/// The source recorded for calls made through the MCP tools.
pub const MCP_SOURCE: &'static str = "mcp";

/// One row of the command log (the time stamp is added when it is written).
#[derive(Debug, Clone)]
pub struct AuditRecord {
    pub server_id: String,
    pub command: String,
    pub source: String,
    pub dangerous: bool,
    pub confirmed: bool,
    pub exit_code: Option<i32>,
    pub stdout_excerpt: String,
}

/// `r` is the row for a call on `server_id` running `command`, with the
/// given flags, exit code and (already cut) output text.
pub open spec fn is_row(
    r: AuditRecord,
    server_id: Seq<char>,
    command: Seq<char>,
    dangerous: bool,
    confirmed: bool,
    exit_code: Option<i32>,
    excerpt: Seq<char>,
) -> bool {
    &&& r.server_id@ == server_id
    &&& r.command@ == command
    &&& r.source@ == MCP_SOURCE@
    &&& r.dangerous == dangerous
    &&& r.confirmed == confirmed
    &&& r.exit_code == exit_code
    &&& r.stdout_excerpt@ == excerpt
}

/// A row described by `is_row` carries exactly the given server, command,
/// flags, exit code and output text, and the MCP source.
pub proof fn law_row_fields(
    r: AuditRecord,
    server_id: Seq<char>,
    command: Seq<char>,
    dangerous: bool,
    confirmed: bool,
    exit_code: Option<i32>,
    excerpt: Seq<char>,
)
    requires
        is_row(r, server_id, command, dangerous, confirmed, exit_code, excerpt),
    ensures
        r.server_id@ == server_id,
        r.command@ == command,
        r.source@ == MCP_SOURCE@,
        r.dangerous == dangerous,
        r.confirmed == confirmed,
        r.exit_code == exit_code,
        r.stdout_excerpt@ == excerpt,
{
}

/// The kept output is the beginning of the output: as long as the output
/// but at most `n` characters, and character for character the same.
pub proof fn law_prefix_chars(s: Seq<char>, n: int)
    requires
        0 <= n,
    ensures
        prefix_chars(s, n).len() == if s.len() <= n {
            s.len() as int
        } else {
            n
        },
        forall|i: int| 0 <= i < prefix_chars(s, n).len() ==> #[trigger] prefix_chars(s, n)[i] == s[i],
{
}

/// At most 2000 characters of output are kept.
pub proof fn law_excerpt_limit()
    ensures
        AUDIT_EXCERPT_CHARS == 2000,
{
}

/// The first `n` characters of `s`, or all of it if it is shorter.
pub open spec fn prefix_chars(s: Seq<char>, n: int) -> Seq<char> {
    if s.len() <= n {
        s
    } else {
        s.take(n)
    }
}

/// The first `max_chars` characters of `text`.
pub fn excerpt(text: &str, max_chars: usize) -> (r: String)
    ensures
        r@ == prefix_chars(text@, max_chars as int),
{
    let n = text.unicode_len();
    if n <= max_chars {
        String::from_str(text)
    } else {
        let r = String::from_str(text.substring_char(0, max_chars));
        assert(text@.subrange(0, max_chars as int) =~= text@.take(max_chars as int));
        r
    }
}

/// The row for a command call: the output is cut to its first
/// `AUDIT_EXCERPT_CHARS` characters.
pub fn audit_record(
    server_id: &str,
    command: &str,
    source: &str,
    dangerous: bool,
    confirmed: bool,
    exit_code: Option<i32>,
    stdout: &str,
) -> (r: AuditRecord)
    ensures
        r.server_id@ == server_id@,
        r.command@ == command@,
        r.source@ == source@,
        r.dangerous == dangerous,
        r.confirmed == confirmed,
        r.exit_code == exit_code,
        r.stdout_excerpt@ == prefix_chars(stdout@, AUDIT_EXCERPT_CHARS as int),
{
    AuditRecord {
        server_id: String::from_str(server_id),
        command: String::from_str(command),
        source: String::from_str(source),
        dangerous,
        confirmed,
        exit_code,
        stdout_excerpt: excerpt(stdout, AUDIT_EXCERPT_CHARS),
    }
}

/// The row for a command held back for confirmation: marked dangerous, not
/// confirmed, no exit code and no output.
pub fn blocked_command_record(server_id: &str, command: &str) -> (r: AuditRecord)
    ensures
        r.server_id@ == server_id@,
        r.command@ == command@,
        r.source@ == MCP_SOURCE@,
        r.dangerous,
        !r.confirmed,
        r.exit_code is None,
        r.stdout_excerpt@ == Seq::<char>::empty(),
{
    proof {
        reveal_strlit("");
    }
    audit_record(server_id, command, MCP_SOURCE, true, false, None, "")
}

/// The row for a command that ran: one that ran after confirmation is marked
/// both dangerous and confirmed, one that ran directly neither.
pub fn executed_command_record(
    server_id: &str,
    command: &str,
    confirmed: bool,
    exit_code: Option<i32>,
    stdout: &str,
) -> (r: AuditRecord)
    ensures
        r.server_id@ == server_id@,
        r.command@ == command@,
        r.source@ == MCP_SOURCE@,
        r.dangerous == confirmed,
        r.confirmed == confirmed,
        r.exit_code == exit_code,
        r.stdout_excerpt@ == prefix_chars(stdout@, AUDIT_EXCERPT_CHARS as int),
{
    audit_record(server_id, command, MCP_SOURCE, confirmed, confirmed, exit_code, stdout)
}

/// The row for a command whose run failed (the connection or the remote
/// execution gave an error): no exit code and no output; marked dangerous
/// and confirmed when it was run after confirmation, neither when directly.
pub fn failed_command_record(server_id: &str, command: &str, confirmed: bool) -> (r: AuditRecord)
    ensures
        r.server_id@ == server_id@,
        r.command@ == command@,
        r.source@ == MCP_SOURCE@,
        r.dangerous == confirmed,
        r.confirmed == confirmed,
        r.exit_code is None,
        r.stdout_excerpt@ == Seq::<char>::empty(),
{
    proof {
        reveal_strlit("");
    }
    audit_record(server_id, command, MCP_SOURCE, confirmed, confirmed, None, "")
}

} // verus!
