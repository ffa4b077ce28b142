//! Screening of shell commands against known destructive patterns.
use regex::RegexSet;
use vstd::prelude::*;

verus! {

#[verifier::external_type_specification]
#[verifier::external_body]
pub struct ExRegexSet(regex::RegexSet);

#[verifier::external_type_specification]
#[verifier::external_body]
pub struct ExRegexError(regex::Error);

/// The regular expressions a compiled set holds, in the order it was built
/// from (what `RegexSet::patterns` hands back).
pub uninterp spec fn regex_set_patterns(set: regex::RegexSet) -> Seq<Seq<char>>;

/// Whether `RegexSet::new` accepts the given expressions (each parses and the
/// compiled set stays within the crate's default size limits).
pub uninterp spec fn regex_set_builds(patterns: Seq<Seq<char>>) -> bool;

/// Whether the regular expression `pattern` matches somewhere in `text`
/// (the crate's unanchored search semantics).
pub uninterp spec fn regex_matches(pattern: Seq<char>, text: Seq<char>) -> bool;

/// The plain-text views of a list of string slices.
pub open spec fn str_views(v: Seq<&str>) -> Seq<Seq<char>> {
    v.map_values(|s: &str| s@)
}

/// True when some expression of `patterns` matches somewhere in `text`.
pub open spec fn any_pattern_matches(patterns: Seq<Seq<char>>, text: Seq<char>) -> bool {
    exists|i: int| 0 <= i < patterns.len() && regex_matches(#[trigger] patterns[i], text)
}

/// Calls `regex::RegexSet::new`. Trusted: the result is `Ok` exactly when the
/// crate accepts the expressions, and a built set holds the expressions it
/// was given, in order.
#[verifier::external_body]
fn build_regex_set(patterns: &[&str]) -> (r: Result<RegexSet, regex::Error>)
    ensures
        r is Ok <==> regex_set_builds(str_views(patterns@)),
        r matches Ok(set) ==> regex_set_patterns(set) == str_views(patterns@),
{
    RegexSet::new(patterns.iter())
}

/// Calls `regex::RegexSet::is_match`. Trusted, as the crate documents it:
/// true if and only if one of the expressions in the set matches the text.
#[verifier::external_body]
fn regex_set_is_match(set: &RegexSet, text: &str) -> (r: bool)
    ensures
        r == (exists|i: int|
            0 <= i < regex_set_patterns(*set).len() && regex_matches(
                #[trigger] regex_set_patterns(*set)[i],
                text@,
            )),
{
    set.is_match(text)
}

/// The expressions that mark a command as destructive. Intentionally coarse:
/// a false positive only adds a confirmation step, a false negative does not.
pub open spec fn dangerous_pattern_list() -> Seq<Seq<char>> {
    seq![
        r"\brm\b[^\n]*-[a-zA-Z]*r[a-zA-Z]*f|\brm\b[^\n]*-[a-zA-Z]*f[a-zA-Z]*r"@,
        r"\bdd\b\s+if="@,
        r"\bmkfs(\.\w+)?\b"@,
        r":\(\)\s*\{\s*:\s*\|\s*:\s*&\s*\}\s*;\s*:"@,
        r"\bshutdown\b"@,
        r"\breboot\b"@,
        r"\bhalt\b"@,
        r"\bsystemctl\s+(stop|disable|mask)\b"@,
        r"\bservice\s+\S+\s+stop\b"@,
        r">\s*/dev/sd\w*"@,
        r">\s*/dev/nvme\w*"@,
        r"\bchmod\s+(-R\s+)?000\b"@,
        r"\bchmod\s+-R\s+777\s+/"@,
        r"\buserdel\b"@,
        r"\bdeluser\b"@,
        r"\bdrop\s+database\b"@,
        r"\btruncate\s+table\b"@,
        r"\bufw\s+disable\b"@,
        r"\biptables\s+-F\b"@,
        r"\bkill\s+-9\s+1\b"@,
        r"\b(apt|apt-get|yum|dnf)\s+(remove|purge)\s+-y\b"@,
        r">\s*/etc/passwd\b"@,
    ]
}

/// The destructive-command expressions, as string slices.
pub fn dangerous_patterns() -> (v: Vec<&'static str>)
    ensures
        str_views(v@) == dangerous_pattern_list(),
{
    let v: Vec<&'static str> = vec![
        r"\brm\b[^\n]*-[a-zA-Z]*r[a-zA-Z]*f|\brm\b[^\n]*-[a-zA-Z]*f[a-zA-Z]*r",
        r"\bdd\b\s+if=",
        r"\bmkfs(\.\w+)?\b",
        r":\(\)\s*\{\s*:\s*\|\s*:\s*&\s*\}\s*;\s*:",
        r"\bshutdown\b",
        r"\breboot\b",
        r"\bhalt\b",
        r"\bsystemctl\s+(stop|disable|mask)\b",
        r"\bservice\s+\S+\s+stop\b",
        r">\s*/dev/sd\w*",
        r">\s*/dev/nvme\w*",
        r"\bchmod\s+(-R\s+)?000\b",
        r"\bchmod\s+-R\s+777\s+/",
        r"\buserdel\b",
        r"\bdeluser\b",
        r"\bdrop\s+database\b",
        r"\btruncate\s+table\b",
        r"\bufw\s+disable\b",
        r"\biptables\s+-F\b",
        r"\bkill\s+-9\s+1\b",
        r"\b(apt|apt-get|yum|dnf)\s+(remove|purge)\s+-y\b",
        r">\s*/etc/passwd\b",
    ];
    assert(str_views(v@) =~= dangerous_pattern_list());
    v
}

/// The reason reported for a command that is held back.
pub const DANGER_REASON: &'static str =
    "command matches a known destructive pattern (filesystem wipe, service/host shutdown, or similar)";

/// Whether the command is to be held back for confirmation: some destructive
/// expression matches it, or the expression set cannot be built (then every
/// command is held back rather than none).
pub open spec fn command_is_dangerous(command: Seq<char>) -> bool {
    !regex_set_builds(dangerous_pattern_list()) || any_pattern_matches(
        dangerous_pattern_list(),
        command,
    )
}

/// The screen holds back exactly what the destructive expressions catch:
/// rm -r/-f together, dd from a file, mkfs, the fork bomb, shutdown, reboot,
/// halt, systemctl stop/disable/mask, service ... stop, writes to /dev/sd* and
/// /dev/nvme*, chmod 000 and chmod -R 777 /, userdel, deluser, drop database,
/// truncate table, ufw disable, iptables -F, kill -9 1, package removal with
/// -y, and writes to /etc/passwd. A command that any of these matches is
/// dangerous; once the set builds, a dangerous command is matched by one.
pub proof fn law_screen_patterns(command: Seq<char>)
    ensures
        ({
            let listed = seq![
                r"\brm\b[^\n]*-[a-zA-Z]*r[a-zA-Z]*f|\brm\b[^\n]*-[a-zA-Z]*f[a-zA-Z]*r"@,
                r"\bdd\b\s+if="@,
                r"\bmkfs(\.\w+)?\b"@,
                r":\(\)\s*\{\s*:\s*\|\s*:\s*&\s*\}\s*;\s*:"@,
                r"\bshutdown\b"@,
                r"\breboot\b"@,
                r"\bhalt\b"@,
                r"\bsystemctl\s+(stop|disable|mask)\b"@,
                r"\bservice\s+\S+\s+stop\b"@,
                r">\s*/dev/sd\w*"@,
                r">\s*/dev/nvme\w*"@,
                r"\bchmod\s+(-R\s+)?000\b"@,
                r"\bchmod\s+-R\s+777\s+/"@,
                r"\buserdel\b"@,
                r"\bdeluser\b"@,
                r"\bdrop\s+database\b"@,
                r"\btruncate\s+table\b"@,
                r"\bufw\s+disable\b"@,
                r"\biptables\s+-F\b"@,
                r"\bkill\s+-9\s+1\b"@,
                r"\b(apt|apt-get|yum|dnf)\s+(remove|purge)\s+-y\b"@,
                r">\s*/etc/passwd\b"@,
            ];
            &&& (exists|i: int| 0 <= i < listed.len() && regex_matches(#[trigger] listed[i], command))
                ==> command_is_dangerous(command)
            &&& (regex_set_builds(listed) && command_is_dangerous(command)) ==> exists|i: int|
                0 <= i < listed.len() && regex_matches(#[trigger] listed[i], command)
            &&& !regex_set_builds(listed) ==> command_is_dangerous(command)
        }),
{
    let listed = seq![
        r"\brm\b[^\n]*-[a-zA-Z]*r[a-zA-Z]*f|\brm\b[^\n]*-[a-zA-Z]*f[a-zA-Z]*r"@,
        r"\bdd\b\s+if="@,
        r"\bmkfs(\.\w+)?\b"@,
        r":\(\)\s*\{\s*:\s*\|\s*:\s*&\s*\}\s*;\s*:"@,
        r"\bshutdown\b"@,
        r"\breboot\b"@,
        r"\bhalt\b"@,
        r"\bsystemctl\s+(stop|disable|mask)\b"@,
        r"\bservice\s+\S+\s+stop\b"@,
        r">\s*/dev/sd\w*"@,
        r">\s*/dev/nvme\w*"@,
        r"\bchmod\s+(-R\s+)?000\b"@,
        r"\bchmod\s+-R\s+777\s+/"@,
        r"\buserdel\b"@,
        r"\bdeluser\b"@,
        r"\bdrop\s+database\b"@,
        r"\btruncate\s+table\b"@,
        r"\bufw\s+disable\b"@,
        r"\biptables\s+-F\b"@,
        r"\bkill\s+-9\s+1\b"@,
        r"\b(apt|apt-get|yum|dnf)\s+(remove|purge)\s+-y\b"@,
        r">\s*/etc/passwd\b"@,
    ];
    assert(dangerous_pattern_list() =~= listed);
}

/// The verdict once the outside results are in: whether the expression set
/// was built, and whether it matched. A command is held back when it matched
/// or when the set could not be built.
pub fn danger_verdict(built: bool, matched: bool) -> (r: Option<&'static str>)
    ensures
        r is Some <==> (!built || matched),
        r matches Some(reason) ==> reason@ == DANGER_REASON@,
{
    if built && !matched {
        None
    } else {
        Some(DANGER_REASON)
    }
}

/// Returns a human-readable reason if `command` matches a known destructive
/// pattern, or `None` if it looks safe to run without extra confirmation.
pub fn is_dangerous(command: &str) -> (r: Option<&'static str>)
    ensures
        r is Some <==> command_is_dangerous(command@),
        r matches Some(reason) ==> reason@ == DANGER_REASON@,
{
    let patterns = dangerous_patterns();
    match build_regex_set(patterns.as_slice()) {
        Ok(set) => danger_verdict(true, regex_set_is_match(&set, command)),
        Err(_) => danger_verdict(false, false),
    }
}

} // verus!
