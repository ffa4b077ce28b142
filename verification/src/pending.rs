//! Commands held back for confirmation, keyed by one-time tokens.
use vstd::hash_map::StringHashMap;
use vstd::prelude::*;

use crate::error::AppError;

verus! {

/// How long a confirmation token stays valid: five minutes, in nanoseconds
/// of the monotonic clock.
pub const PENDING_TTL_NANOS: u64 = 300_000_000_000;

/// The text of the error for a token that outlived its validity.
pub const EXPIRED_MESSAGE: &'static str =
    "confirmation token expired — call run_command again to re-request it";

/// A command that was held back, waiting for the user's confirmation.
#[derive(Debug)]
pub struct PendingCommand {
    pub server_id: String,
    pub command: String,
    /// Monotonic clock reading, in nanoseconds, when the command was held back.
    pub created_at: u64,
}

/// Pending commands by confirmation token.
pub struct PendingStore {
    map: StringHashMap<PendingCommand>,
}

impl View for PendingStore {
    type V = Map<Seq<char>, PendingCommand>;

    closed spec fn view(&self) -> Map<Seq<char>, PendingCommand> {
        self.map@
    }
}

/// Time passed between two monotonic clock readings; never negative.
pub open spec fn elapsed_nanos(created_at: u64, now: u64) -> int {
    if now >= created_at {
        now - created_at
    } else {
        0
    }
}

/// What a confirmation attempt finds.
#[derive(Debug)]
pub enum ConfirmVerdict {
    /// No command is held under the token.
    Unknown,
    /// The command is held, but for longer than the validity period.
    Expired,
    /// The command may run now.
    Granted(PendingCommand),
}

/// The verdict on confirming `token` at clock reading `now`.
pub open spec fn confirm_verdict(
    pending: Map<Seq<char>, PendingCommand>,
    token: Seq<char>,
    now: u64,
) -> ConfirmVerdict {
    if !pending.contains_key(token) {
        ConfirmVerdict::Unknown
    } else if elapsed_nanos(pending[token].created_at, now) > PENDING_TTL_NANOS {
        ConfirmVerdict::Expired
    } else {
        ConfirmVerdict::Granted(pending[token])
    }
}

impl PendingStore {
    /// An empty store.
    pub fn new() -> (s: Self)
        ensures
            s@ == Map::<Seq<char>, PendingCommand>::empty(),
    {
        PendingStore { map: StringHashMap::new() }
    }

    /// Number of commands held.
    pub fn len(&self) -> (n: usize)
        ensures
            n == self@.len(),
    {
        self.map.len()
    }

    /// Whether a command is held under `token`.
    pub fn contains(&self, token: &str) -> (b: bool)
        ensures
            b == self@.contains_key(token@),
    {
        self.map.contains_key(token)
    }

    /// Holds `pending` under `token`, replacing what the token held before.
    pub fn insert(&mut self, token: String, pending: PendingCommand)
        ensures
            final(self)@ == old(self)@.insert(token@, pending),
    {
        self.map.insert(token, pending);
    }

    /// Removes and returns what `token` holds.
    pub fn take(&mut self, token: &str) -> (r: Option<PendingCommand>)
        ensures
            final(self)@ == old(self)@.remove(token@),
            r is Some <==> old(self)@.contains_key(token@),
            r matches Some(p) ==> p == old(self)@[token@],
    {
        let found = match self.map.get(token) {
            Some(p) => Some(
                PendingCommand {
                    server_id: p.server_id.clone(),
                    command: p.command.clone(),
                    created_at: p.created_at,
                },
            ),
            None => None,
        };
        self.map.remove(token);
        found
    }
}

/// Takes the command held under `token` for execution. The token is used up
/// whatever the outcome; an unknown token and one older than the validity
/// period are refused.
pub fn take_confirmed(pending: &mut PendingStore, token: &str, now: u64) -> (r: Result<
    PendingCommand,
    AppError,
>)
    ensures
        final(pending)@ == old(pending)@.remove(token@),
        match confirm_verdict(old(pending)@, token@, now) {
            ConfirmVerdict::Unknown => r matches Err(AppError::UnknownToken),
            ConfirmVerdict::Expired => r matches Err(AppError::Other(m)) && m@ == EXPIRED_MESSAGE@,
            ConfirmVerdict::Granted(p) => r == Ok::<PendingCommand, AppError>(p),
        },
{
    match pending.take(token) {
        None => Err(AppError::UnknownToken),
        Some(p) => {
            let elapsed: u64 = if now >= p.created_at {
                now - p.created_at
            } else {
                0
            };
            if elapsed > PENDING_TTL_NANOS {
                Err(AppError::Other(String::from_str(EXPIRED_MESSAGE)))
            } else {
                Ok(p)
            }
        },
    }
}

/// Tokens are valid for five minutes.
pub proof fn law_validity_is_five_minutes()
    ensures
        PENDING_TTL_NANOS == 5 * 60 * 1_000_000_000,
{
}

/// A command held back at `created_at` can be confirmed, and yields exactly
/// the command that was held, up to the end of the validity period.
pub proof fn law_confirm_returns_held_command(
    pending: Map<Seq<char>, PendingCommand>,
    token: Seq<char>,
    held: PendingCommand,
    now: u64,
)
    requires
        held.created_at <= now,
        now - held.created_at <= PENDING_TTL_NANOS,
    ensures
        confirm_verdict(pending.insert(token, held), token, now) == ConfirmVerdict::Granted(held),
{
}

/// A token is good for one confirmation only: once an attempt has used it
/// up, a second attempt finds nothing.
pub proof fn law_token_single_use(pending: Map<Seq<char>, PendingCommand>, token: Seq<char>, now: u64)
    ensures
        confirm_verdict(pending.remove(token), token, now) == ConfirmVerdict::Unknown,
{
}

/// Past the validity period a held command is refused.
pub proof fn law_expired_refused(
    pending: Map<Seq<char>, PendingCommand>,
    token: Seq<char>,
    held: PendingCommand,
    now: u64,
)
    requires
        now > held.created_at + PENDING_TTL_NANOS,
    ensures
        confirm_verdict(pending.insert(token, held), token, now) == ConfirmVerdict::Expired,
{
}

/// Confirming one token leaves every other held command as it was.
pub proof fn law_confirm_keeps_others(
    pending: Map<Seq<char>, PendingCommand>,
    token: Seq<char>,
    other: Seq<char>,
    now: u64,
)
    requires
        other != token,
    ensures
        confirm_verdict(pending.remove(token), other, now) == confirm_verdict(pending, other, now),
{
}

} // verus!
