//! The loop that keeps the encryption of a client up to date.

use vstd::prelude::*;

verus! {

/// Why the loop ended.
pub enum EncryptionSyncTerminationReason {
    /// There is nothing more to do.
    Done,
    /// There was an error, and all retries failed too.
    Error { msg: String },
}

/// Told when the loop ended and has to be started again.
pub trait EncryptionSyncListener {
    fn did_terminate(&self, reason: EncryptionSyncTerminationReason);
}

/// How often the loop runs.
#[derive(Clone, Copy, Debug, PartialEq, Eq, Structural)]
pub enum EncryptionSyncMode {
    /// This many times.
    RunFixedIterations { num_iters: u8 },
    /// Until it is stopped.
    NeverStop,
}

impl EncryptionSyncMode {
    /// How often the loop of the application runs.
    pub fn main() -> (r: EncryptionSyncMode)
        ensures
            r == EncryptionSyncMode::NeverStop,
    {
        EncryptionSyncMode::NeverStop
    }

    /// How often the loop of a notification process runs.
    pub fn notification(num_iters: u8) -> (r: EncryptionSyncMode)
        ensures
            r == (EncryptionSyncMode::RunFixedIterations { num_iters }),
    {
        EncryptionSyncMode::RunFixedIterations { num_iters }
    }
}

/// What one round of the loop came to.
pub enum EncryptionSyncRound {
    /// All went well.
    Synced,
    /// There are no more rounds.
    Ended,
    /// There was an error, with this text.
    Failed { msg: String },
}

/// Why the loop ends with a round, if it does.
pub open spec fn termination_of(round: EncryptionSyncRound) -> Option<
    EncryptionSyncTerminationReason,
> {
    match round {
        EncryptionSyncRound::Synced => None,
        EncryptionSyncRound::Ended => Some(EncryptionSyncTerminationReason::Done),
        EncryptionSyncRound::Failed { msg } => Some(EncryptionSyncTerminationReason::Error { msg }),
    }
}

/// Why the loop ends with a round, if it does.
pub fn after_round(round: EncryptionSyncRound) -> (r: Option<EncryptionSyncTerminationReason>)
    ensures
        r == termination_of(round),
{
    match round {
        EncryptionSyncRound::Synced => None,
        EncryptionSyncRound::Ended => Some(EncryptionSyncTerminationReason::Done),
        EncryptionSyncRound::Failed { msg } => Some(EncryptionSyncTerminationReason::Error { msg }),
    }
}

/// The sync goes on as long as it succeeds, and tells why it does not go on any more: that it
/// is done, or what failed.
pub proof fn the_sync_goes_on_while_it_succeeds(
    msg: String,
    synced: Option<EncryptionSyncTerminationReason>,
    ended: Option<EncryptionSyncTerminationReason>,
    failed: Option<EncryptionSyncTerminationReason>,
    num_iters: u8,
    few: EncryptionSyncMode,
    many: EncryptionSyncMode,
)
    requires
        call_ensures(after_round, (EncryptionSyncRound::Synced,), synced),
        call_ensures(after_round, (EncryptionSyncRound::Ended,), ended),
        call_ensures(after_round, (EncryptionSyncRound::Failed { msg },), failed),
        call_ensures(EncryptionSyncMode::notification, (num_iters,), few),
        call_ensures(EncryptionSyncMode::main, (), many),
    ensures
        synced is None,
        ended matches Some(reason) && reason is Done,
        failed == Some(EncryptionSyncTerminationReason::Error { msg }),
        few == (EncryptionSyncMode::RunFixedIterations { num_iters }),
        many is NeverStop,
{
}

} // verus!
