use vstd::prelude::*;

verus! {

/// Every way an operation of the engine can be refused. Each refusal aborts
/// the whole operation: no state is changed.
#[derive(Clone, Copy, Debug, PartialEq, Eq, Structural)]
pub enum WinError {
    InvalidTokenOwner,
    InvalidTokenMint,
    AccessDenied,
    InsufficientTokenBalance,
    InsufficientSolBalance,
    InvalidArgs,
    InvalidProof,
    EmergencyStatus,
    InvalidAccount,
    GameIsNotOpenedStatus,
    GameIsNotClosedStatus,
    GameIsNotCancelledStatus,
    NftAlreadyClaimed,
    GameIsInProgress,
    AlreadyGameEnd,
    InsufficientGameMoney,
    UnableToCreateGame,
    ClaimedAlready,
    WrongVaule,
    WrongMetadata,
    NoWingsNft,
    NumericalOverflow,
    PublicKeyMismatch,
    IncorrectOwner,
    UninitializedAccount,
    NoFreelyTicketNft,
    NoUnstakeFreelyTicketNft,
    NoTicketAmount,
    NoGameNft,
    AlreadyReceivedGameDistribution,
    InvalidAmount,
    InvalidBonusTicketAmount,
    /// A bid carried a sequence number other than the next expected one.
    InvalidSequence,
}

} // verus!
