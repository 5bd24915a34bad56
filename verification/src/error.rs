use vstd::prelude::*;

verus! {

/// Why an operation of the lottery was rejected.
#[derive(Clone, Copy, Debug, PartialEq, Eq, Structural)]
pub enum ErrorCode {
    /// Deposits are closed: the round is within the lock window before its end.
    BettingClosed,
    /// The amount is below the pool's minimum; also "nothing to claim".
    BelowMinimum,
    /// A deposit record already exists for this user, pool and round.
    AlreadyDeposited,
    /// The round has not reached its end time.
    TooEarlyForDraw,
    /// The number of participant records differs from the pool's counters.
    ParticipantCountMismatch,
    /// A participant record belongs to another pool or is not usable.
    InvalidParticipant,
    /// No promotional eligibility is left for this user.
    NoFreeBetAvailable,
    /// A promotional bet is already active for this user and pool.
    FreeBetAlreadyActive,
    /// An amount, counter or timestamp left its integer range.
    MathOverflow,
    /// The pool identifier is not 0, 1 or 2.
    InvalidPoolType,
    /// A record carries another round number.
    WrongRoundNumber,
    /// The vault supplied is not the pool's vault.
    VaultMismatch,
    /// The vault supplied is not the platform's fee vault.
    PlatformVaultMismatch,
    /// The vault supplied is not the vault that funds promotional bets.
    AirdropVaultMismatch,
    /// The token supplied is not the lottery's token.
    MintMismatch,
    /// Enough participants joined: the round must be drawn.
    ShouldUseDraw,
    /// Too few participants joined: the round must be refunded.
    ShouldUseRefund,
    /// Promotional bets exist in the daily pool only.
    FreeBetDailyOnly,
    /// The vault supplied is not the prize escrow.
    PrizeEscrowMismatch,
    /// The vault supplied is not the vault that funds referrals.
    ReferralVaultMismatch,
    /// The vault supplied is not the reserve that matches daily deposits.
    ReserveVaultMismatch,
    /// The whole prize of this slot was paid out already.
    AlreadyFullyClaimed,
    /// The winner slot is not one of 0 to 5.
    InvalidWinnerIndex,
    /// The payout account does not belong to the recorded winner.
    WinnerTokenMismatch,
    /// The deposit records no referrer (or it was paid already).
    NoReferral,
    /// The payout account is not the recorded referrer.
    ReferrerMismatch,
}

} // verus!
