use vstd::prelude::*;

verus! {

/// The errors with which the contract refuses a request.
#[derive(Clone, Copy, Debug, PartialEq, Eq, Structural)]
pub enum EscrowError {
    NotInitialized,
    Unauthorized,
    AlreadyInitialized,
    EscrowNotFound,
    EscrowAlreadyExists,
    EscrowNotPending,
    EscrowNotDisputed,
    DisputeWindowClosed,
    ClaimTooEarly,
    AutoClaimDisabled,
    InvalidAmount,
}

impl EscrowError {
    /// The number under which the contract reports this error to the host.
    pub open spec fn spec_code(self) -> u32 {
        match self {
            EscrowError::NotInitialized => 1,
            EscrowError::Unauthorized => 2,
            EscrowError::AlreadyInitialized => 3,
            EscrowError::EscrowNotFound => 4,
            EscrowError::EscrowAlreadyExists => 5,
            EscrowError::EscrowNotPending => 6,
            EscrowError::EscrowNotDisputed => 7,
            EscrowError::DisputeWindowClosed => 8,
            EscrowError::ClaimTooEarly => 9,
            EscrowError::AutoClaimDisabled => 10,
            EscrowError::InvalidAmount => 11,
        }
    }

    pub fn code(&self) -> (c: u32)
        ensures
            c == self.spec_code(),
    {
        match self {
            EscrowError::NotInitialized => 1,
            EscrowError::Unauthorized => 2,
            EscrowError::AlreadyInitialized => 3,
            EscrowError::EscrowNotFound => 4,
            EscrowError::EscrowAlreadyExists => 5,
            EscrowError::EscrowNotPending => 6,
            EscrowError::EscrowNotDisputed => 7,
            EscrowError::DisputeWindowClosed => 8,
            EscrowError::ClaimTooEarly => 9,
            EscrowError::AutoClaimDisabled => 10,
            EscrowError::InvalidAmount => 11,
        }
    }
}

/// Where an escrow stands.
#[derive(Clone, Copy, Debug, PartialEq, Eq, Structural)]
pub enum EscrowStatus {
    /// The funds are held and no dispute has been raised.
    Pending,
    /// The funds went to the beneficiary.
    Released,
    /// The funds went back to the depositor.
    Refunded,
    /// A party disputes the escrow; the administrator decides where the funds go.
    Disputed,
}

/// One escrow, as the contract records it. Accounts are written as their
/// string keys.
#[derive(Debug)]
pub struct Escrow {
    pub id: String,
    pub depositor: String,
    pub beneficiary: String,
    pub amount: i128,
    pub description: String,
    pub status: EscrowStatus,
    /// Ledger time at which the escrow was created.
    pub created_at: u64,
    /// Seconds after creation during which a dispute may be raised; `0`
    /// means that disputes are disabled for this escrow.
    pub dispute_window: u64,
    /// Ledger time from which the beneficiary may claim the funds itself;
    /// `0` means that only the administrator can release them.
    pub release_after: u64,
    pub dispute_raised_at: Option<u64>,
    pub resolved_at: Option<u64>,
}

impl Clone for Escrow {
    fn clone(&self) -> (r: Self)
        ensures
            r == *self,
    {
        Escrow {
            id: self.id.clone(),
            depositor: self.depositor.clone(),
            beneficiary: self.beneficiary.clone(),
            amount: self.amount,
            description: self.description.clone(),
            status: self.status,
            created_at: self.created_at,
            dispute_window: self.dispute_window,
            release_after: self.release_after,
            dispute_raised_at: self.dispute_raised_at,
            resolved_at: self.resolved_at,
        }
    }
}

/// The contract-wide settings that `initialize` records.
#[derive(Debug)]
pub struct Config {
    pub admin: String,
    pub payment_token: String,
    /// The dispute window given to escrows created from now on.
    pub dispute_window: u64,
}

/// A movement of the payment token that the host performs for an accepted
/// request. The contract's own account is the other side of each movement.
#[derive(Debug, PartialEq, Eq)]
pub enum Transfer {
    /// `amount` moves from `from` into the contract's account.
    Deposit { from: String, amount: i128 },
    /// `amount` moves from the contract's account to `to`.
    Payout { to: String, amount: i128 },
}

} // verus!
