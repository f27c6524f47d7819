//! The values that the contract works on.

use vstd::prelude::*;

verus! {

/// Thirty-two bytes, held as two big-endian halves.
#[derive(Clone, Copy, Debug, PartialEq, Eq, Structural)]
pub struct Bytes32 {
    pub high: u128,
    pub low: u128,
}

/// An address on the ledger: the public key of an account, or the id of a
/// contract. Two addresses are the same party exactly when they are equal.
#[derive(Clone, Copy, Debug, PartialEq, Eq, Structural)]
pub enum Address {
    Account(Bytes32),
    Contract(Bytes32),
}

/// A short name of at most thirty-two ASCII letters, digits and underscores:
/// its characters, padded on the right with zero bytes.
#[derive(Clone, Copy, Debug, PartialEq, Eq, Structural)]
pub struct Symbol {
    pub bytes: Bytes32,
}

impl Symbol {
    /// The name without characters.
    pub open spec fn spec_empty() -> Symbol {
        Symbol { bytes: Bytes32 { high: 0, low: 0 } }
    }

    /// Returns the name without characters.
    pub fn empty() -> (symbol: Symbol)
        ensures
            symbol == Symbol::spec_empty(),
    {
        Symbol { bytes: Bytes32 { high: 0, low: 0 } }
    }
}

/// Where an escrow stands in its life.
#[derive(Clone, Copy, Debug, PartialEq, Eq, Structural)]
pub enum EscrowStatus {
    Active,
    Released,
    Disputed,
    Refunded,
    /// The dispute was settled by the admin through `resolve_dispute`.
    Resolved,
}

impl EscrowStatus {
    /// Whether the contract still holds tokens for an escrow in this state.
    pub open spec fn is_open(self) -> bool {
        self == EscrowStatus::Active || self == EscrowStatus::Disputed
    }
}

/// One escrow, as the ledger keeps it.
#[derive(Clone, Copy, Debug, PartialEq, Eq, Structural)]
pub struct Escrow {
    pub id: u64,
    pub mentor: Address,
    pub learner: Address,
    /// What is left of the deposit after what was released to the mentor.
    pub amount: i128,
    pub session_id: Symbol,
    pub status: EscrowStatus,
    pub created_at: u64,
    pub token_address: Address,
    /// Platform fee deducted so far (0 until something is released). Once the
    /// escrow is `Resolved`: the learner's share.
    pub platform_fee: i128,
    /// What was sent to the mentor after the fee (0 until something is
    /// released). Once the escrow is `Resolved`: the mentor's share.
    pub net_amount: i128,
    /// Unix timestamp (seconds) at which the session ends.
    pub session_end_time: u64,
    /// Seconds after `session_end_time` before auto-release may trigger.
    pub auto_release_delay: u64,
    /// The reason given when a dispute was opened (empty by default).
    pub dispute_reason: Symbol,
    /// Unix timestamp (seconds) at which the dispute was resolved (0 until then).
    pub resolved_at: u64,
}

} // verus!
