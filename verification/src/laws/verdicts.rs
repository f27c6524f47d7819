//! When a call goes through, and with which error it is rejected otherwise.

use vstd::prelude::*;

use crate::error::EscrowError;
use crate::host::EnvView;
use crate::ledger::DataKey;
use crate::types::{Address, Escrow, EscrowStatus, Symbol};

verus! {

/// An initialization goes through exactly where there is no admin yet and the fee
/// is at most 1 000 basis points.
pub proof fn initialization_verdict(env: EnvView, fee_bps: u32)
    ensures
        ({
            let initialized = env.ledger.entries.contains_key(DataKey::Admin);
            let result = env.initialize_result(fee_bps);
            &&& result is Ok <==> !initialized && fee_bps <= 1_000
            &&& result == Err::<(), EscrowError>(EscrowError::AlreadyInitialized) <==> initialized
            &&& result == Err::<(), EscrowError>(EscrowError::FeeExceedsMaximum) <==> !initialized
                && fee_bps > 1_000
        }),
{
}

/// A change of settings goes through exactly where there is an admin and, for the
/// fee, it is at most 1 000 basis points.
pub proof fn settings_verdict(env: EnvView, new_fee_bps: u32)
    ensures
        ({
            let initialized = env.ledger.admin() is Some;
            let fee = env.update_fee_result(new_fee_bps);
            let other = env.admin_result();
            &&& fee is Ok <==> initialized && new_fee_bps <= 1_000
            &&& fee == Err::<(), EscrowError>(EscrowError::NotInitialized) <==> !initialized
            &&& fee == Err::<(), EscrowError>(EscrowError::FeeExceedsMaximum) <==> initialized
                && new_fee_bps > 1_000
            &&& other is Ok <==> initialized
            &&& other == Err::<(), EscrowError>(EscrowError::NotInitialized) <==> !initialized
        }),
{
}

/// A creation goes through exactly where the amount is positive, the token is
/// approved, the token says that the learner has the amount, the session is free,
/// and there is another id; it returns the id after the last one. Where several of
/// these fail, the first of them in this order is the error.
pub proof fn creation_verdict(
    env: EnvView,
    learner: Address,
    amount: i128,
    session_id: Symbol,
    token_address: Address,
)
    ensures
        ({
            let result = env.create_escrow_result(learner, amount, session_id, token_address);
            let positive = amount > 0;
            let approved = positive && env.ledger.token_approved(token_address);
            let answered = approved && env.balances.contains_key((token_address, learner));
            let affordable = answered && env.balances[(token_address, learner)] >= amount;
            let free = affordable && !env.ledger.entries.contains_key(DataKey::Session(session_id));
            let numbered = free && env.ledger.escrow_count() < u64::MAX;
            &&& result is Ok <==> numbered
            &&& result is Ok ==> result->Ok_0 == env.ledger.escrow_count() + 1
            &&& result == Err::<u64, EscrowError>(EscrowError::AmountNotPositive) <==> !positive
            &&& result == Err::<u64, EscrowError>(EscrowError::TokenNotApproved) <==> positive
                && !approved
            &&& result == Err::<u64, EscrowError>(EscrowError::BalanceUnavailable) <==> approved
                && !answered
            &&& result == Err::<u64, EscrowError>(EscrowError::InsufficientBalance) <==> answered
                && !affordable
            &&& result == Err::<u64, EscrowError>(EscrowError::SessionIdExists) <==> affordable
                && !free
            &&& result == Err::<u64, EscrowError>(EscrowError::CounterOverflow) <==> free
                && !numbered
        }),
{
}

/// What the verdict on an active escrow rests on.
proof fn lemma_active(env: EnvView, id: u64)
    requires
        env.ledger.consistent(),
        env.ledger.escrow(id) is Some,
    ensures
        env.ledger.admin() is Some,
        env.ledger.treasury() is Some,
        env.ledger.escrow(id)->0.sound(id),
        env.ledger.fee_bps() <= 1_000,
{
    assert(env.ledger.entries.contains_key(DataKey::Escrow(id)));
    assert(env.ledger.entries.contains_key(DataKey::Admin));
    assert(env.ledger.entries.contains_key(DataKey::Treasury));
}

/// On a sound record a payout fails only where its fee cannot be computed.
proof fn lemma_payout_verdict(env: EnvView, id: u64, amount: i128)
    requires
        env.ledger.consistent(),
        env.active_escrow(id) is Ok,
        0 < amount <= env.ledger.escrow(id)->0.amount,
    ensures
        ({
            let result = env.payout_result(env.ledger.escrow(id)->0, amount);
            &&& result is Ok <==> amount * env.ledger.fee_bps() <= i128::MAX
            &&& result is Err ==> result == Err::<(), EscrowError>(EscrowError::Overflow)
        }),
{
    lemma_active(env, id);
    let fee_bps = env.ledger.fee_bps();
    crate::laws::splits::fee_split(amount as int, fee_bps as int);
    assert(amount * fee_bps >= 0) by (nonlinear_arith)
        requires
            amount >= 0,
            fee_bps >= 0,
    ;
}

/// A partial release of an active escrow goes through exactly where the amount is
/// positive and at most what the escrow holds, the caller is the learner or the
/// admin, and the fee on the amount can be computed.
pub proof fn partial_release_verdict(env: EnvView, caller: Address, id: u64, amount: i128)
    requires
        env.ledger.consistent(),
    ensures
        ({
            let result = env.release_partial_result(caller, id, amount);
            let there = env.ledger.escrow(id) is Some;
            let escrow = env.ledger.escrow(id)->0;
            let active = there && escrow.status == EscrowStatus::Active;
            let valid = active && 0 < amount && amount <= escrow.amount;
            let allowed = valid && (caller == escrow.learner || Some(caller)
                == env.ledger.admin());
            let computable = allowed && amount * env.ledger.fee_bps() <= i128::MAX;
            &&& result is Ok <==> computable
            &&& result == Err::<(), EscrowError>(EscrowError::EscrowNotFound) <==> !there
            &&& result == Err::<(), EscrowError>(EscrowError::EscrowNotActive) <==> there && !active
            &&& result == Err::<(), EscrowError>(EscrowError::InvalidReleaseAmount) <==> active
                && !valid
            &&& result == Err::<(), EscrowError>(EscrowError::CallerNotAuthorized) <==> valid
                && !allowed
            &&& result == Err::<(), EscrowError>(EscrowError::Overflow) <==> allowed && !computable
        }),
{
    if env.active_escrow(id) is Ok {
        lemma_active(env, id);
        if 0 < amount <= env.ledger.escrow(id)->0.amount {
            lemma_payout_verdict(env, id, amount);
        }
    }
}

/// A release of all that an escrow holds goes through exactly where the escrow is
/// active, the caller is the learner or the admin, and the fee can be computed.
pub proof fn release_verdict(env: EnvView, caller: Address, id: u64)
    requires
        env.ledger.consistent(),
    ensures
        ({
            let result = env.release_funds_result(caller, id);
            let there = env.ledger.escrow(id) is Some;
            let escrow = env.ledger.escrow(id)->0;
            let active = there && escrow.status == EscrowStatus::Active;
            let allowed = active && (caller == escrow.learner || Some(caller)
                == env.ledger.admin());
            let computable = allowed && escrow.amount * env.ledger.fee_bps() <= i128::MAX;
            &&& result is Ok <==> computable
            &&& result == Err::<(), EscrowError>(EscrowError::EscrowNotFound) <==> !there
            &&& result == Err::<(), EscrowError>(EscrowError::EscrowNotActive) <==> there && !active
            &&& result == Err::<(), EscrowError>(EscrowError::CallerNotAuthorized) <==> active
                && !allowed
            &&& result == Err::<(), EscrowError>(EscrowError::Overflow) <==> allowed && !computable
        }),
{
    if env.active_escrow(id) is Ok {
        lemma_active(env, id);
        lemma_payout_verdict(env, id, env.ledger.escrow(id)->0.amount);
    }
}

/// A release on the word of the admin goes through exactly where the escrow is
/// active and the fee can be computed.
pub proof fn admin_release_verdict(env: EnvView, id: u64)
    requires
        env.ledger.consistent(),
    ensures
        ({
            let result = env.admin_release_result(id);
            let there = env.ledger.escrow(id) is Some;
            let escrow = env.ledger.escrow(id)->0;
            let active = there && escrow.status == EscrowStatus::Active;
            let computable = active && escrow.amount * env.ledger.fee_bps() <= i128::MAX;
            &&& result is Ok <==> computable
            &&& result == Err::<(), EscrowError>(EscrowError::EscrowNotFound) <==> !there
            &&& result == Err::<(), EscrowError>(EscrowError::EscrowNotActive) <==> there && !active
            &&& result == Err::<(), EscrowError>(EscrowError::Overflow) <==> active && !computable
        }),
{
    if env.active_escrow(id) is Ok {
        lemma_active(env, id);
        lemma_payout_verdict(env, id, env.ledger.escrow(id)->0.amount);
    }
}

/// An auto-release goes through exactly where the escrow is active, the session
/// ended at least the delay of the escrow ago, and the fee can be computed.
pub proof fn auto_release_verdict(env: EnvView, id: u64)
    requires
        env.ledger.consistent(),
    ensures
        ({
            let result = env.try_auto_release_result(id);
            let there = env.ledger.escrow(id) is Some;
            let escrow = env.ledger.escrow(id)->0;
            let active = there && escrow.status == EscrowStatus::Active;
            let opens = escrow.session_end_time + escrow.auto_release_delay;
            let open = active && env.timestamp >= opens;
            let computable = open && escrow.amount * env.ledger.fee_bps() <= i128::MAX;
            &&& result is Ok <==> computable
            &&& result == Err::<(), EscrowError>(EscrowError::EscrowNotFound) <==> !there
            &&& result == Err::<(), EscrowError>(EscrowError::EscrowNotActive) <==> there && !active
            &&& result == Err::<(), EscrowError>(EscrowError::TimestampOverflow) <==> active && opens
                > u64::MAX
            &&& result == Err::<(), EscrowError>(EscrowError::AutoReleaseTooEarly) <==> active
                && opens <= u64::MAX && !open
            &&& result == Err::<(), EscrowError>(EscrowError::Overflow) <==> open && !computable
        }),
{
    if env.active_escrow(id) is Ok {
        lemma_active(env, id);
        lemma_payout_verdict(env, id, env.ledger.escrow(id)->0.amount);
    }
}

/// A dispute over an active escrow goes through exactly where the caller is its
/// mentor or its learner, at any time.
pub proof fn dispute_verdict(env: EnvView, caller: Address, id: u64)
    ensures
        ({
            let result = env.dispute_result(caller, id);
            let there = env.ledger.escrow(id) is Some;
            let escrow = env.ledger.escrow(id)->0;
            let active = there && escrow.status == EscrowStatus::Active;
            let party = active && (caller == escrow.mentor || caller == escrow.learner);
            &&& result is Ok <==> party
            &&& result == Err::<(), EscrowError>(EscrowError::EscrowNotFound) <==> !there
            &&& result == Err::<(), EscrowError>(EscrowError::EscrowNotActive) <==> there && !active
            &&& result == Err::<(), EscrowError>(EscrowError::CallerNotParty) <==> active && !party
        }),
{
}

/// A dispute can be settled exactly where the contract is initialized, the escrow
/// is disputed, and the percentage is at most 100.
pub proof fn settlement_verdict(env: EnvView, id: u64, mentor_pct: u32)
    ensures
        ({
            let result = env.resolve_dispute_result(id, mentor_pct);
            let initialized = env.ledger.admin() is Some;
            let there = initialized && env.ledger.escrow(id) is Some;
            let disputed = there && env.ledger.escrow(id)->0.status == EscrowStatus::Disputed;
            &&& result is Ok <==> disputed && mentor_pct <= 100
            &&& result == Err::<(), EscrowError>(EscrowError::NotInitialized) <==> !initialized
            &&& result == Err::<(), EscrowError>(EscrowError::EscrowNotFound) <==> initialized
                && !there
            &&& result == Err::<(), EscrowError>(EscrowError::EscrowNotDisputed) <==> there
                && !disputed
            &&& result == Err::<(), EscrowError>(EscrowError::PercentageTooHigh) <==> disputed
                && mentor_pct > 100
        }),
{
}

/// A refund goes through exactly where the contract is initialized and the escrow
/// is active or disputed.
pub proof fn refund_verdict(env: EnvView, id: u64)
    ensures
        ({
            let result = env.refund_result(id);
            let initialized = env.ledger.admin() is Some;
            let there = initialized && env.ledger.escrow(id) is Some;
            let status = env.ledger.escrow(id)->0.status;
            let open = there && (status == EscrowStatus::Active || status
                == EscrowStatus::Disputed);
            &&& result is Ok <==> open
            &&& result == Err::<(), EscrowError>(EscrowError::AdminNotFound) <==> !initialized
            &&& result == Err::<(), EscrowError>(EscrowError::EscrowNotFound) <==> initialized
                && !there
            &&& result == Err::<(), EscrowError>(EscrowError::CannotRefund) <==> there && !open
        }),
{
}

/// A review goes through exactly where the caller is the learner of a released
/// escrow.
pub proof fn review_verdict(env: EnvView, caller: Address, id: u64)
    ensures
        ({
            let result = env.submit_review_result(caller, id);
            let there = env.ledger.escrow(id) is Some;
            let escrow = env.ledger.escrow(id)->0;
            let learner = there && caller == escrow.learner;
            &&& result is Ok <==> learner && escrow.status == EscrowStatus::Released
            &&& result == Err::<(), EscrowError>(EscrowError::EscrowNotFound) <==> !there
            &&& result == Err::<(), EscrowError>(EscrowError::ReviewerNotLearner) <==> there
                && !learner
            &&& result == Err::<(), EscrowError>(EscrowError::EscrowNotReleased) <==> learner
                && escrow.status != EscrowStatus::Released
        }),
{
}

/// The queries for an escrow and for the treasury fail exactly where there is none.
pub proof fn query_verdict(env: EnvView, id: u64, escrow: Escrow, treasury: Address)
    ensures
        env.get_escrow_result(id) == Ok::<Escrow, EscrowError>(escrow) <==> env.ledger.escrow(id)
            == Some(escrow),
        env.get_escrow_result(id) == Err::<Escrow, EscrowError>(EscrowError::EscrowNotFound)
            <==> env.ledger.escrow(id) is None,
        env.get_treasury_result() == Ok::<Address, EscrowError>(treasury)
            <==> env.ledger.treasury() == Some(treasury),
        env.get_treasury_result() == Err::<Address, EscrowError>(EscrowError::TreasuryNotSet)
            <==> env.ledger.treasury() is None,
{
}

} // verus!
