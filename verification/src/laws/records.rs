//! What a call leaves on record.

use vstd::prelude::*;

use crate::call::{Call, Reply};
use crate::error::EscrowError;
use crate::host::EnvView;
use crate::ledger::{DataKey, Entry, LedgerView};
use crate::types::{Address, Bytes32, Escrow, EscrowStatus, Symbol};

verus! {

/// Whether `after` differs from `before` at most in what the two keep under `key`.
pub open spec fn only_changed(before: LedgerView, after: LedgerView, key: DataKey) -> bool {
    forall|other: DataKey| other != key ==> #[trigger] after.get(other) == before.get(other)
}

/// What approving a list of tokens leaves under the key of an approval.
proof fn lemma_approvals_on_record(ledger: LedgerView, tokens: Seq<Address>, token: Address)
    ensures
        ledger.write_all(
            tokens.map_values(|approved: Address| Entry::ApprovedToken(approved, true)),
        ).get(DataKey::ApprovedToken(token)) == if tokens.contains(token) {
            Some(Entry::ApprovedToken(token, true))
        } else {
            ledger.get(DataKey::ApprovedToken(token))
        },
    decreases tokens.len(),
{
    let entry = |approved: Address| Entry::ApprovedToken(approved, true);
    let entries = tokens.map_values(entry);
    if tokens.len() > 0 {
        let earlier = tokens.drop_last();
        lemma_approvals_on_record(ledger, earlier, token);
        assert(entries.drop_last() == earlier.map_values(entry));
        assert(entries.last() == entry(tokens.last()));
        if tokens.contains(token) && token != tokens.last() {
            let i = choose|i: int| 0 <= i < tokens.len() && tokens[i] == token;
            assert(earlier[i] == token);
        }
        if earlier.contains(token) {
            let i = choose|i: int| 0 <= i < earlier.len() && earlier[i] == token;
            assert(tokens[i] == token);
        }
        assert(tokens[tokens.len() - 1] == tokens.last());
    }
}

/// An accepted initialization leaves exactly its arguments on record: the admin,
/// the treasury, the fee, the delay in seconds (72 hours where 0 was given), the
/// number 0 of escrows, and an approval of each token in its list.
pub proof fn initialization_on_record(call: Call, env: EnvView, key: DataKey)
    requires
        call is Initialize,
        call.accepted(env),
    ensures
        match call {
            Call::Initialize {
                admin,
                treasury,
                fee_bps,
                approved_tokens,
                auto_release_delay_secs,
            } => call.after(env).get(key) == match key {
                DataKey::Admin => Some(Entry::Admin(admin)),
                DataKey::Treasury => Some(Entry::Treasury(treasury)),
                DataKey::FeeBps => Some(Entry::FeeBps(fee_bps)),
                DataKey::EscrowCount => Some(Entry::EscrowCount(0)),
                DataKey::AutoReleaseDelay => Some(
                    Entry::AutoReleaseDelay(
                        if auto_release_delay_secs == 0 {
                            259_200
                        } else {
                            auto_release_delay_secs
                        },
                    ),
                ),
                DataKey::ApprovedToken(token) if approved_tokens@.contains(token) => Some(
                    Entry::ApprovedToken(token, true),
                ),
                _ => env.ledger.get(key),
            },
            _ => false,
        },
{
    match call {
        Call::Initialize {
            admin,
            treasury,
            fee_bps,
            approved_tokens,
            auto_release_delay_secs,
        } => {
            match key {
                DataKey::ApprovedToken(token) => {
                    crate::laws::effects::call_effect(call, env);
                    lemma_approvals_on_record(
                        env.ledger.set_up(admin, treasury, fee_bps, auto_release_delay_secs),
                        approved_tokens@,
                        token,
                    );
                },
                _ => crate::laws::effects::initialization_sets(call, env, key),
            }
        },
        _ => {},
    }
}

/// A changed setting is kept under its key, and nothing else changes.
pub proof fn settings_on_record(
    env: EnvView,
    new_fee_bps: u32,
    new_treasury: Address,
    token_address: Address,
    approved: bool,
)
    requires
        env.ledger.admin() is Some,
        new_fee_bps <= 1_000,
    ensures
        ({
            let fee = Call::UpdateFee { new_fee_bps }.after(env);
            let treasury = Call::UpdateTreasury { new_treasury }.after(env);
            let approval = Call::SetApprovedToken { token_address, approved }.after(env);
            &&& fee.get(DataKey::FeeBps) == Some(Entry::FeeBps(new_fee_bps))
            &&& only_changed(env.ledger, fee, DataKey::FeeBps)
            &&& treasury.get(DataKey::Treasury) == Some(Entry::Treasury(new_treasury))
            &&& only_changed(env.ledger, treasury, DataKey::Treasury)
            &&& approval.get(DataKey::ApprovedToken(token_address)) == Some(
                Entry::ApprovedToken(token_address, approved),
            )
            &&& only_changed(env.ledger, approval, DataKey::ApprovedToken(token_address))
        }),
{
    crate::laws::effects::call_effect(Call::UpdateFee { new_fee_bps }, env);
    crate::laws::effects::call_effect(Call::UpdateTreasury { new_treasury }, env);
    crate::laws::effects::call_effect(Call::SetApprovedToken { token_address, approved }, env);
}

/// An accepted creation leaves under the id that it returns an active escrow on
/// the terms of its arguments: created now, with nothing paid out yet, and with the
/// auto-release delay that the query for it gave just before. The session is taken,
/// the escrow is counted, and nothing else changes.
pub proof fn creation_on_record(
    env: EnvView,
    mentor: Address,
    learner: Address,
    amount: i128,
    session_id: Symbol,
    token_address: Address,
    session_end_time: u64,
)
    requires
        env.create_escrow_result(learner, amount, session_id, token_address) is Ok,
    ensures
        ({
            let id = env.create_escrow_result(learner, amount, session_id, token_address)->Ok_0;
            let call = Call::CreateEscrow {
                mentor,
                learner,
                amount,
                session_id,
                token_address,
                session_end_time,
            };
            let after = call.after(env);
            let escrow = after.escrow(id)->0;
            &&& after.get(DataKey::Escrow(id)) == Some(Entry::Escrow(id, escrow))
            &&& escrow.id == id
            &&& escrow.mentor == mentor
            &&& escrow.learner == learner
            &&& escrow.amount == amount
            &&& escrow.session_id == session_id
            &&& escrow.status == EscrowStatus::Active
            &&& escrow.created_at == env.timestamp
            &&& escrow.token_address == token_address
            &&& escrow.platform_fee == 0
            &&& escrow.net_amount == 0
            &&& escrow.session_end_time == session_end_time
            &&& Call::GetAutoReleaseDelay.result(env) == Ok::<Reply, EscrowError>(
                Reply::Number(escrow.auto_release_delay as int),
            )
            &&& escrow.auto_release_delay == env.ledger.auto_release_delay()
            &&& escrow.dispute_reason == (Symbol { bytes: Bytes32 { high: 0, low: 0 } })
            &&& escrow.resolved_at == 0
            &&& id == env.ledger.escrow_count() + 1
            &&& after.get(DataKey::EscrowCount) == Some(Entry::EscrowCount(id))
            &&& after.get(DataKey::Session(session_id)) == Some(Entry::Session(session_id))
            &&& forall|other: DataKey|
                other != DataKey::Escrow(id) && other != DataKey::EscrowCount && other
                    != DataKey::Session(session_id) ==> #[trigger] after.get(other)
                    == env.ledger.get(other)
        }),
{
    crate::laws::effects::call_effect(
        Call::CreateEscrow {
            mentor,
            learner,
            amount,
            session_id,
            token_address,
            session_end_time,
        },
        env,
    );
}

/// The record of an escrow out of which `amount` was paid at `fee_bps`: the amount
/// has left what it holds, `amount * fee_bps / 10_000` of it is added to the fee and
/// the rest to what the mentor got, it is released exactly where nothing is left,
/// and all else stays.
pub open spec fn paid_out_of(before: Escrow, after: Escrow, amount: int, fee_bps: int) -> bool {
    let fee = (amount * fee_bps) / 10_000;
    &&& after.amount == before.amount - amount
    &&& after.platform_fee == before.platform_fee + fee
    &&& after.net_amount == before.net_amount + amount - fee
    &&& after.status == if amount == before.amount {
        EscrowStatus::Released
    } else {
        EscrowStatus::Active
    }
    &&& after == Escrow {
        amount: after.amount,
        platform_fee: after.platform_fee,
        net_amount: after.net_amount,
        status: after.status,
        ..before
    }
}

proof fn lemma_payout_on_record(env: EnvView, id: u64, amount: i128)
    requires
        env.ledger.consistent(),
        env.active_escrow(id) is Ok,
        0 < amount <= env.ledger.escrow(id)->0.amount,
    ensures
        ({
            let before = env.ledger.escrow(id)->0;
            let fee_bps = env.ledger.fee_bps() as int;
            paid_out_of(before, before.after_payout(amount as int, fee_bps), amount as int, fee_bps)
        }),
{
    assert(env.ledger.entries.contains_key(DataKey::Escrow(id)));
    crate::laws::splits::fee_split(amount as int, env.ledger.fee_bps() as int);
}

/// An accepted partial release puts on the record of the escrow what was paid out
/// of it, and changes nothing else.
pub proof fn partial_release_on_record(env: EnvView, caller: Address, id: u64, amount: i128)
    requires
        env.ledger.consistent(),
        env.release_partial_result(caller, id, amount) is Ok,
    ensures
        ({
            let call = Call::ReleasePartial { caller, escrow_id: id, amount_to_release: amount };
            let after = call.after(env);
            &&& after.escrow(id) is Some
            &&& paid_out_of(
                env.ledger.escrow(id)->0,
                after.escrow(id)->0,
                amount as int,
                env.ledger.fee_bps() as int,
            )
            &&& only_changed(env.ledger, after, DataKey::Escrow(id))
        }),
{
    let call = Call::ReleasePartial { caller, escrow_id: id, amount_to_release: amount };
    crate::laws::effects::call_effect(call, env);
    lemma_payout_on_record(env, id, amount);
}

/// An accepted release of all that an escrow holds, of either kind, puts on the
/// record of the escrow what was paid out of it, and changes nothing else.
pub proof fn release_on_record(env: EnvView, call: Call, id: u64)
    requires
        env.ledger.consistent(),
        call is ReleaseFunds || call is AdminRelease || call is TryAutoRelease,
        call.escrow_id() == Some(id),
        call.accepted(env),
    ensures
        ({
            let before = env.ledger.escrow(id)->0;
            let after = call.after(env);
            &&& after.escrow(id) is Some
            &&& paid_out_of(
                before,
                after.escrow(id)->0,
                before.amount as int,
                env.ledger.fee_bps() as int,
            )
            &&& only_changed(env.ledger, after, DataKey::Escrow(id))
        }),
{
    crate::laws::effects::call_effect(call, env);
    assert(env.ledger.entries.contains_key(DataKey::Escrow(id)));
    lemma_payout_on_record(env, id, env.ledger.escrow(id)->0.amount);
}

/// An accepted dispute puts the escrow into dispute for the reason given, and
/// changes nothing else.
pub proof fn dispute_on_record(env: EnvView, caller: Address, id: u64, reason: Symbol)
    requires
        env.dispute_result(caller, id) is Ok,
    ensures
        ({
            let after = Call::Dispute { caller, escrow_id: id, reason }.after(env);
            &&& after.escrow(id) == Some(
                Escrow {
                    status: EscrowStatus::Disputed,
                    dispute_reason: reason,
                    ..env.ledger.escrow(id)->0
                },
            )
            &&& only_changed(env.ledger, after, DataKey::Escrow(id))
        }),
{
    crate::laws::effects::call_effect(Call::Dispute { caller, escrow_id: id, reason }, env);
}

/// A settled dispute leaves on the record of the escrow the two shares and the time
/// of the settlement, what stays of its amount being the learner's share, and
/// changes nothing else.
pub proof fn settlement_on_record(env: EnvView, id: u64, mentor_pct: u32)
    requires
        env.ledger.consistent(),
        env.resolve_dispute_result(id, mentor_pct) is Ok,
    ensures
        ({
            let before = env.ledger.escrow(id)->0;
            let after = Call::ResolveDispute { escrow_id: id, mentor_pct }.after(env);
            let record = after.escrow(id)->0;
            &&& after.escrow(id) is Some
            &&& record.net_amount == (before.amount * mentor_pct) / 100
            &&& record.platform_fee == before.amount - record.net_amount
            &&& record == Escrow {
                amount: record.platform_fee,
                net_amount: record.net_amount,
                platform_fee: record.platform_fee,
                status: EscrowStatus::Resolved,
                resolved_at: env.timestamp,
                ..before
            }
            &&& only_changed(env.ledger, after, DataKey::Escrow(id))
        }),
{
    let before = env.ledger.escrow(id)->0;
    crate::laws::effects::call_effect(Call::ResolveDispute { escrow_id: id, mentor_pct }, env);
    assert(env.ledger.entries.contains_key(DataKey::Escrow(id)));
    crate::laws::splits::dispute_split(before.amount as int, mentor_pct as int);
}

/// An accepted refund marks the escrow as refunded and changes nothing else.
pub proof fn refund_on_record(env: EnvView, id: u64)
    requires
        env.refund_result(id) is Ok,
    ensures
        ({
            let after = Call::Refund { escrow_id: id }.after(env);
            &&& after.escrow(id) == Some(
                Escrow { status: EscrowStatus::Refunded, ..env.ledger.escrow(id)->0 },
            )
            &&& only_changed(env.ledger, after, DataKey::Escrow(id))
        }),
{
    crate::laws::effects::call_effect(Call::Refund { escrow_id: id }, env);
}

/// An accepted review is kept for the escrow and changes nothing else.
pub proof fn review_on_record(env: EnvView, caller: Address, id: u64, reason: Symbol)
    requires
        env.submit_review_result(caller, id) is Ok,
    ensures
        ({
            let after = Call::SubmitReview { caller, escrow_id: id, reason }.after(env);
            &&& after.get(DataKey::Review(id)) == Some(Entry::Review(id, reason))
            &&& only_changed(env.ledger, after, DataKey::Review(id))
        }),
{
    crate::laws::effects::call_effect(Call::SubmitReview { caller, escrow_id: id, reason }, env);
}

/// An escrow opens for auto-release when the delay that the contract had at its
/// creation has gone by since the end of the session: from then on, and not
/// earlier, anyone can release it as long as nothing happened to it in between and
/// the fee on it can be computed.
pub proof fn creation_fixes_the_auto_release_time(
    env: EnvView,
    mentor: Address,
    learner: Address,
    amount: i128,
    session_id: Symbol,
    token_address: Address,
    session_end_time: u64,
    later: EnvView,
)
    requires
        env.ledger.consistent(),
        env.create_escrow_result(learner, amount, session_id, token_address) is Ok,
        later.ledger == (Call::CreateEscrow {
            mentor,
            learner,
            amount,
            session_id,
            token_address,
            session_end_time,
        }).after(env),
        amount * env.ledger.fee_bps() <= i128::MAX,
    ensures
        ({
            let id = env.create_escrow_result(learner, amount, session_id, token_address)->Ok_0;
            later.try_auto_release_result(id) is Ok <==> later.timestamp >= session_end_time
                + env.ledger.auto_release_delay()
        }),
{
    let id = env.create_escrow_result(learner, amount, session_id, token_address)->Ok_0;
    let call = Call::CreateEscrow {
        mentor,
        learner,
        amount,
        session_id,
        token_address,
        session_end_time,
    };
    creation_on_record(
        env,
        mentor,
        learner,
        amount,
        session_id,
        token_address,
        session_end_time,
    );
    crate::laws::consistency::call_keeps_consistent(call, env);
    assert(later.ledger.get(DataKey::FeeBps) == env.ledger.get(DataKey::FeeBps));
    crate::laws::verdicts::auto_release_verdict(later, id);
}

} // verus!
