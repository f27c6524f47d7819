//! What each call leaves on the ledger.

use vstd::prelude::*;

use crate::call::Call;
use crate::host::{EnvView, HostOp};
use crate::ledger::{DataKey, Entry, LedgerView};
use crate::types::Address;

verus! {

/// Requests that are done one list after the other.
proof fn lemma_commit_add(ledger: LedgerView, first: Seq<HostOp>, second: Seq<HostOp>)
    ensures
        ledger.commit(first + second) == ledger.commit(first).commit(second),
    decreases second.len(),
{
    if second.len() == 0 {
        assert(first + second == first);
    } else {
        assert((first + second).drop_last() == first + second.drop_last());
        lemma_commit_add(ledger, first, second.drop_last());
    }
}

/// Requests without a write leave the ledger as it is.
proof fn lemma_commit_nothing(ledger: LedgerView, ops: Seq<HostOp>)
    requires
        forall|i: int| 0 <= i < ops.len() ==> !(#[trigger] ops[i] is Write),
    ensures
        ledger.commit(ops) == ledger,
    decreases ops.len(),
{
    if ops.len() > 0 {
        assert(!(ops[ops.len() - 1] is Write));
        assert forall|i: int| 0 <= i < ops.drop_last().len() implies !(#[trigger] ops.drop_last()[i]
            is Write) by {
            assert(ops.drop_last()[i] == ops[i]);
        }
        lemma_commit_nothing(ledger, ops.drop_last());
    }
}

/// Requests with one write do that write.
proof fn lemma_commit_one(ledger: LedgerView, ops: Seq<HostOp>, at: int, entry: Entry)
    requires
        0 <= at < ops.len(),
        ops[at] == HostOp::Write(entry),
        forall|i: int| 0 <= i < ops.len() && i != at ==> !(#[trigger] ops[i] is Write),
    ensures
        ledger.commit(ops) == ledger.write(entry),
{
    let before = ops.subrange(0, at);
    let one = seq![HostOp::Write(entry)];
    let rest = ops.subrange(at + 1, ops.len() as int);
    assert(ops == (before + one) + rest);
    lemma_commit_add(ledger, before + one, rest);
    lemma_commit_add(ledger, before, one);
    lemma_commit_nothing(ledger, before);
    assert(one.drop_last() == Seq::<HostOp>::empty());
    assert(ledger.commit(Seq::<HostOp>::empty()) == ledger);
    assert(ledger.commit(one) == ledger.write(entry));
    lemma_commit_nothing(ledger.write(entry), rest);
}

/// The requests of an initialization approve each token in turn.
proof fn lemma_commit_approvals(ledger: LedgerView, tokens: Seq<Address>)
    ensures
        ledger.commit(crate::model::approval_ops(tokens)) == ledger.write_all(
            tokens.map_values(|token: Address| Entry::ApprovedToken(token, true)),
        ),
    decreases tokens.len(),
{
    let entry = |token: Address| Entry::ApprovedToken(token, true);
    let entries = tokens.map_values(entry);
    if tokens.len() > 0 {
        let earlier = tokens.drop_last();
        let last = crate::model::set_approval_ops(tokens.last(), true);
        lemma_commit_approvals(ledger, earlier);
        lemma_commit_add(ledger, crate::model::approval_ops(earlier), last);
        lemma_commit_one(
            ledger.commit(crate::model::approval_ops(earlier)),
            last,
            0,
            Entry::ApprovedToken(tokens.last(), true),
        );
        assert(entries.drop_last() == earlier.map_values(entry));
        assert(entries.last() == entry(tokens.last()));
    }
}

/// Approving tokens touches nothing but approvals.
proof fn lemma_approvals_touch_approvals(ledger: LedgerView, entries: Seq<Entry>, key: DataKey)
    requires
        forall|i: int| 0 <= i < entries.len() ==> #[trigger] entries[i] is ApprovedToken,
        !(key is ApprovedToken),
    ensures
        ledger.write_all(entries).get(key) == ledger.get(key),
    decreases entries.len(),
{
    if entries.len() > 0 {
        let earlier = entries.drop_last();
        assert(entries[entries.len() - 1] is ApprovedToken);
        assert forall|i: int| 0 <= i < earlier.len() implies #[trigger] earlier[i]
            is ApprovedToken by {
            assert(earlier[i] == entries[i]);
        }
        lemma_approvals_touch_approvals(ledger, earlier, key);
    }
}

/// Writes remove nothing.
pub proof fn lemma_write_all_keeps_keys(ledger: LedgerView, entries: Seq<Entry>, key: DataKey)
    requires
        ledger.has(key),
    ensures
        ledger.write_all(entries).has(key),
    decreases entries.len(),
{
    if entries.len() > 0 {
        lemma_write_all_keeps_keys(ledger, entries.drop_last(), key);
    }
}

/// The requests that approve tokens are writes of approvals and requests that
/// keep approvals alive.
pub proof fn lemma_approval_ops(tokens: Seq<Address>, i: int)
    requires
        0 <= i < crate::model::approval_ops(tokens).len(),
    ensures
        match crate::model::approval_ops(tokens)[i] {
            HostOp::Write(entry) => entry is ApprovedToken,
            HostOp::ExtendTtl { key, .. } => key is ApprovedToken,
            _ => false,
        },
    decreases tokens.len(),
{
    if tokens.len() > 0 {
        let earlier = crate::model::approval_ops(tokens.drop_last());
        if i < earlier.len() {
            lemma_approval_ops(tokens.drop_last(), i);
        }
    }
}

/// Two requests, a write and one that is none, do the write.
proof fn lemma_commit_pair(ledger: LedgerView, entry: Entry, key: DataKey)
    ensures
        ledger.commit(seq![HostOp::Write(entry), HostOp::keep_alive(key)]) == ledger.write(entry),
{
    lemma_commit_one(ledger, seq![HostOp::Write(entry), HostOp::keep_alive(key)], 0, entry);
}

proof fn lemma_initialize_effect(call: Call, env: EnvView)
    requires
        call is Initialize,
        call.accepted(env),
    ensures
        call.after(env) == call.effect(env),
{
    reveal(Call::after);
    match call {
        Call::Initialize {
            admin,
            treasury,
            fee_bps,
            approved_tokens,
            auto_release_delay_secs,
        } => {
            let delay = if auto_release_delay_secs == 0 {
                crate::ledger::DEFAULT_AUTO_RELEASE_DELAY
            } else {
                auto_release_delay_secs
            };
            let l0 = env.ledger;
            let e1 = Entry::Admin(admin);
            let e2 = Entry::Treasury(treasury);
            let e3 = Entry::FeeBps(fee_bps);
            let e4 = Entry::EscrowCount(0);
            let e5 = Entry::AutoReleaseDelay(delay);
            let p1 = seq![HostOp::Write(e1), HostOp::keep_alive(DataKey::Admin)];
            let p2 = seq![HostOp::Write(e2), HostOp::keep_alive(DataKey::Treasury)];
            let p3 = seq![HostOp::Write(e3), HostOp::keep_alive(DataKey::FeeBps)];
            let p4 = seq![HostOp::Write(e4), HostOp::keep_alive(DataKey::EscrowCount)];
            let p5 = seq![HostOp::Write(e5), HostOp::keep_alive(DataKey::AutoReleaseDelay)];
            let approvals = crate::model::approval_ops(approved_tokens@);
            assert(call.ops(env) == p1 + p2 + p3 + p4 + p5 + approvals);
            lemma_commit_add(l0, p1 + p2 + p3 + p4 + p5, approvals);
            lemma_commit_add(l0, p1 + p2 + p3 + p4, p5);
            lemma_commit_add(l0, p1 + p2 + p3, p4);
            lemma_commit_add(l0, p1 + p2, p3);
            lemma_commit_add(l0, p1, p2);
            let l1 = l0.write(e1);
            let l2 = l1.write(e2);
            let l3 = l2.write(e3);
            let l4 = l3.write(e4);
            let l5 = l4.write(e5);
            lemma_commit_pair(l0, e1, DataKey::Admin);
            lemma_commit_pair(l1, e2, DataKey::Treasury);
            lemma_commit_pair(l2, e3, DataKey::FeeBps);
            lemma_commit_pair(l3, e4, DataKey::EscrowCount);
            lemma_commit_pair(l4, e5, DataKey::AutoReleaseDelay);
            lemma_commit_approvals(l5, approved_tokens@);
        },
        _ => {},
    }
}

proof fn lemma_create_escrow_effect(call: Call, env: EnvView)
    requires
        call is CreateEscrow,
        call.accepted(env),
    ensures
        call.after(env) == call.effect(env),
{
    reveal(Call::after);
    match call {
        Call::CreateEscrow {
            mentor,
            learner,
            amount,
            session_id,
            token_address,
            session_end_time,
        } => {
            let escrow = env.new_escrow(
                mentor,
                learner,
                amount,
                session_id,
                token_address,
                session_end_time,
            );
            let ops = call.ops(env);
            let first = ops.subrange(0, 4);
            let second = ops.subrange(4, 6);
            let third = ops.subrange(6, ops.len() as int);
            assert(ops == first + second + third);
            lemma_commit_add(env.ledger, first + second, third);
            lemma_commit_add(env.ledger, first, second);
            let l0 = env.ledger;
            let l1 = l0.write(Entry::Session(session_id));
            let l2 = l1.write(Entry::EscrowCount(escrow.id));
            lemma_commit_one(l0, first, 2, Entry::Session(session_id));
            lemma_commit_one(l1, second, 0, Entry::EscrowCount(escrow.id));
            lemma_commit_one(l2, third, 1, Entry::Escrow(escrow.id, escrow));
        },
        _ => {},
    }
}

/// An accepted call leaves on the ledger exactly the entries that `effect`
/// lists; every other entry stays. A rejected call leaves the ledger as it was.
pub proof fn call_effect(call: Call, env: EnvView)
    ensures
        call.accepted(env) ==> call.after(env) == call.effect(env),
        !call.accepted(env) ==> call.after(env) == env.ledger,
{
    reveal(Call::after);
    if call.accepted(env) {
        let ops = call.ops(env);
        let n = ops.len() as int;
        match call {
            Call::Initialize { .. } => {
                lemma_initialize_effect(call, env);
            },
            Call::UpdateFee { new_fee_bps } => {
                lemma_commit_one(env.ledger, ops, 2, Entry::FeeBps(new_fee_bps));
            },
            Call::UpdateTreasury { new_treasury } => {
                lemma_commit_one(env.ledger, ops, 2, Entry::Treasury(new_treasury));
            },
            Call::SetApprovedToken { token_address, approved } => {
                lemma_commit_one(env.ledger, ops, 2, Entry::ApprovedToken(token_address, approved));
            },
            Call::CreateEscrow { .. } => {
                lemma_create_escrow_effect(call, env);
            },
            Call::ReleaseFunds { escrow_id, .. } => {
                let escrow = env.ledger.escrow(escrow_id)->0;
                let paid = escrow.after_payout(escrow.amount as int, env.ledger.fee_bps() as int);
                lemma_commit_one(env.ledger, ops, n - 2, Entry::Escrow(escrow_id, paid));
            },
            Call::ReleasePartial { escrow_id, amount_to_release, .. } => {
                let escrow = env.ledger.escrow(escrow_id)->0;
                let paid = escrow.after_payout(
                    amount_to_release as int,
                    env.ledger.fee_bps() as int,
                );
                lemma_commit_one(env.ledger, ops, n - 2, Entry::Escrow(escrow_id, paid));
            },
            Call::AdminRelease { escrow_id } => {
                let escrow = env.ledger.escrow(escrow_id)->0;
                let paid = escrow.after_payout(escrow.amount as int, env.ledger.fee_bps() as int);
                lemma_commit_one(env.ledger, ops, n - 2, Entry::Escrow(escrow_id, paid));
            },
            Call::TryAutoRelease { escrow_id } => {
                let escrow = env.ledger.escrow(escrow_id)->0;
                let paid = escrow.after_payout(escrow.amount as int, env.ledger.fee_bps() as int);
                lemma_commit_one(env.ledger, ops, n - 2, Entry::Escrow(escrow_id, paid));
            },
            Call::Dispute { escrow_id, reason, .. } => {
                let escrow = env.ledger.escrow(escrow_id)->0;
                lemma_commit_one(
                    env.ledger,
                    ops,
                    n - 2,
                    Entry::Escrow(escrow_id, escrow.disputed(reason)),
                );
            },
            Call::ResolveDispute { escrow_id, mentor_pct } => {
                let escrow = env.ledger.escrow(escrow_id)->0;
                let resolved = escrow.resolved(mentor_pct as int, env.timestamp);
                lemma_commit_one(env.ledger, ops, n - 2, Entry::Escrow(escrow_id, resolved));
            },
            Call::Refund { escrow_id } => {
                let escrow = env.ledger.escrow(escrow_id)->0;
                lemma_commit_one(
                    env.ledger,
                    ops,
                    n - 2,
                    Entry::Escrow(escrow_id, escrow.refunded()),
                );
            },
            Call::SubmitReview { escrow_id, reason, .. } => {
                lemma_commit_one(env.ledger, ops, 2, Entry::Review(escrow_id, reason));
            },
            _ => {
                lemma_commit_nothing(env.ledger, ops);
            },
        }
    }
}

/// An initialization leaves under every key but those of approvals what its
/// settings put there.
pub proof fn initialization_sets(call: Call, env: EnvView, key: DataKey)
    requires
        call is Initialize,
        call.accepted(env),
        !(key is ApprovedToken),
    ensures
        match call {
            Call::Initialize { admin, treasury, fee_bps, auto_release_delay_secs, .. } => {
                call.after(env).get(key) == env.ledger.set_up(
                    admin,
                    treasury,
                    fee_bps,
                    auto_release_delay_secs,
                ).get(key)
            },
            _ => false,
        },
{
    call_effect(call, env);
    match call {
        Call::Initialize {
            admin,
            treasury,
            fee_bps,
            approved_tokens,
            auto_release_delay_secs,
        } => {
            lemma_approvals_touch_approvals(
                env.ledger.set_up(admin, treasury, fee_bps, auto_release_delay_secs),
                approved_tokens@.map_values(|token: Address| Entry::ApprovedToken(token, true)),
                key,
            );
        },
        _ => {},
    }
}

} // verus!
