//! What is announced.

use vstd::prelude::*;

use crate::call::Call;
use crate::host::{EnvView, Event, HostOp};
use crate::ledger::DataKey;
use crate::types::{Address, Escrow, Symbol};

verus! {

/// The events among `ops`, in their order.
pub open spec fn published(ops: Seq<HostOp>) -> Seq<Event>
    decreases ops.len(),
{
    if ops.len() == 0 {
        Seq::empty()
    } else {
        match ops.last() {
            HostOp::Publish(event) => published(ops.drop_last()).push(event),
            _ => published(ops.drop_last()),
        }
    }
}

proof fn lemma_published_none(ops: Seq<HostOp>)
    requires
        forall|i: int| 0 <= i < ops.len() ==> !(#[trigger] ops[i] is Publish),
    ensures
        published(ops) == Seq::<Event>::empty(),
    decreases ops.len(),
{
    if ops.len() > 0 {
        assert(!(ops[ops.len() - 1] is Publish));
        assert forall|i: int| 0 <= i < ops.drop_last().len() implies !(#[trigger] ops.drop_last()[i]
            is Publish) by {
            assert(ops.drop_last()[i] == ops[i]);
        }
        lemma_published_none(ops.drop_last());
    }
}

/// Where only the last request is an announcement, it is all that is announced.
proof fn lemma_published_last(ops: Seq<HostOp>, event: Event)
    requires
        ops.len() > 0,
        ops.last() == HostOp::Publish(event),
        forall|i: int| 0 <= i < ops.len() - 1 ==> !(#[trigger] ops[i] is Publish),
    ensures
        published(ops) == seq![event],
{
    assert forall|i: int| 0 <= i < ops.drop_last().len() implies !(#[trigger] ops.drop_last()[i]
        is Publish) by {
        assert(ops.drop_last()[i] == ops[i]);
    }
    lemma_published_none(ops.drop_last());
    assert(published(ops) == Seq::<Event>::empty().push(event));
}

proof fn lemma_published_add(first: Seq<HostOp>, second: Seq<HostOp>)
    ensures
        published(first + second) == published(first) + published(second),
    decreases second.len(),
{
    if second.len() == 0 {
        assert(first + second == first);
    } else {
        assert((first + second).drop_last() == first + second.drop_last());
        lemma_published_add(first, second.drop_last());
    }
}

/// An accepted creation announces its arguments under the id of the new escrow.
pub proof fn creation_is_announced(
    env: EnvView,
    mentor: Address,
    learner: Address,
    amount: i128,
    session_id: Symbol,
    token_address: Address,
    session_end_time: u64,
)
    requires
        env.create_escrow_result(learner, amount, session_id, token_address) is Ok,
    ensures
        published(
            env.create_escrow_ops(
                mentor,
                learner,
                amount,
                session_id,
                token_address,
                session_end_time,
            ),
        ) == seq![
            (Event::Created {
                id: env.create_escrow_result(learner, amount, session_id, token_address)->Ok_0,
                mentor,
                learner,
                amount,
                session_id,
                token_address,
                session_end_time,
            }),
        ],
{
    let ops = env.create_escrow_ops(
        mentor,
        learner,
        amount,
        session_id,
        token_address,
        session_end_time,
    );
    assert(ops.len() == 10);
    lemma_published_last(ops, ops.last()->Publish_0);
}

/// The announcement of a release: what was released, and the fee of `amount *
/// fee_bps / 10_000` and the rest that were paid out of it.
pub open spec fn released_event(env: EnvView, escrow: Escrow) -> Event {
    let fee = (escrow.amount * env.ledger.fee_bps()) / 10_000;
    Event::Released {
        id: escrow.id,
        mentor: escrow.mentor,
        amount: escrow.amount,
        net_amount: (escrow.amount - fee) as i128,
        platform_fee: fee as i128,
        token_address: escrow.token_address,
    }
}

proof fn lemma_payout_announces_nothing(env: EnvView, escrow: Escrow, amount: i128, at: int)
    requires
        0 <= at < env.payout_ops(escrow, amount).len(),
    ensures
        !(env.payout_ops(escrow, amount)[at] is Publish),
{
}

proof fn lemma_release_announced(env: EnvView, id: u64)
    requires
        env.ledger.consistent(),
        env.active_escrow(id) is Ok,
        env.payout_result(env.ledger.escrow(id)->0, env.ledger.escrow(id)->0.amount) is Ok,
    ensures
        published(env.release_ops(id, env.ledger.escrow(id)->0)) == seq![
            released_event(env, env.ledger.escrow(id)->0),
        ],
{
    let escrow = env.ledger.escrow(id)->0;
    let payout = env.payout_ops(escrow, escrow.amount);
    let ops = env.release_ops(id, escrow);
    assert(env.ledger.entries.contains_key(DataKey::Escrow(id)));
    crate::laws::splits::fee_split(escrow.amount as int, env.ledger.fee_bps() as int);
    assert forall|i: int| 0 <= i < ops.len() - 1 implies !(#[trigger] ops[i] is Publish) by {
        if i < payout.len() {
            assert(ops[i] == payout[i]);
            lemma_payout_announces_nothing(env, escrow, escrow.amount, i);
        }
    }
    lemma_published_last(ops, released_event(env, escrow));
}

/// An accepted release by the learner or the admin announces what was released and
/// what became of it. A release on the word of the admin and an auto-release are
/// announced as such before, with the time.
pub proof fn release_is_announced(env: EnvView, caller: Address, id: u64)
    requires
        env.ledger.consistent(),
        env.ledger.escrow(id) is Some,
    ensures
        ({
            let released = released_event(env, env.ledger.escrow(id)->0);
            &&& env.release_funds_result(caller, id) is Ok ==> published(
                env.release_funds_ops(caller, id),
            ) == seq![released]
            &&& env.admin_release_result(id) is Ok ==> published(env.admin_release_ops(id)) == seq![
                Event::AdminReleased { id, timestamp: env.timestamp },
                released,
            ]
            &&& env.try_auto_release_result(id) is Ok ==> published(env.try_auto_release_ops(id))
                == seq![Event::AutoReleased { id, timestamp: env.timestamp }, released]
        }),
{
    let escrow = env.ledger.escrow(id)->0;
    let release = env.release_ops(id, escrow);
    let released = released_event(env, escrow);
    if env.release_funds_result(caller, id) is Ok {
        let ops = env.release_funds_ops(caller, id);
        let before = ops.subrange(0, 3);
        assert(ops == before + release);
        lemma_published_add(before, release);
        lemma_published_none(before);
        lemma_release_announced(env, id);
        assert(Seq::<Event>::empty() + seq![released] == seq![released]);
    }
    if env.admin_release_result(id) is Ok {
        let ops = env.admin_release_ops(id);
        let before = ops.subrange(0, 4);
        let first = Event::AdminReleased { id, timestamp: env.timestamp };
        assert(ops == before + release);
        lemma_published_add(before, release);
        lemma_published_last(before, first);
        lemma_release_announced(env, id);
        assert(seq![first] + seq![released] == seq![first, released]);
    }
    if env.try_auto_release_result(id) is Ok {
        let ops = env.try_auto_release_ops(id);
        let before = ops.subrange(0, 2);
        let first = Event::AutoReleased { id, timestamp: env.timestamp };
        assert(ops == before + release);
        lemma_published_add(before, release);
        lemma_published_last(before, first);
        lemma_release_announced(env, id);
        assert(seq![first] + seq![released] == seq![first, released]);
    }
}

/// An accepted partial release announces what was released, what became of it, and
/// what is left in the escrow.
pub proof fn partial_release_is_announced(env: EnvView, caller: Address, id: u64, amount: i128)
    requires
        env.ledger.consistent(),
        env.release_partial_result(caller, id, amount) is Ok,
    ensures
        ({
            let escrow = env.ledger.escrow(id)->0;
            let fee = (amount * env.ledger.fee_bps()) / 10_000;
            published(env.release_partial_ops(caller, id, amount)) == seq![
                Event::PartiallyReleased {
                    id,
                    mentor: escrow.mentor,
                    amount,
                    net_amount: (amount - fee) as i128,
                    platform_fee: fee as i128,
                    token_address: escrow.token_address,
                    remaining: (escrow.amount - amount) as i128,
                },
            ]
        }),
{
    let escrow = env.ledger.escrow(id)->0;
    let payout = env.payout_ops(escrow, amount);
    let ops = env.release_partial_ops(caller, id, amount);
    assert(env.ledger.entries.contains_key(DataKey::Escrow(id)));
    crate::laws::splits::fee_split(amount as int, env.ledger.fee_bps() as int);
    assert forall|i: int| 0 <= i < ops.len() - 1 implies !(#[trigger] ops[i] is Publish) by {
        if 3 <= i < 3 + payout.len() {
            assert(ops[i] == payout[i - 3]);
            lemma_payout_announces_nothing(env, escrow, amount, i - 3);
        }
    }
    lemma_published_last(ops, ops.last()->Publish_0);
}

/// An accepted dispute announces who opened it and why.
pub proof fn dispute_is_announced(env: EnvView, caller: Address, id: u64, reason: Symbol)
    requires
        env.dispute_result(caller, id) is Ok,
    ensures
        published(env.dispute_ops(caller, id, reason)) == seq![
            (Event::DisputeOpened {
                id,
                caller,
                reason,
                token_address: env.ledger.escrow(id)->0.token_address,
            }),
        ],
{
    let ops = env.dispute_ops(caller, id, reason);
    lemma_published_last(ops, ops.last()->Publish_0);
}

/// A settlement announces the percentage, the share of each party and the time.
pub proof fn settlement_is_announced(env: EnvView, id: u64, mentor_pct: u32)
    requires
        env.ledger.consistent(),
        env.resolve_dispute_result(id, mentor_pct) is Ok,
    ensures
        ({
            let escrow = env.ledger.escrow(id)->0;
            let mentor_amount = (escrow.amount * mentor_pct) / 100;
            published(env.resolve_dispute_ops(id, mentor_pct)) == seq![
                Event::DisputeResolved {
                    id,
                    mentor_pct,
                    mentor_amount: mentor_amount as i128,
                    learner_amount: (escrow.amount - mentor_amount) as i128,
                    token_address: escrow.token_address,
                    timestamp: env.timestamp,
                },
            ]
        }),
{
    let escrow = env.ledger.escrow(id)->0;
    let ops = env.resolve_dispute_ops(id, mentor_pct);
    assert(env.ledger.entries.contains_key(DataKey::Escrow(id)));
    crate::laws::splits::dispute_split(escrow.amount as int, mentor_pct as int);
    lemma_published_last(ops, ops.last()->Publish_0);
}

/// An accepted refund announces what the learner gets back.
pub proof fn refund_is_announced(env: EnvView, id: u64)
    requires
        env.refund_result(id) is Ok,
    ensures
        published(env.refund_ops(id)) == seq![
            (Event::Refunded {
                id,
                learner: env.ledger.escrow(id)->0.learner,
                amount: env.ledger.escrow(id)->0.amount,
                token_address: env.ledger.escrow(id)->0.token_address,
            }),
        ],
{
    let ops = env.refund_ops(id);
    lemma_published_last(ops, ops.last()->Publish_0);
}

/// An accepted review is announced with its author, its reason and the mentor.
pub proof fn review_is_announced(env: EnvView, caller: Address, id: u64, reason: Symbol)
    requires
        env.submit_review_result(caller, id) is Ok,
    ensures
        published(env.submit_review_ops(caller, id, reason)) == seq![
            (Event::Reviewed { id, caller, reason, mentor: env.ledger.escrow(id)->0.mentor }),
        ],
{
    let ops = env.submit_review_ops(caller, id, reason);
    lemma_published_last(ops, ops.last()->Publish_0);
}

/// The initialization, changes of settings and queries announce nothing.
pub proof fn other_calls_announce_nothing(call: Call, env: EnvView)
    requires
        call is Initialize || call is UpdateFee || call is UpdateTreasury
            || call is SetApprovedToken || call is GetEscrow || call is GetEscrowCount
            || call is GetFeeBps || call is GetTreasury || call is GetAutoReleaseDelay
            || call is IsTokenApproved || call is GetEscrowsByMentor,
    ensures
        published(call.ops(env)) == Seq::<Event>::empty(),
{
    let ops = call.ops(env);
    match call {
        Call::Initialize { approved_tokens, .. } => {
            assert forall|i: int| 0 <= i < ops.len() implies !(#[trigger] ops[i] is Publish) by {
                if i >= 10 {
                    crate::laws::effects::lemma_approval_ops(approved_tokens@, i - 10);
                    assert(ops[i] == crate::model::approval_ops(approved_tokens@)[i - 10]);
                }
            }
        },
        _ => {},
    }
    lemma_published_none(ops);
}

} // verus!
