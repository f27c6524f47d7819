//! Who is paid what.

use vstd::prelude::*;

use crate::call::Call;
use crate::host::{EnvView, HostOp};
use crate::ledger::DataKey;
use crate::types::{Address, Escrow, Symbol};

verus! {

/// What a request moves in `token` from one address to another.
pub open spec fn op_paid(op: HostOp, token: Address, from: Address, to: Address) -> int {
    match op {
        HostOp::Transfer { token: t, from: f, to: r, amount } => if t == token && f == from && r
            == to {
            amount as int
        } else {
            0
        },
        _ => 0,
    }
}

/// What requests move in `token` from one address to another, all together.
pub open spec fn paid(ops: Seq<HostOp>, token: Address, from: Address, to: Address) -> int
    decreases ops.len(),
{
    if ops.len() == 0 {
        0
    } else {
        paid(ops.drop_last(), token, from, to) + op_paid(ops.last(), token, from, to)
    }
}

/// `amount` where the condition holds, and nothing otherwise.
pub open spec fn amount_if(condition: bool, amount: int) -> int {
    if condition {
        amount
    } else {
        0
    }
}

proof fn lemma_paid_add(
    first: Seq<HostOp>,
    second: Seq<HostOp>,
    token: Address,
    from: Address,
    to: Address,
)
    ensures
        paid(first + second, token, from, to) == paid(first, token, from, to) + paid(
            second,
            token,
            from,
            to,
        ),
    decreases second.len(),
{
    if second.len() == 0 {
        assert(first + second == first);
    } else {
        assert((first + second).drop_last() == first + second.drop_last());
        lemma_paid_add(first, second.drop_last(), token, from, to);
    }
}

/// Where nothing is transferred, nothing is paid.
proof fn lemma_paid_none(ops: Seq<HostOp>, token: Address, from: Address, to: Address)
    requires
        forall|i: int| 0 <= i < ops.len() ==> !(#[trigger] ops[i] is Transfer),
    ensures
        paid(ops, token, from, to) == 0,
    decreases ops.len(),
{
    if ops.len() > 0 {
        assert(!(ops[ops.len() - 1] is Transfer));
        assert forall|i: int| 0 <= i < ops.drop_last().len() implies !(#[trigger] ops.drop_last()[i]
            is Transfer) by {
            assert(ops.drop_last()[i] == ops[i]);
        }
        lemma_paid_none(ops.drop_last(), token, from, to);
    }
}

proof fn lemma_paid_single(op: HostOp, token: Address, from: Address, to: Address)
    ensures
        paid(seq![op], token, from, to) == op_paid(op, token, from, to),
{
    assert(seq![op].drop_last() == Seq::<HostOp>::empty());
    assert(paid(Seq::<HostOp>::empty(), token, from, to) == 0);
}

/// Where at most one request is a transfer, what it moves is all that is paid.
proof fn lemma_paid_one(ops: Seq<HostOp>, at: int, token: Address, from: Address, to: Address)
    requires
        0 <= at < ops.len(),
        forall|i: int| 0 <= i < ops.len() && i != at ==> !(#[trigger] ops[i] is Transfer),
    ensures
        paid(ops, token, from, to) == op_paid(ops[at], token, from, to),
{
    let before = ops.subrange(0, at);
    let one = seq![ops[at]];
    let rest = ops.subrange(at + 1, ops.len() as int);
    assert(ops == (before + one) + rest);
    lemma_paid_add(before + one, rest, token, from, to);
    lemma_paid_add(before, one, token, from, to);
    lemma_paid_none(before, token, from, to);
    lemma_paid_none(rest, token, from, to);
    lemma_paid_single(ops[at], token, from, to);
}

proof fn lemma_paid_if_positive(
    moved: Address,
    payer: Address,
    payee: Address,
    amount: int,
    token: Address,
    from: Address,
    to: Address,
)
    requires
        0 <= amount <= i128::MAX,
    ensures
        paid(crate::model::transfer_if_positive(moved, payer, payee, amount), token, from, to)
            == amount_if(moved == token && payer == from && payee == to, amount),
{
    if amount > 0 {
        lemma_paid_single(
            HostOp::Transfer { token: moved, from: payer, to: payee, amount: amount as i128 },
            token,
            from,
            to,
        );
    }
}

/// What an escrow pays out of `amount` at the rate in force: `amount * fee_bps /
/// 10_000` to the treasury and the rest to the mentor, in the token of the escrow.
pub open spec fn release_due(
    env: EnvView,
    escrow: Escrow,
    amount: int,
    token: Address,
    from: Address,
    to: Address,
) -> int {
    let fee = (amount * env.ledger.fee_bps()) / 10_000;
    if token == escrow.token_address && from == env.contract {
        amount_if(Some(to) == env.ledger.treasury(), fee) + amount_if(
            to == escrow.mentor,
            amount - fee,
        )
    } else {
        0
    }
}

proof fn lemma_payout_paid(
    env: EnvView,
    escrow: Escrow,
    amount: i128,
    token: Address,
    from: Address,
    to: Address,
)
    requires
        env.payout_possible(amount),
        amount >= 0,
        env.ledger.fee_bps() <= crate::fees::MAX_FEE_BPS,
    ensures
        paid(env.payout_ops(escrow, amount), token, from, to) == release_due(
            env,
            escrow,
            amount as int,
            token,
            from,
            to,
        ),
{
    crate::laws::splits::fee_split(amount as int, env.ledger.fee_bps() as int);
    let alive = seq![HostOp::keep_alive(DataKey::FeeBps), HostOp::keep_alive(DataKey::Treasury)];
    let treasury = env.ledger.treasury()->0;
    let fee = crate::model::transfer_if_positive(
        escrow.token_address,
        env.contract,
        treasury,
        env.fee_on(amount),
    );
    let net = HostOp::Transfer {
        token: escrow.token_address,
        from: env.contract,
        to: escrow.mentor,
        amount: env.net_of(amount) as i128,
    };
    assert(env.payout_ops(escrow, amount) == alive + fee + seq![net]);
    lemma_paid_add(alive + fee, seq![net], token, from, to);
    lemma_paid_add(alive, fee, token, from, to);
    lemma_paid_none(alive, token, from, to);
    lemma_paid_if_positive(
        escrow.token_address,
        env.contract,
        treasury,
        env.fee_on(amount),
        token,
        from,
        to,
    );
    lemma_paid_single(net, token, from, to);
}

/// Requests of which only a payout in the middle transfers anything.
proof fn lemma_paid_around_payout(
    env: EnvView,
    ops: Seq<HostOp>,
    before: int,
    escrow: Escrow,
    amount: i128,
    token: Address,
    from: Address,
    to: Address,
)
    requires
        env.payout_possible(amount),
        amount >= 0,
        env.ledger.fee_bps() <= crate::fees::MAX_FEE_BPS,
        0 <= before,
        before + env.payout_ops(escrow, amount).len() <= ops.len(),
        ops.subrange(before, before + env.payout_ops(escrow, amount).len()) == env.payout_ops(
            escrow,
            amount,
        ),
        forall|i: int| 0 <= i < before ==> !(#[trigger] ops[i] is Transfer),
        forall|i: int|
            before + env.payout_ops(escrow, amount).len() <= i < ops.len() ==> !(#[trigger] ops[i]
                is Transfer),
    ensures
        paid(ops, token, from, to) == release_due(env, escrow, amount as int, token, from, to),
{
    let payout = env.payout_ops(escrow, amount);
    let first = ops.subrange(0, before);
    let rest = ops.subrange(before + payout.len(), ops.len() as int);
    assert(ops == first + payout + rest);
    lemma_paid_add(first + payout, rest, token, from, to);
    lemma_paid_add(first, payout, token, from, to);
    lemma_paid_none(first, token, from, to);
    lemma_paid_none(rest, token, from, to);
    lemma_payout_paid(env, escrow, amount, token, from, to);
}

/// An accepted creation moves the deposit from the learner to the contract, in the
/// token of the escrow, and nothing else.
pub proof fn creation_takes_the_deposit(
    env: EnvView,
    mentor: Address,
    learner: Address,
    amount: i128,
    session_id: Symbol,
    token_address: Address,
    session_end_time: u64,
    token: Address,
    from: Address,
    to: Address,
)
    requires
        env.create_escrow_result(learner, amount, session_id, token_address) is Ok,
    ensures
        paid(
            env.create_escrow_ops(
                mentor,
                learner,
                amount,
                session_id,
                token_address,
                session_end_time,
            ),
            token,
            from,
            to,
        ) == amount_if(
            token == token_address && from == learner && to == env.contract,
            amount as int,
        ),
{
    let ops = env.create_escrow_ops(
        mentor,
        learner,
        amount,
        session_id,
        token_address,
        session_end_time,
    );
    assert(ops.len() == 10);
    lemma_paid_one(ops, 6, token, from, to);
}

/// An accepted release of all that an escrow holds pays `amount * fee_bps / 10_000`
/// of it to the treasury and the rest to the mentor, out of the contract and in the
/// token of the escrow, and pays nothing else: whether the learner or the admin
/// asks for it, or anyone once the auto-release time has come.
pub proof fn release_pays_treasury_and_mentor(
    env: EnvView,
    caller: Address,
    id: u64,
    token: Address,
    from: Address,
    to: Address,
)
    requires
        env.ledger.consistent(),
        env.ledger.escrow(id) is Some,
    ensures
        ({
            let escrow = env.ledger.escrow(id)->0;
            let due = release_due(env, escrow, escrow.amount as int, token, from, to);
            &&& env.release_funds_result(caller, id) is Ok ==> paid(
                env.release_funds_ops(caller, id),
                token,
                from,
                to,
            ) == due
            &&& env.admin_release_result(id) is Ok ==> paid(
                env.admin_release_ops(id),
                token,
                from,
                to,
            ) == due
            &&& env.try_auto_release_result(id) is Ok ==> paid(
                env.try_auto_release_ops(id),
                token,
                from,
                to,
            ) == due
        }),
{
    let escrow = env.ledger.escrow(id)->0;
    let amount = escrow.amount;
    let n = env.payout_ops(escrow, amount).len() as int;
    assert(env.ledger.entries.contains_key(DataKey::Escrow(id)));
    if env.release_funds_result(caller, id) is Ok {
        let ops = env.release_funds_ops(caller, id);
        assert(ops.subrange(3, 3 + n) == env.payout_ops(escrow, amount));
        lemma_paid_around_payout(env, ops, 3, escrow, amount, token, from, to);
    }
    if env.admin_release_result(id) is Ok {
        let ops = env.admin_release_ops(id);
        assert(ops.subrange(4, 4 + n) == env.payout_ops(escrow, amount));
        lemma_paid_around_payout(env, ops, 4, escrow, amount, token, from, to);
    }
    if env.try_auto_release_result(id) is Ok {
        let ops = env.try_auto_release_ops(id);
        assert(ops.subrange(2, 2 + n) == env.payout_ops(escrow, amount));
        lemma_paid_around_payout(env, ops, 2, escrow, amount, token, from, to);
    }
}

/// An accepted partial release pays the fee on the released part to the treasury
/// and the rest of that part to the mentor, and pays nothing else.
pub proof fn partial_release_pays_treasury_and_mentor(
    env: EnvView,
    caller: Address,
    id: u64,
    amount: i128,
    token: Address,
    from: Address,
    to: Address,
)
    requires
        env.ledger.consistent(),
        env.release_partial_result(caller, id, amount) is Ok,
    ensures
        paid(env.release_partial_ops(caller, id, amount), token, from, to) == release_due(
            env,
            env.ledger.escrow(id)->0,
            amount as int,
            token,
            from,
            to,
        ),
{
    let escrow = env.ledger.escrow(id)->0;
    let n = env.payout_ops(escrow, amount).len() as int;
    let ops = env.release_partial_ops(caller, id, amount);
    assert(env.ledger.entries.contains_key(DataKey::Escrow(id)));
    assert(ops.subrange(3, 3 + n) == env.payout_ops(escrow, amount));
    lemma_paid_around_payout(env, ops, 3, escrow, amount, token, from, to);
}

/// A settled dispute pays `amount * mentor_pct / 100` of what the escrow holds to
/// the mentor and the rest of it to the learner, out of the contract and in the
/// token of the escrow, and pays nothing else. What each of them is paid is what
/// the record then says: the mentor's share in `net_amount` and the learner's in
/// `platform_fee`.
pub proof fn settlement_pays_each_their_share(
    env: EnvView,
    id: u64,
    mentor_pct: u32,
    token: Address,
    from: Address,
    to: Address,
)
    requires
        env.ledger.consistent(),
        env.resolve_dispute_result(id, mentor_pct) is Ok,
    ensures
        ({
            let escrow = env.ledger.escrow(id)->0;
            let mentor_amount = (escrow.amount * mentor_pct) / 100;
            let learner_amount = escrow.amount - mentor_amount;
            let ops = env.resolve_dispute_ops(id, mentor_pct);
            let call = Call::ResolveDispute { escrow_id: id, mentor_pct };
            let record = call.after(env).escrow(id)->0;
            &&& paid(ops, token, from, to) == if token == escrow.token_address && from
                == env.contract {
                amount_if(to == escrow.mentor, mentor_amount) + amount_if(
                    to == escrow.learner,
                    learner_amount,
                )
            } else {
                0
            }
            &&& record.net_amount == mentor_amount
            &&& record.platform_fee == learner_amount
            &&& escrow.mentor != escrow.learner ==> {
                &&& paid(ops, escrow.token_address, env.contract, escrow.mentor)
                    == record.net_amount
                &&& paid(ops, escrow.token_address, env.contract, escrow.learner)
                    == record.platform_fee
            }
        }),
{
    let escrow = env.ledger.escrow(id)->0;
    crate::laws::effects::call_effect(Call::ResolveDispute { escrow_id: id, mentor_pct }, env);
    assert(env.ledger.entries.contains_key(DataKey::Escrow(id)));
    crate::laws::splits::dispute_split(escrow.amount as int, mentor_pct as int);
    lemma_settlement_paid(env, id, mentor_pct, token, from, to);
    lemma_settlement_paid(
        env,
        id,
        mentor_pct,
        escrow.token_address,
        env.contract,
        escrow.mentor,
    );
    lemma_settlement_paid(
        env,
        id,
        mentor_pct,
        escrow.token_address,
        env.contract,
        escrow.learner,
    );
}

proof fn lemma_settlement_paid(
    env: EnvView,
    id: u64,
    mentor_pct: u32,
    token: Address,
    from: Address,
    to: Address,
)
    requires
        env.ledger.consistent(),
        env.resolve_dispute_result(id, mentor_pct) is Ok,
    ensures
        ({
            let escrow = env.ledger.escrow(id)->0;
            let mentor_amount = (escrow.amount * mentor_pct) / 100;
            paid(env.resolve_dispute_ops(id, mentor_pct), token, from, to) == if token
                == escrow.token_address && from == env.contract {
                amount_if(to == escrow.mentor, mentor_amount) + amount_if(
                    to == escrow.learner,
                    escrow.amount - mentor_amount,
                )
            } else {
                0
            }
        }),
{
    let escrow = env.ledger.escrow(id)->0;
    let mentor_amount = crate::fees::mentor_share(escrow.amount as int, mentor_pct as int);
    let learner_amount = crate::fees::learner_share(escrow.amount as int, mentor_pct as int);
    let ops = env.resolve_dispute_ops(id, mentor_pct);
    let n = ops.len() as int;
    assert(env.ledger.entries.contains_key(DataKey::Escrow(id)));
    crate::laws::splits::dispute_split(escrow.amount as int, mentor_pct as int);
    let before = ops.subrange(0, 3);
    let to_mentor = crate::model::transfer_if_positive(
        escrow.token_address,
        env.contract,
        escrow.mentor,
        mentor_amount,
    );
    let to_learner = crate::model::transfer_if_positive(
        escrow.token_address,
        env.contract,
        escrow.learner,
        learner_amount,
    );
    let rest = ops.subrange(n - 2, n);
    assert(ops == before + to_mentor + to_learner + rest);
    lemma_paid_add(before + to_mentor + to_learner, rest, token, from, to);
    lemma_paid_add(before + to_mentor, to_learner, token, from, to);
    lemma_paid_add(before, to_mentor, token, from, to);
    lemma_paid_none(before, token, from, to);
    lemma_paid_none(rest, token, from, to);
    lemma_paid_if_positive(
        escrow.token_address,
        env.contract,
        escrow.mentor,
        mentor_amount,
        token,
        from,
        to,
    );
    lemma_paid_if_positive(
        escrow.token_address,
        env.contract,
        escrow.learner,
        learner_amount,
        token,
        from,
        to,
    );
}

/// An accepted refund, of an active or a disputed escrow, makes one transfer: all
/// that the escrow holds, from the contract to the learner, in the token of the
/// escrow.
pub proof fn refund_pays_the_learner(
    env: EnvView,
    id: u64,
    token: Address,
    from: Address,
    to: Address,
)
    requires
        env.refund_result(id) is Ok,
    ensures
        ({
            let escrow = env.ledger.escrow(id)->0;
            let ops = env.refund_ops(id);
            &&& paid(ops, token, from, to) == amount_if(
                token == escrow.token_address && from == env.contract && to == escrow.learner,
                escrow.amount as int,
            )
            &&& exists|at: int|
                0 <= at < ops.len() && #[trigger] ops[at] == (HostOp::Transfer {
                    token: escrow.token_address,
                    from: env.contract,
                    to: escrow.learner,
                    amount: escrow.amount,
                }) && forall|i: int|
                    0 <= i < ops.len() && i != at ==> !(#[trigger] ops[i] is Transfer)
        }),
{
    let ops = env.refund_ops(id);
    assert(ops.len() == 6);
    assert(ops[3] is Transfer);
    lemma_paid_one(ops, 3, token, from, to);
}

/// No other call moves tokens, whether it is accepted or not.
pub proof fn other_calls_pay_nothing(call: Call, env: EnvView, at: int)
    requires
        0 <= at < call.ops(env).len(),
        call.ops(env)[at] is Transfer,
    ensures
        call is CreateEscrow || call is ReleaseFunds || call is ReleasePartial
            || call is AdminRelease || call is TryAutoRelease || call is ResolveDispute
            || call is Refund,
{
    match call {
        Call::Initialize { approved_tokens, .. } => {
            if at >= 10 {
                crate::laws::effects::lemma_approval_ops(approved_tokens@, at - 10);
                assert(call.ops(env)[at] == crate::model::approval_ops(approved_tokens@)[at - 10]);
            }
        },
        _ => {},
    }
}

/// Whether the request moves something, if it is a transfer.
pub open spec fn moves_something(op: HostOp) -> bool {
    match op {
        HostOp::Transfer { amount, .. } => amount > 0,
        _ => true,
    }
}

proof fn lemma_payout_positive(env: EnvView, id: u64, amount: i128, at: int)
    requires
        env.ledger.consistent(),
        env.active_escrow(id) is Ok,
        0 < amount <= env.ledger.escrow(id)->0.amount,
        0 <= at < env.payout_ops(env.ledger.escrow(id)->0, amount).len(),
    ensures
        moves_something(env.payout_ops(env.ledger.escrow(id)->0, amount)[at]),
{
    lemma_release_positive(env, id, amount);
}

proof fn lemma_release_ops_positive(env: EnvView, id: u64, at: int)
    requires
        env.ledger.consistent(),
        env.active_escrow(id) is Ok,
        0 <= at < env.release_ops(id, env.ledger.escrow(id)->0).len(),
    ensures
        moves_something(env.release_ops(id, env.ledger.escrow(id)->0)[at]),
{
    let escrow = env.ledger.escrow(id)->0;
    let payout = env.payout_ops(escrow, escrow.amount);
    assert(env.ledger.entries.contains_key(DataKey::Escrow(id)));
    if at < payout.len() {
        assert(env.release_ops(id, escrow)[at] == payout[at]);
        lemma_payout_positive(env, id, escrow.amount, at);
    }
}

proof fn lemma_release_call_positive(call: Call, env: EnvView, at: int)
    requires
        env.ledger.consistent(),
        call.accepted(env),
        call is ReleaseFunds || call is AdminRelease || call is TryAutoRelease,
        0 <= at < call.ops(env).len(),
    ensures
        moves_something(call.ops(env)[at]),
{
    let ops = call.ops(env);
    let id = call.escrow_id()->0;
    let release = env.release_ops(id, env.ledger.escrow(id)->0);
    let before = if call is ReleaseFunds {
        3int
    } else if call is AdminRelease {
        4
    } else {
        2
    };
    if at >= before {
        assert(ops[at] == release[at - before]);
        lemma_release_ops_positive(env, id, at - before);
    }
}

proof fn lemma_partial_call_positive(call: Call, env: EnvView, at: int)
    requires
        env.ledger.consistent(),
        call.accepted(env),
        call is ReleasePartial,
        0 <= at < call.ops(env).len(),
    ensures
        moves_something(call.ops(env)[at]),
{
    match call {
        Call::ReleasePartial { escrow_id, amount_to_release, .. } => {
            let payout = env.payout_ops(env.ledger.escrow(escrow_id)->0, amount_to_release);
            if 3 <= at < 3 + payout.len() {
                assert(call.ops(env)[at] == payout[at - 3]);
                lemma_payout_positive(env, escrow_id, amount_to_release, at - 3);
            }
        },
        _ => {},
    }
}

proof fn lemma_settlement_positive(call: Call, env: EnvView, at: int)
    requires
        env.ledger.consistent(),
        call.accepted(env),
        call is ResolveDispute || call is Refund,
        0 <= at < call.ops(env).len(),
    ensures
        moves_something(call.ops(env)[at]),
{
    match call {
        Call::ResolveDispute { escrow_id, mentor_pct } => {
            let escrow = env.ledger.escrow(escrow_id)->0;
            assert(env.ledger.entries.contains_key(DataKey::Escrow(escrow_id)));
            crate::laws::splits::dispute_split(escrow.amount as int, mentor_pct as int);
        },
        Call::Refund { escrow_id } => {
            assert(env.ledger.entries.contains_key(DataKey::Escrow(escrow_id)));
        },
        _ => {},
    }
}

/// Every transfer of an accepted call moves something.
pub proof fn transfers_are_positive(call: Call, env: EnvView, at: int)
    requires
        env.ledger.consistent(),
        call.accepted(env),
        0 <= at < call.ops(env).len(),
    ensures
        moves_something(call.ops(env)[at]),
{
    match call {
        Call::CreateEscrow { .. } => {},
        Call::ReleaseFunds { .. } => lemma_release_call_positive(call, env, at),
        Call::AdminRelease { .. } => lemma_release_call_positive(call, env, at),
        Call::TryAutoRelease { .. } => lemma_release_call_positive(call, env, at),
        Call::ReleasePartial { .. } => lemma_partial_call_positive(call, env, at),
        Call::ResolveDispute { .. } => lemma_settlement_positive(call, env, at),
        Call::Refund { .. } => lemma_settlement_positive(call, env, at),
        _ => {
            if call.ops(env)[at] is Transfer {
                other_calls_pay_nothing(call, env, at);
            }
        },
    }
}

/// What is paid to the mentor of an active escrow is not nothing, and all of it is
/// a token amount.
proof fn lemma_release_positive(env: EnvView, id: u64, amount: i128)
    requires
        env.ledger.consistent(),
        env.active_escrow(id) is Ok,
        0 < amount,
    ensures
        0 <= env.fee_on(amount) <= i128::MAX,
        0 < env.net_of(amount) <= i128::MAX,
{
    assert(env.ledger.entries.contains_key(DataKey::Escrow(id)));
    crate::laws::splits::fee_split(amount as int, env.ledger.fee_bps() as int);
}

} // verus!
