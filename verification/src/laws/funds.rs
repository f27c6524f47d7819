//! Where the tokens are.

use vstd::prelude::*;

use crate::call::Call;
use crate::host::{EnvView, HostOp};
use crate::ledger::{DataKey, Entry, LedgerView};
use crate::types::{Address, Escrow};

verus! {

/// What a request brings to `contract` in `token`; negative where tokens leave.
pub open spec fn op_flow(op: HostOp, contract: Address, token: Address) -> int {
    match op {
        HostOp::Transfer { token: moved, from, to, amount } => if moved == token {
            (if to == contract {
                amount as int
            } else {
                0
            }) - (if from == contract {
                amount as int
            } else {
                0
            })
        } else {
            0
        },
        _ => 0,
    }
}

/// What requests bring to `contract` in `token`, all together.
pub open spec fn flow(ops: Seq<HostOp>, contract: Address, token: Address) -> int
    decreases ops.len(),
{
    if ops.len() == 0 {
        0
    } else {
        flow(ops.drop_last(), contract, token) + op_flow(ops.last(), contract, token)
    }
}

impl Escrow {
    /// What the contract owes in `token` on account of the escrow.
    pub open spec fn owed(self, token: Address) -> int {
        if self.status.is_open() && self.token_address == token {
            self.amount as int
        } else {
            0
        }
    }
}

impl LedgerView {
    /// What the contract owes in `token` on account of the escrow with `id`.
    pub open spec fn owed_for(self, id: u64, token: Address) -> int {
        match self.escrow(id) {
            Some(escrow) => escrow.owed(token),
            None => 0,
        }
    }

    /// What the contract owes in `token` on account of the escrows with the ids 1
    /// to `n`.
    pub open spec fn owed_up_to(self, n: nat, token: Address) -> int
        decreases n,
    {
        if n == 0 {
            0
        } else {
            self.owed_up_to((n - 1) as nat, token) + self.owed_for(n as u64, token)
        }
    }

    /// What the contract owes in `token` on account of all escrows.
    pub open spec fn owed(self, token: Address) -> int {
        self.owed_up_to(self.escrow_count() as nat, token)
    }
}

impl Call {
    /// No escrow is paid for by the contract itself.
    pub open spec fn learner_is_not(self, contract: Address) -> bool {
        match self {
            Call::CreateEscrow { learner, .. } => learner != contract,
            _ => true,
        }
    }
}

impl EnvView {
    /// The contract itself is neither the treasury nor a party to an escrow.
    pub open spec fn contract_is_no_party(self) -> bool {
        &&& self.ledger.treasury() != Some(self.contract)
        &&& forall|id: u64| #[trigger]
            self.ledger.entries.contains_key(DataKey::Escrow(id)) ==> {
                &&& self.ledger.escrow(id)->0.mentor != self.contract
                &&& self.ledger.escrow(id)->0.learner != self.contract
            }
    }
}

proof fn lemma_flow_add(
    first: Seq<HostOp>,
    second: Seq<HostOp>,
    contract: Address,
    token: Address,
)
    ensures
        flow(first + second, contract, token) == flow(first, contract, token) + flow(
            second,
            contract,
            token,
        ),
    decreases second.len(),
{
    if second.len() == 0 {
        assert(first + second == first);
    } else {
        assert((first + second).drop_last() == first + second.drop_last());
        lemma_flow_add(first, second.drop_last(), contract, token);
    }
}

/// Where nothing is transferred, nothing flows.
proof fn lemma_flow_none(ops: Seq<HostOp>, contract: Address, token: Address)
    requires
        forall|i: int| 0 <= i < ops.len() ==> !(#[trigger] ops[i] is Transfer),
    ensures
        flow(ops, contract, token) == 0,
    decreases ops.len(),
{
    if ops.len() > 0 {
        assert(!(ops[ops.len() - 1] is Transfer));
        assert forall|i: int| 0 <= i < ops.drop_last().len() implies !(#[trigger] ops.drop_last()[i]
            is Transfer) by {
            assert(ops.drop_last()[i] == ops[i]);
        }
        lemma_flow_none(ops.drop_last(), contract, token);
    }
}

/// Where at most one request is a transfer, what it brings is all that flows.
proof fn lemma_flow_one(ops: Seq<HostOp>, at: int, contract: Address, token: Address)
    requires
        0 <= at < ops.len(),
        forall|i: int| 0 <= i < ops.len() && i != at ==> !(#[trigger] ops[i] is Transfer),
    ensures
        flow(ops, contract, token) == op_flow(ops[at], contract, token),
{
    let before = ops.subrange(0, at);
    let one = seq![ops[at]];
    let rest = ops.subrange(at + 1, ops.len() as int);
    assert(ops == (before + one) + rest);
    lemma_flow_add(before + one, rest, contract, token);
    lemma_flow_add(before, one, contract, token);
    lemma_flow_none(before, contract, token);
    lemma_flow_none(rest, contract, token);
    lemma_flow_single(ops[at], contract, token);
}

proof fn lemma_flow_single(op: HostOp, contract: Address, token: Address)
    ensures
        flow(seq![op], contract, token) == op_flow(op, contract, token),
{
    assert(seq![op].drop_last() == Seq::<HostOp>::empty());
    assert(flow(Seq::<HostOp>::empty(), contract, token) == 0);
}

/// What a payment of the contract to `to` takes from it.
pub open spec fn taken(to: Address, amount: int, contract: Address) -> int {
    if to == contract {
        0
    } else {
        amount
    }
}

proof fn lemma_flow_if_positive(
    moved: Address,
    to: Address,
    amount: int,
    contract: Address,
    token: Address,
)
    requires
        0 <= amount <= i128::MAX,
    ensures
        flow(crate::model::transfer_if_positive(moved, contract, to, amount), contract, token) == if moved
            == token {
            -taken(to, amount, contract)
        } else {
            0
        },
{
    if amount > 0 {
        lemma_flow_single(
            HostOp::Transfer { token: moved, from: contract, to, amount: amount as i128 },
            contract,
            token,
        );
    }
}

/// A payout takes the fee and the rest from the contract, unless they go to the
/// contract itself.
proof fn lemma_payout_flow(env: EnvView, escrow: Escrow, amount: i128, token: Address)
    requires
        env.payout_possible(amount),
        amount >= 0,
        env.ledger.fee_bps() <= crate::fees::MAX_FEE_BPS,
    ensures
        flow(env.payout_ops(escrow, amount), env.contract, token) == if escrow.token_address
            == token {
            -taken(env.ledger.treasury()->0, env.fee_on(amount), env.contract) - taken(
                escrow.mentor,
                env.net_of(amount),
                env.contract,
            )
        } else {
            0
        },
{
    crate::laws::splits::fee_split(amount as int, env.ledger.fee_bps() as int);
    let alive = seq![HostOp::keep_alive(DataKey::FeeBps), HostOp::keep_alive(DataKey::Treasury)];
    let fee = crate::model::transfer_if_positive(
        escrow.token_address,
        env.contract,
        env.ledger.treasury()->0,
        env.fee_on(amount),
    );
    let net = HostOp::Transfer {
        token: escrow.token_address,
        from: env.contract,
        to: escrow.mentor,
        amount: env.net_of(amount) as i128,
    };
    lemma_flow_add(alive + fee, seq![net], env.contract, token);
    lemma_flow_add(alive, fee, env.contract, token);
    lemma_flow_none(alive, env.contract, token);
    lemma_flow_if_positive(
        escrow.token_address,
        env.ledger.treasury()->0,
        env.fee_on(amount),
        env.contract,
        token,
    );
    lemma_flow_single(net, env.contract, token);
}

/// Requests of which only a payout in the middle transfers anything.
proof fn lemma_flow_around_payout(
    env: EnvView,
    ops: Seq<HostOp>,
    before: Seq<HostOp>,
    escrow: Escrow,
    amount: i128,
    rest: Seq<HostOp>,
    token: Address,
)
    requires
        ops == before + env.payout_ops(escrow, amount) + rest,
        forall|i: int| 0 <= i < before.len() ==> !(#[trigger] before[i] is Transfer),
        forall|i: int| 0 <= i < rest.len() ==> !(#[trigger] rest[i] is Transfer),
    ensures
        flow(ops, env.contract, token) == flow(
            env.payout_ops(escrow, amount),
            env.contract,
            token,
        ),
{
    let payout = env.payout_ops(escrow, amount);
    lemma_flow_add(before + payout, rest, env.contract, token);
    lemma_flow_add(before, payout, env.contract, token);
    lemma_flow_none(before, env.contract, token);
    lemma_flow_none(rest, env.contract, token);
}

/// What is owed for other escrows does not change when one is written.
proof fn lemma_owed_one_changed(
    before: LedgerView,
    after: LedgerView,
    id: u64,
    n: nat,
    token: Address,
)
    requires
        n <= u64::MAX,
        forall|other: u64| other != id ==> #[trigger] after.escrow(other) == before.escrow(other),
    ensures
        after.owed_up_to(n, token) == before.owed_up_to(n, token) + if 1 <= id <= n {
            after.owed_for(id, token) - before.owed_for(id, token)
        } else {
            0
        },
    decreases n,
{
    if n > 0 {
        lemma_owed_one_changed(before, after, id, (n - 1) as nat, token);
        if n as u64 != id {
            assert(after.escrow(n as u64) == before.escrow(n as u64));
        }
    }
}

/// Nothing negative is owed.
proof fn lemma_owed_not_negative(ledger: LedgerView, n: nat, token: Address)
    requires
        ledger.consistent(),
        n <= ledger.escrow_count(),
    ensures
        ledger.owed_up_to(n, token) >= 0,
    decreases n,
{
    if n > 0 {
        lemma_owed_not_negative(ledger, (n - 1) as nat, token);
        assert(ledger.entries.contains_key(DataKey::Escrow(n as u64)));
    }
}

/// What the contract owes is never negative.
pub proof fn owed_is_not_negative(ledger: LedgerView, token: Address)
    requires
        ledger.consistent(),
    ensures
        ledger.owed(token) >= 0,
{
    lemma_owed_not_negative(ledger, ledger.escrow_count() as nat, token);
}

/// A call that transfers nothing and writes no escrow leaves what is owed as it
/// is.
proof fn lemma_owed_unchanged(before: LedgerView, after: LedgerView, token: Address)
    requires
        after.escrow_count() == before.escrow_count(),
        forall|id: u64| #[trigger] after.escrow(id) == before.escrow(id),
    ensures
        after.owed(token) == before.owed(token),
{
    lemma_owed_one_changed(before, after, 0, before.escrow_count() as nat, token);
}

/// Writing one escrow anew changes what is owed by the difference.
proof fn lemma_owed_rewritten(ledger: LedgerView, id: u64, escrow: Escrow, token: Address)
    requires
        ledger.consistent(),
        ledger.escrow(id) is Some,
    ensures
        ledger.write(Entry::Escrow(id, escrow)).owed(token) == ledger.owed(token)
            - ledger.escrow(id)->0.owed(token) + escrow.owed(token),
{
    let after = ledger.write(Entry::Escrow(id, escrow));
    assert(ledger.entries.contains_key(DataKey::Escrow(id)));
    assert forall|other: u64| other != id implies #[trigger] after.escrow(other) == ledger.escrow(
        other,
    ) by {}
    assert(after.escrow_count() == ledger.escrow_count());
    lemma_owed_one_changed(ledger, after, id, ledger.escrow_count() as nat, token);
}

/// Paying part of an escrow out keeps the contract covered.
proof fn lemma_payout_keeps_funds(
    env: EnvView,
    id: u64,
    amount: i128,
    ops: Seq<HostOp>,
    before: Seq<HostOp>,
    rest: Seq<HostOp>,
    token: Address,
)
    requires
        env.ledger.consistent(),
        env.active_escrow(id) is Ok,
        0 < amount <= env.ledger.escrow(id)->0.amount,
        env.payout_result(env.ledger.escrow(id)->0, amount) is Ok,
        ops == before + env.payout_ops(env.ledger.escrow(id)->0, amount) + rest,
        forall|i: int| 0 <= i < before.len() ==> !(#[trigger] before[i] is Transfer),
        forall|i: int| 0 <= i < rest.len() ==> !(#[trigger] rest[i] is Transfer),
    ensures
        ({
            let escrow = env.ledger.escrow(id)->0;
            let paid = escrow.after_payout(amount as int, env.ledger.fee_bps() as int);
            let after = env.ledger.write(Entry::Escrow(id, paid));
            &&& flow(ops, env.contract, token) >= after.owed(token) - env.ledger.owed(token)
            &&& env.contract_is_no_party() ==> flow(ops, env.contract, token) == after.owed(token)
                - env.ledger.owed(token)
        }),
{
    let escrow = env.ledger.escrow(id)->0;
    let paid = escrow.after_payout(amount as int, env.ledger.fee_bps() as int);
    assert(env.ledger.entries.contains_key(DataKey::Escrow(id)));
    assert(env.ledger.entries.contains_key(DataKey::Treasury));
    crate::laws::splits::fee_split(amount as int, env.ledger.fee_bps() as int);
    lemma_flow_around_payout(env, ops, before, escrow, amount, rest, token);
    lemma_payout_flow(env, escrow, amount, token);
    lemma_owed_rewritten(env.ledger, id, paid, token);
}

/// Releasing all that an escrow holds keeps the contract covered.
proof fn lemma_release_keeps_funds(
    env: EnvView,
    id: u64,
    ops: Seq<HostOp>,
    before: Seq<HostOp>,
    token: Address,
)
    requires
        env.ledger.consistent(),
        env.active_escrow(id) is Ok,
        env.payout_result(env.ledger.escrow(id)->0, env.ledger.escrow(id)->0.amount) is Ok,
        ops == before + env.release_ops(id, env.ledger.escrow(id)->0),
        forall|i: int| 0 <= i < before.len() ==> !(#[trigger] before[i] is Transfer),
    ensures
        flow(ops, env.contract, token) >= env.released(id).owed(token) - env.ledger.owed(token),
        env.contract_is_no_party() ==> flow(ops, env.contract, token) == env.released(id).owed(
            token,
        ) - env.ledger.owed(token),
{
    let escrow = env.ledger.escrow(id)->0;
    assert(env.ledger.entries.contains_key(DataKey::Escrow(id)));
    let release = env.release_ops(id, escrow);
    let payout = env.payout_ops(escrow, escrow.amount);
    let rest = release.subrange(payout.len() as int, release.len() as int);
    assert(release == payout + rest);
    assert(ops == before + payout + rest);
    lemma_payout_keeps_funds(env, id, escrow.amount, ops, before, rest, token);
}

impl Call {
    /// What the contract owes in `token` does not grow by more than the tokens
    /// that the call brings in, nor shrink by less than the tokens that it sends
    /// out. Where the contract itself is neither the treasury nor a party, the
    /// two changes are the same.
    pub open spec fn covered(self, env: EnvView, token: Address) -> bool {
        let brought = flow(self.ops(env), env.contract, token);
        let owed_more = self.after(env).owed(token) - env.ledger.owed(token);
        &&& brought >= owed_more
        &&& env.contract_is_no_party() ==> brought == owed_more
    }
}

proof fn lemma_initialize_covered(call: Call, env: EnvView, token: Address)
    requires
        env.ledger.consistent(),
        call.accepted(env),
        call.learner_is_not(env.contract),
        call is Initialize,
    ensures
        call.covered(env, token),
{
    crate::laws::effects::call_effect(call, env);
    let ops = call.ops(env);
    let n = ops.len() as int;
    let ledger = env.ledger;
    match call {
        Call::Initialize { approved_tokens, .. } => {
            let approvals = crate::model::approval_ops(approved_tokens@);
            assert forall|i: int| 0 <= i < n implies !(#[trigger] ops[i] is Transfer) by {
                if i >= 10 {
                    crate::laws::effects::lemma_approval_ops(approved_tokens@, i - 10);
                    assert(ops[i] == approvals[i - 10]);
                }
            }
            lemma_flow_none(ops, env.contract, token);
            assert(!ledger.entries.contains_key(DataKey::EscrowCount));
            crate::laws::effects::initialization_sets(call, env, DataKey::EscrowCount);
        },
        _ => {},
    }
}

proof fn lemma_create_covered(call: Call, env: EnvView, token: Address)
    requires
        env.ledger.consistent(),
        call.accepted(env),
        call.learner_is_not(env.contract),
        call is CreateEscrow,
    ensures
        call.covered(env, token),
{
    crate::laws::effects::call_effect(call, env);
    let ops = call.ops(env);
    let ledger = env.ledger;
    let after = call.after(env);
    match call {
        Call::CreateEscrow { .. } => {
            lemma_flow_one(ops, 6, env.contract, token);
            let id = (ledger.escrow_count() + 1) as u64;
            assert(!ledger.entries.contains_key(DataKey::Escrow(id)));
            assert forall|other: u64| other != id implies #[trigger] after.escrow(other)
                == ledger.escrow(other) by {}
            assert(after.escrow_count() == id);
            lemma_owed_one_changed(ledger, after, id, (id - 1) as nat, token);
        },
        _ => {},
    }
}

proof fn lemma_release_covered(call: Call, env: EnvView, token: Address)
    requires
        env.ledger.consistent(),
        call.accepted(env),
        call.learner_is_not(env.contract),
        call is ReleaseFunds || call is AdminRelease || call is TryAutoRelease,
    ensures
        call.covered(env, token),
{
    crate::laws::effects::call_effect(call, env);
    let ops = call.ops(env);
    let n = ops.len() as int;
    let ledger = env.ledger;
    match call {
        Call::ReleaseFunds { escrow_id, .. } => {
            let release = env.release_ops(escrow_id, ledger.escrow(escrow_id)->0);
            let before = ops.subrange(0, n - release.len());
            assert(ops == before + release);
            lemma_release_keeps_funds(env, escrow_id, ops, before, token);
        },
        Call::AdminRelease { escrow_id } => {
            let release = env.release_ops(escrow_id, ledger.escrow(escrow_id)->0);
            let before = ops.subrange(0, n - release.len());
            assert(ops == before + release);
            lemma_release_keeps_funds(env, escrow_id, ops, before, token);
        },
        Call::TryAutoRelease { escrow_id } => {
            let release = env.release_ops(escrow_id, ledger.escrow(escrow_id)->0);
            let before = ops.subrange(0, n - release.len());
            assert(ops == before + release);
            lemma_release_keeps_funds(env, escrow_id, ops, before, token);
        },
        _ => {},
    }
}

proof fn lemma_partial_covered(call: Call, env: EnvView, token: Address)
    requires
        env.ledger.consistent(),
        call.accepted(env),
        call.learner_is_not(env.contract),
        call is ReleasePartial,
    ensures
        call.covered(env, token),
{
    crate::laws::effects::call_effect(call, env);
    let ops = call.ops(env);
    let n = ops.len() as int;
    let ledger = env.ledger;
    match call {
        Call::ReleasePartial { escrow_id, amount_to_release, .. } => {
            let escrow = ledger.escrow(escrow_id)->0;
            let payout = env.payout_ops(escrow, amount_to_release);
            let before = ops.subrange(0, 3);
            let rest = ops.subrange((3 + payout.len()) as int, n);
            assert(ops == before + payout + rest);
            lemma_payout_keeps_funds(env, escrow_id, amount_to_release, ops, before, rest, token);
        },
        _ => {},
    }
}

proof fn lemma_resolve_covered(call: Call, env: EnvView, token: Address)
    requires
        env.ledger.consistent(),
        call.accepted(env),
        call.learner_is_not(env.contract),
        call is ResolveDispute,
    ensures
        call.covered(env, token),
{
    crate::laws::effects::call_effect(call, env);
    let ops = call.ops(env);
    let n = ops.len() as int;
    let ledger = env.ledger;
    match call {
        Call::ResolveDispute { escrow_id, mentor_pct } => {
            let escrow = ledger.escrow(escrow_id)->0;
            let mentor_amount = crate::fees::mentor_share(escrow.amount as int, mentor_pct as int);
            let learner_amount = crate::fees::learner_share(
                escrow.amount as int,
                mentor_pct as int,
            );
            assert(ledger.entries.contains_key(DataKey::Escrow(escrow_id)));
            crate::laws::splits::dispute_split(escrow.amount as int, mentor_pct as int);
            let before = ops.subrange(0, 3);
            let to_mentor = crate::model::transfer_if_positive(
                escrow.token_address,
                env.contract,
                escrow.mentor,
                mentor_amount,
            );
            let to_learner = crate::model::transfer_if_positive(
                escrow.token_address,
                env.contract,
                escrow.learner,
                learner_amount,
            );
            let rest = ops.subrange(n - 2, n);
            assert(ops == before + to_mentor + to_learner + rest);
            lemma_flow_add(before + to_mentor + to_learner, rest, env.contract, token);
            lemma_flow_add(before + to_mentor, to_learner, env.contract, token);
            lemma_flow_add(before, to_mentor, env.contract, token);
            lemma_flow_none(before, env.contract, token);
            lemma_flow_none(rest, env.contract, token);
            lemma_flow_if_positive(
                escrow.token_address,
                escrow.mentor,
                mentor_amount,
                env.contract,
                token,
            );
            lemma_flow_if_positive(
                escrow.token_address,
                escrow.learner,
                learner_amount,
                env.contract,
                token,
            );
            lemma_owed_rewritten(
                ledger,
                escrow_id,
                escrow.resolved(mentor_pct as int, env.timestamp),
                token,
            );
        },
        _ => {},
    }
}

/// The contract covers what it owes: no accepted call lets what the contract
/// owes in a token grow by more than the tokens that it brings in, or shrink by
/// less than the tokens that it sends out. Where the contract itself is neither
/// the treasury nor a party, the two changes are the same.
pub proof fn call_keeps_funds(call: Call, env: EnvView, token: Address)
    requires
        env.ledger.consistent(),
        call.accepted(env),
        call.learner_is_not(env.contract),
    ensures
        call.covered(env, token),
{
    crate::laws::effects::call_effect(call, env);
    let ops = call.ops(env);
    let ledger = env.ledger;
    let after = call.after(env);
    match call {
        Call::Initialize { .. } => lemma_initialize_covered(call, env, token),
        Call::CreateEscrow { .. } => lemma_create_covered(call, env, token),
        Call::ReleaseFunds { .. } => lemma_release_covered(call, env, token),
        Call::ReleasePartial { .. } => lemma_partial_covered(call, env, token),
        Call::AdminRelease { .. } => lemma_release_covered(call, env, token),
        Call::TryAutoRelease { .. } => lemma_release_covered(call, env, token),
        Call::ResolveDispute { .. } => lemma_resolve_covered(call, env, token),
        Call::Dispute { escrow_id, reason, .. } => {
            lemma_flow_none(ops, env.contract, token);
            lemma_owed_rewritten(
                ledger,
                escrow_id,
                ledger.escrow(escrow_id)->0.disputed(reason),
                token,
            );
        },
        Call::Refund { escrow_id } => {
            let escrow = ledger.escrow(escrow_id)->0;
            assert(ledger.entries.contains_key(DataKey::Escrow(escrow_id)));
            lemma_flow_one(ops, 3, env.contract, token);
            lemma_owed_rewritten(ledger, escrow_id, escrow.refunded(), token);
        },
        _ => {
            lemma_flow_none(ops, env.contract, token);
            assert forall|id: u64| #[trigger] after.escrow(id) == ledger.escrow(id) by {}
            lemma_owed_unchanged(ledger, after, token);
        },
    }
}

} // verus!
