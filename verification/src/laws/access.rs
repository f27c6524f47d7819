//! Whose word a call needs.

use vstd::prelude::*;

use crate::call::Call;
use crate::fees::MAX_FEE_BPS;
use crate::host::{EnvView, HostOp};
use crate::ledger::DataKey;
use crate::types::{Address, Escrow, EscrowStatus, Symbol};

verus! {

/// Whether `who` is asked for their word in the first `n` requests.
pub open spec fn asked(ops: Seq<HostOp>, n: int, who: Address) -> bool {
    exists|i: int| 0 <= i < n && #[trigger] ops[i] == HostOp::RequireAuth(who)
}

/// Whether the admin is asked for their word in the first `n` requests.
pub open spec fn admin_asked(env: EnvView, ops: Seq<HostOp>, n: int) -> bool {
    match env.ledger.admin() {
        Some(admin) => asked(ops, n, admin),
        None => false,
    }
}

impl Call {
    /// The id of the escrow that the call is about.
    pub open spec fn escrow_id(self) -> Option<u64> {
        match self {
            Call::ReleaseFunds { escrow_id, .. } => Some(escrow_id),
            Call::ReleasePartial { escrow_id, .. } => Some(escrow_id),
            Call::AdminRelease { escrow_id } => Some(escrow_id),
            Call::TryAutoRelease { escrow_id } => Some(escrow_id),
            Call::Dispute { escrow_id, .. } => Some(escrow_id),
            Call::ResolveDispute { escrow_id, .. } => Some(escrow_id),
            Call::Refund { escrow_id } => Some(escrow_id),
            Call::SubmitReview { escrow_id, .. } => Some(escrow_id),
            Call::GetEscrow { escrow_id } => Some(escrow_id),
            _ => None,
        }
    }

    /// Whether the call releases an escrow whose auto-release time has come.
    pub open spec fn in_auto_release(self, env: EnvView, escrow: Escrow) -> bool {
        &&& self is TryAutoRelease
        &&& escrow.status == EscrowStatus::Active
        &&& env.timestamp >= escrow.session_end_time + escrow.auto_release_delay
    }

    /// Whether the transfer is the deposit of a learner who was asked.
    pub open spec fn is_deposit(self, env: EnvView, at: int) -> bool {
        match self {
            Call::CreateEscrow { learner, amount, token_address, .. } => {
                &&& self.ops(env)[at] == HostOp::Transfer {
                    token: token_address,
                    from: learner,
                    to: env.contract,
                    amount,
                }
                &&& amount > 0
                &&& asked(self.ops(env), at, learner)
            },
            _ => false,
        }
    }

    /// Whether the transfer goes out of an open escrow, in its token, to its
    /// mentor, its learner or the treasury, and either the admin or the learner
    /// was asked or the auto-release time has come.
    pub open spec fn is_payment(self, env: EnvView, at: int) -> bool {
        match self.escrow_id() {
            Some(id) => match env.ledger.escrow(id) {
                Some(escrow) => match self.ops(env)[at] {
                    HostOp::Transfer { token, from, to, .. } => {
                        &&& from == env.contract
                        &&& token == escrow.token_address
                        &&& escrow.status.is_open()
                        &&& to == escrow.mentor || to == escrow.learner || Some(to)
                            == env.ledger.treasury()
                        &&& admin_asked(env, self.ops(env), at) || asked(
                            self.ops(env),
                            at,
                            escrow.learner,
                        ) || self.in_auto_release(env, escrow)
                    },
                    _ => false,
                },
                None => false,
            },
            None => false,
        }
    }
}

proof fn lemma_deposit_authorized(call: Call, env: EnvView, at: int)
    requires
        0 <= at < call.ops(env).len(),
        call.ops(env)[at] is Transfer,
        call is CreateEscrow,
    ensures
        call.is_deposit(env, at) || call.is_payment(env, at),
{
    let ops = call.ops(env);
    match call {
        Call::CreateEscrow { learner, .. } => {
            assert(ops[0] == HostOp::RequireAuth(learner));
        },
        _ => {},
    }
}

proof fn lemma_release_authorized(call: Call, env: EnvView, at: int)
    requires
        0 <= at < call.ops(env).len(),
        call.ops(env)[at] is Transfer,
        call is ReleaseFunds || call is ReleasePartial,
    ensures
        call.is_deposit(env, at) || call.is_payment(env, at),
{
    let ops = call.ops(env);
    match call {
        Call::ReleaseFunds { caller, .. } => {
            assert(ops[2] == HostOp::RequireAuth(caller));
        },
        Call::ReleasePartial { caller, .. } => {
            assert(ops[2] == HostOp::RequireAuth(caller));
        },
        _ => {},
    }
}

proof fn lemma_admin_payment_authorized(call: Call, env: EnvView, at: int)
    requires
        0 <= at < call.ops(env).len(),
        call.ops(env)[at] is Transfer,
        call is AdminRelease || call is ResolveDispute || call is Refund,
    ensures
        call.is_deposit(env, at) || call.is_payment(env, at),
{
    let ops = call.ops(env);
    match call {
        Call::AdminRelease { .. } => {
            assert(ops[2] == HostOp::RequireAuth(env.ledger.admin()->0));
        },
        Call::ResolveDispute { .. } => {
            assert(ops[1] == HostOp::RequireAuth(env.ledger.admin()->0));
        },
        Call::Refund { .. } => {
            assert(ops[1] == HostOp::RequireAuth(env.ledger.admin()->0));
        },
        _ => {},
    }
}

/// No token moves without the word of the one it concerns. Every transfer is
/// either the deposit of a learner who was asked before, or a payment out of an
/// open escrow to its mentor, its learner or the treasury, before which the admin
/// or the learner was asked, unless the auto-release time has come.
pub proof fn transfers_are_authorized(call: Call, env: EnvView, at: int)
    requires
        0 <= at < call.ops(env).len(),
        call.ops(env)[at] is Transfer,
    ensures
        call.is_deposit(env, at) || call.is_payment(env, at),
{
    match call {
        Call::Initialize { approved_tokens, .. } => {
            if at >= 10 {
                crate::laws::effects::lemma_approval_ops(approved_tokens@, at - 10);
                assert(call.ops(env)[at] == crate::model::approval_ops(approved_tokens@)[at - 10]);
            }
        },
        Call::CreateEscrow { .. } => lemma_deposit_authorized(call, env, at),
        Call::ReleaseFunds { .. } => lemma_release_authorized(call, env, at),
        Call::ReleasePartial { .. } => lemma_release_authorized(call, env, at),
        Call::AdminRelease { .. } => lemma_admin_payment_authorized(call, env, at),
        Call::ResolveDispute { .. } => lemma_admin_payment_authorized(call, env, at),
        Call::Refund { .. } => lemma_admin_payment_authorized(call, env, at),
        _ => {},
    }
}

impl Call {
    /// The one whose word the call needs: the learner for a creation, the caller
    /// where the call names one, the admin for what only the admin may do. The
    /// initialization, the auto-release and the queries need nobody's.
    pub open spec fn authorizer(self, env: EnvView) -> Option<Address> {
        match self {
            Call::CreateEscrow { learner, .. } => Some(learner),
            Call::ReleaseFunds { caller, .. } => Some(caller),
            Call::ReleasePartial { caller, .. } => Some(caller),
            Call::Dispute { caller, .. } => Some(caller),
            Call::SubmitReview { caller, .. } => Some(caller),
            Call::UpdateFee { .. } => env.ledger.admin(),
            Call::UpdateTreasury { .. } => env.ledger.admin(),
            Call::SetApprovedToken { .. } => env.ledger.admin(),
            Call::AdminRelease { .. } => env.ledger.admin(),
            Call::ResolveDispute { .. } => env.ledger.admin(),
            Call::Refund { .. } => env.ledger.admin(),
            _ => None,
        }
    }

    /// Where the word is asked for among the requests of an accepted call.
    spec fn asked_at(self) -> int {
        match self {
            Call::CreateEscrow { .. } => 0,
            Call::ReleaseFunds { .. } => 2,
            Call::ReleasePartial { .. } => 2,
            Call::AdminRelease { .. } => 2,
            _ => 1,
        }
    }
}

proof fn lemma_release_asks_nobody(env: EnvView, id: u64, escrow: Escrow, at: int)
    requires
        0 <= at < env.release_ops(id, escrow).len(),
    ensures
        !(env.release_ops(id, escrow)[at] is RequireAuth),
{
}

proof fn lemma_payout_asks_nobody(env: EnvView, escrow: Escrow, amount: i128, at: int)
    requires
        0 <= at < env.payout_ops(escrow, amount).len(),
    ensures
        !(env.payout_ops(escrow, amount)[at] is RequireAuth),
{
}

proof fn lemma_release_call_asks(call: Call, env: EnvView, at: int)
    requires
        call is ReleaseFunds || call is AdminRelease || call is TryAutoRelease,
        call.accepted(env),
        0 <= at < call.ops(env).len(),
    ensures
        call is TryAutoRelease ==> !(call.ops(env)[at] is RequireAuth),
        call !is TryAutoRelease ==> {
            &&& call.ops(env).len() > 2
            &&& at == 2 ==> call.ops(env)[at] == HostOp::RequireAuth(call.authorizer(env)->0)
            &&& at != 2 ==> !(call.ops(env)[at] is RequireAuth)
            &&& at < 2 ==> call.ops(env)[at] is ExtendTtl
        },
{
    let id = call.escrow_id()->0;
    let escrow = env.ledger.escrow(id)->0;
    let release = env.release_ops(id, escrow);
    let before = if call is ReleaseFunds {
        3int
    } else if call is AdminRelease {
        4
    } else {
        2
    };
    if at >= before {
        assert(call.ops(env)[at] == release[at - before]);
        lemma_release_asks_nobody(env, id, escrow, at - before);
    }
}

proof fn lemma_partial_call_asks(call: Call, env: EnvView, at: int)
    requires
        call is ReleasePartial,
        call.accepted(env),
        0 <= at < call.ops(env).len(),
    ensures
        call.ops(env).len() > 2,
        at == 2 ==> call.ops(env)[at] == HostOp::RequireAuth(call.authorizer(env)->0),
        at != 2 ==> !(call.ops(env)[at] is RequireAuth),
        at < 2 ==> call.ops(env)[at] is ExtendTtl,
{
    match call {
        Call::ReleasePartial { escrow_id, amount_to_release, .. } => {
            let escrow = env.ledger.escrow(escrow_id)->0;
            let payout = env.payout_ops(escrow, amount_to_release);
            if 3 <= at < 3 + payout.len() {
                assert(call.ops(env)[at] == payout[at - 3]);
                lemma_payout_asks_nobody(env, escrow, amount_to_release, at - 3);
            }
        },
        _ => {},
    }
}

/// Which request of an accepted call asks for a word, if any.
proof fn lemma_asks(call: Call, env: EnvView, at: int)
    requires
        call.accepted(env),
        0 <= at < call.ops(env).len(),
    ensures
        call.authorizer(env) is None ==> !(call.ops(env)[at] is RequireAuth),
        call.authorizer(env) matches Some(who) ==> {
            let k = call.asked_at();
            &&& 0 <= k < call.ops(env).len()
            &&& at == k ==> call.ops(env)[at] == HostOp::RequireAuth(who)
            &&& at != k ==> !(call.ops(env)[at] is RequireAuth)
            &&& at < k ==> call.ops(env)[at] is ExtendTtl
        },
{
    match call {
        Call::Initialize { approved_tokens, .. } => {
            if at >= 10 {
                crate::laws::effects::lemma_approval_ops(approved_tokens@, at - 10);
                assert(call.ops(env)[at] == crate::model::approval_ops(approved_tokens@)[at - 10]);
            }
        },
        Call::ReleaseFunds { .. } => lemma_release_call_asks(call, env, at),
        Call::AdminRelease { .. } => lemma_release_call_asks(call, env, at),
        Call::TryAutoRelease { .. } => lemma_release_call_asks(call, env, at),
        Call::ReleasePartial { .. } => lemma_partial_call_asks(call, env, at),
        _ => {},
    }
}

/// An accepted call asks for the word of its authorizer and of nobody else, and
/// asks for it before it writes, moves or announces anything.
pub proof fn authorizer_is_asked_first(call: Call, env: EnvView, at: int, who: Address)
    requires
        call.accepted(env),
        0 <= at < call.ops(env).len(),
    ensures
        asked(call.ops(env), call.ops(env).len() as int, who) <==> call.authorizer(env) == Some(
            who,
        ),
        (call.ops(env)[at] is Write || call.ops(env)[at] is Transfer || call.ops(env)[at]
            is Publish) && call.authorizer(env) == Some(who) ==> asked(call.ops(env), at, who),
{
    let ops = call.ops(env);
    lemma_asks(call, env, at);
    if call.authorizer(env) is Some {
        lemma_asks(call, env, call.asked_at());
    }
    if asked(ops, ops.len() as int, who) {
        let i = choose|i: int|
            0 <= i < ops.len() && #[trigger] ops[i] == HostOp::RequireAuth(who);
        lemma_asks(call, env, i);
    }
}

/// A creation whose amount is positive and whose token is approved asks for the
/// word of the learner before anything else, also where the balance is not known
/// yet; that is then all it asks for.
pub proof fn creation_asks_the_learner_first(
    env: EnvView,
    mentor: Address,
    learner: Address,
    amount: i128,
    session_id: Symbol,
    token_address: Address,
    session_end_time: u64,
)
    requires
        amount > 0,
        env.ledger.token_approved(token_address),
    ensures
        ({
            let ops = env.create_escrow_ops(
                mentor,
                learner,
                amount,
                session_id,
                token_address,
                session_end_time,
            );
            &&& ops.len() > 0
            &&& ops[0] == HostOp::RequireAuth(learner)
            &&& !env.balances.contains_key((token_address, learner)) ==> ops.len() == 1
        }),
{
}

/// Once the contract is initialized, the fee, the treasury and the list of
/// approved tokens change only on the word of the admin.
pub proof fn settings_belong_to_the_admin(call: Call, env: EnvView, key: DataKey)
    requires
        env.ledger.admin() is Some,
        key is Treasury || key is FeeBps || key is ApprovedToken,
        call.after(env).get(key) != env.ledger.get(key),
    ensures
        call.accepted(env),
        admin_asked(env, call.ops(env), call.ops(env).len() as int),
        call is UpdateFee || call is UpdateTreasury || call is SetApprovedToken,
{
    crate::laws::effects::call_effect(call, env);
    match call {
        Call::Initialize { .. } => {
            assert(!call.accepted(env));
        },
        Call::UpdateFee { .. } => {
            assert(call.ops(env)[1] == HostOp::RequireAuth(env.ledger.admin()->0));
        },
        Call::UpdateTreasury { .. } => {
            assert(call.ops(env)[1] == HostOp::RequireAuth(env.ledger.admin()->0));
        },
        Call::SetApprovedToken { .. } => {
            assert(call.ops(env)[1] == HostOp::RequireAuth(env.ledger.admin()->0));
        },
        _ => {},
    }
}

/// The auto-release delay is set by the initialization and never changes after.
pub proof fn delay_is_fixed(call: Call, env: EnvView)
    requires
        env.ledger.has(DataKey::Admin),
    ensures
        call.after(env).get(DataKey::AutoReleaseDelay) == env.ledger.get(DataKey::AutoReleaseDelay),
{
    crate::laws::effects::call_effect(call, env);
    match call {
        Call::Initialize { .. } => {
            assert(!call.accepted(env));
        },
        _ => {},
    }
}

/// An escrow changes only on the word of the admin, its learner or its mentor,
/// unless its auto-release time has come. All that the mentor alone can do is
/// open a dispute.
pub proof fn escrows_belong_to_their_parties(call: Call, env: EnvView, id: u64)
    requires
        env.ledger.consistent(),
        env.ledger.escrow(id) is Some,
        call.after(env).escrow(id) != env.ledger.escrow(id),
    ensures
        call.accepted(env),
        call.escrow_id() == Some(id),
        ({
            let escrow = env.ledger.escrow(id)->0;
            let ops = call.ops(env);
            let n = ops.len() as int;
            ||| admin_asked(env, ops, n)
            ||| asked(ops, n, escrow.learner)
            ||| call is Dispute && asked(ops, n, escrow.mentor)
            ||| call.in_auto_release(env, escrow)
        }),
{
    let ops = call.ops(env);
    assert(env.ledger.entries.contains_key(DataKey::Escrow(id)));
    assert(env.ledger.entries.contains_key(DataKey::Admin));
    crate::laws::effects::call_effect(call, env);
    match call {
        Call::Initialize { .. } => {
            assert(!call.accepted(env));
        },
        Call::ReleaseFunds { caller, .. } => {
            assert(call.accepted(env) ==> ops[2] == HostOp::RequireAuth(caller));
        },
        Call::ReleasePartial { caller, .. } => {
            assert(call.accepted(env) ==> ops[2] == HostOp::RequireAuth(caller));
        },
        Call::AdminRelease { .. } => {
            assert(call.accepted(env) ==> ops[2] == HostOp::RequireAuth(env.ledger.admin()->0));
        },
        Call::Dispute { caller, .. } => {
            assert(call.accepted(env) ==> ops[1] == HostOp::RequireAuth(caller));
        },
        Call::ResolveDispute { .. } => {
            assert(call.accepted(env) ==> ops[1] == HostOp::RequireAuth(env.ledger.admin()->0));
        },
        Call::Refund { .. } => {
            assert(call.accepted(env) ==> ops[1] == HostOp::RequireAuth(env.ledger.admin()->0));
        },
        _ => {},
    }
}

/// A review is kept only on the word of the learner of the escrow.
pub proof fn reviews_belong_to_the_learner(call: Call, env: EnvView, id: u64)
    requires
        env.ledger.consistent(),
        call.after(env).get(DataKey::Review(id)) != env.ledger.get(DataKey::Review(id)),
    ensures
        call is SubmitReview,
        call.accepted(env),
        env.ledger.escrow(id) is Some,
        asked(call.ops(env), call.ops(env).len() as int, env.ledger.escrow(id)->0.learner),
{
    crate::laws::effects::call_effect(call, env);
    match call {
        Call::Initialize { .. } => {
            if call.accepted(env) {
                crate::laws::effects::initialization_sets(call, env, DataKey::Review(id));
            }
        },
        Call::SubmitReview { caller, .. } => {
            assert(call.accepted(env) ==> call.ops(env)[1] == HostOp::RequireAuth(caller));
        },
        _ => {},
    }
}

/// What is paid out of an escrow can be put on its record.
proof fn lemma_payout_recorded(env: EnvView, id: u64, amount: i128)
    requires
        env.ledger.consistent(),
        env.active_escrow(id) is Ok,
        0 < amount <= env.ledger.escrow(id)->0.amount,
        env.payout_possible(amount),
    ensures
        env.payout_result(env.ledger.escrow(id)->0, amount) is Ok,
{
    assert(env.ledger.entries.contains_key(DataKey::Escrow(id)));
    assert(env.ledger.fee_bps() <= MAX_FEE_BPS);
    crate::laws::splits::fee_split(amount as int, env.ledger.fee_bps() as int);
}

/// A release of all that an escrow holds that is rejected moves nothing.
proof fn lemma_rejected_release_moves_nothing(call: Call, env: EnvView, at: int)
    requires
        env.ledger.consistent(),
        call is ReleaseFunds || call is AdminRelease || call is TryAutoRelease,
        !call.accepted(env),
        0 <= at < call.ops(env).len(),
    ensures
        !(call.ops(env)[at] is Transfer),
{
    lemma_rejected_release(env, call.escrow_id()->0);
}

/// A partial release that is rejected moves nothing.
proof fn lemma_rejected_partial_moves_nothing(call: Call, env: EnvView, at: int)
    requires
        env.ledger.consistent(),
        call is ReleasePartial,
        !call.accepted(env),
        0 <= at < call.ops(env).len(),
    ensures
        !(call.ops(env)[at] is Transfer),
{
    match call {
        Call::ReleasePartial { escrow_id, amount_to_release, .. } => {
            if env.active_escrow(escrow_id) is Ok && 0 < amount_to_release
                <= env.ledger.escrow(escrow_id)->0.amount && env.payout_possible(
                amount_to_release,
            ) {
                lemma_payout_recorded(env, escrow_id, amount_to_release);
            }
        },
        _ => {},
    }
}

/// A call that is rejected did not come as far as to move tokens.
pub proof fn rejected_call_moves_nothing(call: Call, env: EnvView, at: int)
    requires
        env.ledger.consistent(),
        !call.accepted(env),
        0 <= at < call.ops(env).len(),
    ensures
        !(call.ops(env)[at] is Transfer),
{
    match call {
        Call::ReleaseFunds { .. } => lemma_rejected_release_moves_nothing(call, env, at),
        Call::AdminRelease { .. } => lemma_rejected_release_moves_nothing(call, env, at),
        Call::TryAutoRelease { .. } => lemma_rejected_release_moves_nothing(call, env, at),
        Call::ReleasePartial { .. } => lemma_rejected_partial_moves_nothing(call, env, at),
        Call::CreateEscrow { .. } => {},
        Call::ResolveDispute { .. } => {},
        Call::Refund { .. } => {},
        _ => {
            if call.ops(env)[at] is Transfer {
                crate::laws::payments::other_calls_pay_nothing(call, env, at);
            }
        },
    }
}

proof fn lemma_rejected_release(env: EnvView, id: u64)
    requires
        env.ledger.consistent(),
    ensures
        env.active_escrow(id) is Ok && env.payout_possible(env.ledger.escrow(id)->0.amount)
            ==> env.payout_result(env.ledger.escrow(id)->0, env.ledger.escrow(id)->0.amount) is Ok,
{
    if env.active_escrow(id) is Ok && env.payout_possible(env.ledger.escrow(id)->0.amount) {
        assert(env.ledger.entries.contains_key(DataKey::Escrow(id)));
        lemma_payout_recorded(env, id, env.ledger.escrow(id)->0.amount);
    }
}

} // verus!
