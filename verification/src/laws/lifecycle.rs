//! How an escrow lives.

use vstd::prelude::*;

use crate::call::{Call, Reply};
use crate::error::EscrowError;
use crate::host::EnvView;
use crate::ledger::{DataKey, Entry};
use crate::types::{Address, Escrow, EscrowStatus, Symbol};

verus! {

impl EscrowStatus {
    /// The steps from one state to another.
    pub open spec fn may_become(self, next: EscrowStatus) -> bool {
        ||| self == next
        ||| self == EscrowStatus::Active && next == EscrowStatus::Released
        ||| self == EscrowStatus::Active && next == EscrowStatus::Disputed
        ||| self == EscrowStatus::Active && next == EscrowStatus::Refunded
        ||| self == EscrowStatus::Disputed && next == EscrowStatus::Resolved
        ||| self == EscrowStatus::Disputed && next == EscrowStatus::Refunded
    }
}

impl Escrow {
    /// Whether `later` is about the same session on the same terms.
    pub open spec fn same_terms(self, later: Escrow) -> bool {
        &&& self.id == later.id
        &&& self.mentor == later.mentor
        &&& self.learner == later.learner
        &&& self.session_id == later.session_id
        &&& self.created_at == later.created_at
        &&& self.token_address == later.token_address
        &&& self.session_end_time == later.session_end_time
        &&& self.auto_release_delay == later.auto_release_delay
    }
}

/// No call removes an escrow or changes its terms, and its state takes only the
/// steps of `may_become`.
pub proof fn escrow_keeps_terms(call: Call, env: EnvView, id: u64)
    requires
        env.ledger.escrow(id) is Some,
        env.ledger.consistent(),
    ensures
        call.after(env).escrow(id) is Some,
        env.ledger.escrow(id)->0.same_terms(call.after(env).escrow(id)->0),
        env.ledger.escrow(id)->0.status.may_become(call.after(env).escrow(id)->0.status),
{
    lemma_next_escrow(call, env, id);
}

/// An escrow that was released, refunded or resolved stays as it is, whatever is
/// called.
pub proof fn closed_escrow_is_final(call: Call, env: EnvView, id: u64)
    requires
        env.ledger.escrow(id) is Some,
        env.ledger.consistent(),
        !env.ledger.escrow(id)->0.status.is_open(),
    ensures
        call.after(env).escrow(id) == env.ledger.escrow(id),
{
    lemma_next_escrow(call, env, id);
}

/// Nothing of a deposit is lost: what an escrow holds, what went to the treasury
/// and what went to the mentor add up to the same sum after every call. When a
/// dispute is settled, what the escrow held is split between the mentor and the
/// learner to the last unit.
pub proof fn deposit_is_accounted_for(call: Call, env: EnvView, id: u64)
    requires
        env.ledger.escrow(id) is Some,
        env.ledger.consistent(),
    ensures
        ({
            let before = env.ledger.escrow(id)->0;
            let after = call.after(env).escrow(id)->0;
            &&& 0 <= after.amount <= before.amount
            &&& after.status != EscrowStatus::Resolved ==> after.accounted() == before.accounted()
            &&& after.status == EscrowStatus::Resolved && before.status != EscrowStatus::Resolved
                ==> after.net_amount + after.platform_fee == before.amount
        }),
{
    lemma_next_escrow(call, env, id);
}

/// What an escrow can turn into in one call.
pub open spec fn next_escrow(env: EnvView, before: Escrow, after: Escrow) -> bool {
    ||| after == before
    ||| before.status == EscrowStatus::Active && exists|amount: i128|
        0 < amount <= before.amount && after == #[trigger] before.after_payout(
            amount as int,
            env.ledger.fee_bps() as int,
        )
    ||| before.status == EscrowStatus::Active && exists|reason: Symbol|
        after == #[trigger] before.disputed(reason)
    ||| before.status == EscrowStatus::Disputed && exists|mentor_pct: u32|
        mentor_pct <= 100 && after == #[trigger] before.resolved(mentor_pct as int, env.timestamp)
    ||| before.status.is_open() && after == before.refunded()
}

/// An escrow turns into one of the records that `next_escrow` lists, and its
/// parts add up.
proof fn lemma_next_escrow(call: Call, env: EnvView, id: u64)
    requires
        env.ledger.escrow(id) is Some,
        env.ledger.consistent(),
    ensures
        call.after(env).escrow(id) is Some,
        ({
            let before = env.ledger.escrow(id)->0;
            let after = call.after(env).escrow(id)->0;
            &&& next_escrow(env, before, after)
            &&& before.same_terms(after)
            &&& before.status.may_become(after.status)
            &&& !before.status.is_open() ==> after == before
            &&& 0 <= after.amount <= before.amount
            &&& after.status != EscrowStatus::Resolved ==> after.accounted() == before.accounted()
            &&& after.status == EscrowStatus::Resolved && before.status != EscrowStatus::Resolved
                ==> after.net_amount + after.platform_fee == before.amount
        }),
{
    let before = env.ledger.escrow(id)->0;
    assert(env.ledger.entries.contains_key(DataKey::Escrow(id)));
    lemma_which_escrow(call, env, id);
    let after = call.after(env).escrow(id)->0;
    if after != before {
        let fee_bps = env.ledger.fee_bps() as int;
        if exists|amount: i128|
            0 < amount <= before.amount && after == #[trigger] before.after_payout(
                amount as int,
                fee_bps,
            ) {
            let amount = choose|amount: i128|
                0 < amount <= before.amount && after == #[trigger] before.after_payout(
                    amount as int,
                    fee_bps,
                );
            crate::laws::splits::fee_split(amount as int, fee_bps);
        }
        if exists|mentor_pct: u32|
            mentor_pct <= 100 && after == #[trigger] before.resolved(
                mentor_pct as int,
                env.timestamp,
            ) {
            let mentor_pct = choose|mentor_pct: u32|
                mentor_pct <= 100 && after == #[trigger] before.resolved(
                    mentor_pct as int,
                    env.timestamp,
                );
            crate::laws::splits::dispute_split(before.amount as int, mentor_pct as int);
        }
    }
}

/// An escrow turns into one of the records that `next_escrow` lists.
proof fn lemma_which_escrow(call: Call, env: EnvView, id: u64)
    requires
        env.ledger.escrow(id) is Some,
        env.ledger.consistent(),
    ensures
        call.after(env).escrow(id) is Some,
        next_escrow(env, env.ledger.escrow(id)->0, call.after(env).escrow(id)->0),
{
    let before = env.ledger.escrow(id)->0;
    let after = call.after(env);
    let fee_bps = env.ledger.fee_bps() as int;
    assert(env.ledger.entries.contains_key(DataKey::Escrow(id)));
    crate::laws::effects::call_effect(call, env);
    if call.accepted(env) {
        match call {
            Call::Initialize { .. } => {
                assert(env.ledger.entries.contains_key(DataKey::Admin));
            },
            Call::ReleaseFunds { escrow_id, .. } => {
                if escrow_id == id {
                    assert(after.escrow(id)->0 == before.after_payout(
                        before.amount as int,
                        fee_bps,
                    ));
                }
            },
            Call::ReleasePartial { escrow_id, amount_to_release, .. } => {
                if escrow_id == id {
                    assert(after.escrow(id)->0 == before.after_payout(
                        amount_to_release as int,
                        fee_bps,
                    ));
                }
            },
            Call::AdminRelease { escrow_id } => {
                if escrow_id == id {
                    assert(after.escrow(id)->0 == before.after_payout(
                        before.amount as int,
                        fee_bps,
                    ));
                }
            },
            Call::TryAutoRelease { escrow_id } => {
                if escrow_id == id {
                    assert(after.escrow(id)->0 == before.after_payout(
                        before.amount as int,
                        fee_bps,
                    ));
                }
            },
            Call::Dispute { escrow_id, reason, .. } => {
                if escrow_id == id {
                    assert(after.escrow(id)->0 == before.disputed(reason));
                }
            },
            Call::ResolveDispute { escrow_id, mentor_pct } => {
                if escrow_id == id {
                    assert(after.escrow(id)->0 == before.resolved(
                        mentor_pct as int,
                        env.timestamp,
                    ));
                }
            },
            Call::Refund { escrow_id } => {
                if escrow_id == id {
                    assert(after.escrow(id)->0 == before.refunded());
                }
            },
            _ => {},
        }
    }
}

/// Nothing is ever removed from the ledger.
pub proof fn entries_stay(call: Call, env: EnvView, key: DataKey)
    requires
        env.ledger.has(key),
    ensures
        call.after(env).has(key),
{
    crate::laws::effects::call_effect(call, env);
    match call {
        Call::Initialize {
            admin,
            treasury,
            fee_bps,
            approved_tokens,
            auto_release_delay_secs,
        } => {
            let set_up = env.ledger.set_up(
                admin,
                treasury,
                fee_bps,
                auto_release_delay_secs,
            );
            crate::laws::effects::lemma_write_all_keeps_keys(
                set_up,
                approved_tokens@.map_values(|token: Address| Entry::ApprovedToken(token, true)),
                key,
            );
        },
        _ => {},
    }
}

/// The admin is set once: a second initialization is rejected, and no call
/// changes the admin.
pub proof fn initialized_once(call: Call, env: EnvView)
    requires
        env.ledger.has(DataKey::Admin),
    ensures
        call is Initialize ==> call.result(env) == Err::<Reply, EscrowError>(
            EscrowError::AlreadyInitialized,
        ),
        call.after(env).get(DataKey::Admin) == env.ledger.get(DataKey::Admin),
{
    crate::laws::effects::call_effect(call, env);
    match call {
        Call::Initialize { .. } => {
            assert(!call.accepted(env));
        },
        _ => {},
    }
}

/// A session id is used once: where an escrow was created for it, every further
/// creation for it is rejected.
pub proof fn session_used_once(call: Call, env: EnvView)
    requires
        match call {
            Call::CreateEscrow { session_id, .. } => env.ledger.session_taken(session_id),
            _ => false,
        },
    ensures
        !call.accepted(env),
        call.after(env) == env.ledger,
{
    crate::laws::effects::call_effect(call, env);
}

/// A creation that is accepted takes the next id, takes the session, and adds an
/// active escrow that holds the deposit; all other escrows stay.
pub proof fn creation_adds_one_escrow(call: Call, env: EnvView)
    requires
        call is CreateEscrow,
        call.accepted(env),
    ensures
        match call {
            Call::CreateEscrow {
                mentor,
                learner,
                amount,
                session_id,
                token_address,
                session_end_time,
            } => {
                let id = (env.ledger.escrow_count() + 1) as u64;
                let after = call.after(env);
                &&& call.result(env) == Ok::<Reply, EscrowError>(
                    Reply::Number(env.ledger.escrow_count() + 1),
                )
                &&& after.escrow_count() == env.ledger.escrow_count() + 1
                &&& after.session_taken(session_id)
                &&& after.escrow(id) == Some(
                    env.new_escrow(
                        mentor,
                        learner,
                        amount,
                        session_id,
                        token_address,
                        session_end_time,
                    ),
                )
                &&& forall|other: u64|
                    other != id ==> #[trigger] after.escrow(other) == env.ledger.escrow(other)
            },
            _ => false,
        },
{
    crate::laws::effects::call_effect(call, env);
}

/// The three ways to release all of an escrow leave the same ledger wherever they
/// go through, and so does a partial release of all that the escrow holds.
pub proof fn releases_agree(env: EnvView, caller: Address, id: u64)
    requires
        env.release_funds_result(caller, id) is Ok,
    ensures
        (Call::ReleaseFunds { caller, escrow_id: id }).after(env) == env.released(id),
        env.admin_release_result(id) is Ok ==> (Call::AdminRelease { escrow_id: id }).after(env)
            == env.released(id),
        env.try_auto_release_result(id) is Ok ==> (Call::TryAutoRelease { escrow_id: id }).after(
            env,
        ) == env.released(id),
        env.release_partial_result(caller, id, env.ledger.escrow(id)->0.amount) is Ok ==> (
        Call::ReleasePartial {
            caller,
            escrow_id: id,
            amount_to_release: env.ledger.escrow(id)->0.amount,
        }).after(env) == env.released(id),
{
    crate::laws::effects::call_effect(Call::ReleaseFunds { caller, escrow_id: id }, env);
    crate::laws::effects::call_effect(Call::AdminRelease { escrow_id: id }, env);
    crate::laws::effects::call_effect(Call::TryAutoRelease { escrow_id: id }, env);
    crate::laws::effects::call_effect(
        Call::ReleasePartial {
            caller,
            escrow_id: id,
            amount_to_release: env.ledger.escrow(id)->0.amount,
        },
        env,
    );
}

/// A release by hand, by the admin and by anyone after the auto-release time pay
/// the same: whichever of them goes through ends with the same requests, by which
/// the fee goes to the treasury and the rest to the mentor.
pub proof fn releases_pay_the_same(env: EnvView, caller: Address, id: u64)
    requires
        env.active_escrow(id) is Ok,
    ensures
        ({
            let release = env.release_ops(id, env.ledger.escrow(id)->0);
            &&& env.release_funds_result(caller, id) is Ok ==> release.is_suffix_of(
                env.release_funds_ops(caller, id),
            )
            &&& env.admin_release_result(id) is Ok ==> release.is_suffix_of(
                env.admin_release_ops(id),
            )
            &&& env.try_auto_release_result(id) is Ok ==> release.is_suffix_of(
                env.try_auto_release_ops(id),
            )
        }),
{
}

/// No deposit is stuck: whatever an open escrow holds, the admin can refund it;
/// the learner and the admin can release an active one, as long as the fee on it
/// can be computed; and the admin can settle a disputed one at any percentage.
pub proof fn open_escrow_can_be_closed(env: EnvView, caller: Address, id: u64, mentor_pct: u32)
    requires
        env.ledger.consistent(),
        env.ledger.escrow(id) is Some,
        env.ledger.escrow(id)->0.status.is_open(),
    ensures
        env.refund_result(id) is Ok,
        env.ledger.escrow(id)->0.status == EscrowStatus::Disputed && mentor_pct <= 100
            ==> env.resolve_dispute_result(id, mentor_pct) is Ok,
        ({
            let escrow = env.ledger.escrow(id)->0;
            let computable = crate::fees::fits(escrow.amount * env.ledger.fee_bps());
            let may_release = caller == escrow.learner || Some(caller) == env.ledger.admin();
            escrow.status == EscrowStatus::Active && may_release ==> {
                &&& computable ==> env.release_funds_result(caller, id) is Ok
                &&& !computable ==> env.release_funds_result(caller, id) == Err::<(), EscrowError>(
                    EscrowError::Overflow,
                )
            }
        }),
{
    let escrow = env.ledger.escrow(id)->0;
    assert(env.ledger.entries.contains_key(DataKey::Escrow(id)));
    assert(env.ledger.entries.contains_key(DataKey::Admin));
    assert(env.ledger.entries.contains_key(DataKey::Treasury));
    crate::laws::splits::fee_split(escrow.amount as int, env.ledger.fee_bps() as int);
}

/// Anyone can release an active escrow from `session_end_time +
/// auto_release_delay` on, and nobody before, as long as that time and the fee
/// can be computed.
pub proof fn auto_release_opens_on_time(env: EnvView, id: u64)
    requires
        env.ledger.consistent(),
        env.active_escrow(id) is Ok,
        env.ledger.escrow(id)->0.session_end_time + env.ledger.escrow(id)->0.auto_release_delay
            <= u64::MAX,
        crate::fees::fits(env.ledger.escrow(id)->0.amount * env.ledger.fee_bps()),
    ensures
        env.try_auto_release_result(id) is Ok <==> env.timestamp >= env.ledger.escrow(
            id,
        )->0.session_end_time + env.ledger.escrow(id)->0.auto_release_delay,
        forall|i: int|
            0 <= i < env.try_auto_release_ops(id).len() ==> !(
            #[trigger] env.try_auto_release_ops(id)[i] is RequireAuth),
{
    let escrow = env.ledger.escrow(id)->0;
    assert(env.ledger.entries.contains_key(DataKey::Escrow(id)));
    assert(env.ledger.entries.contains_key(DataKey::Treasury));
    crate::laws::splits::fee_split(escrow.amount as int, env.ledger.fee_bps() as int);
}

/// A creation that has to know the learner's balance first asks for nothing that
/// it would not ask for once it knows: the requests of the first try are the
/// beginning of those of the second.
pub proof fn creation_resumes_with_balance(call: Call, env: EnvView, informed: EnvView)
    requires
        call is CreateEscrow,
        call.result(env) == Err::<Reply, EscrowError>(EscrowError::BalanceUnavailable),
        informed.ledger == env.ledger,
    ensures
        call.ops(env).len() <= call.ops(informed).len(),
        call.ops(env) == call.ops(informed).take(call.ops(env).len() as int),
{
}

} // verus!
