//! What the queries give back of what was written.

use vstd::prelude::*;

use crate::call::{Call, Reply};
use crate::error::EscrowError;
use crate::host::EnvView;
use crate::ledger::{DataKey, Entry, LedgerView, DEFAULT_AUTO_RELEASE_DELAY};
use crate::types::{Address, Escrow};

verus! {

/// After an initialization the queries give back its arguments: the fee, the
/// treasury, the delay (72 hours where 0 was given), no escrows, and exactly the
/// tokens that it approved.
pub proof fn initialization_is_read_back(call: Call, env: EnvView, later: EnvView, token: Address)
    requires
        env.ledger.consistent(),
        call is Initialize,
        call.accepted(env),
        later.ledger == call.after(env),
    ensures
        match call {
            Call::Initialize {
                admin,
                treasury,
                fee_bps,
                approved_tokens,
                auto_release_delay_secs,
            } => {
                &&& later.ledger.admin() == Some(admin)
                &&& Call::GetFeeBps.result(later) == Ok::<Reply, EscrowError>(
                    Reply::Number(fee_bps as int),
                )
                &&& Call::GetTreasury.result(later) == Ok::<Reply, EscrowError>(
                    Reply::Party(treasury),
                )
                &&& Call::GetEscrowCount.result(later) == Ok::<Reply, EscrowError>(Reply::Number(0))
                &&& Call::GetAutoReleaseDelay.result(later) == Ok::<Reply, EscrowError>(
                    Reply::Number(
                        if auto_release_delay_secs == 0 {
                            DEFAULT_AUTO_RELEASE_DELAY as int
                        } else {
                            auto_release_delay_secs as int
                        },
                    ),
                )
                &&& (Call::IsTokenApproved { token_address: token }).result(later) == Ok::<
                    Reply,
                    EscrowError,
                >(Reply::Flag(approved_tokens@.contains(token)))
            },
            _ => false,
        },
{
    crate::laws::effects::initialization_sets(call, env, DataKey::Admin);
    crate::laws::effects::initialization_sets(call, env, DataKey::Treasury);
    crate::laws::effects::initialization_sets(call, env, DataKey::FeeBps);
    crate::laws::effects::initialization_sets(call, env, DataKey::EscrowCount);
    crate::laws::effects::initialization_sets(call, env, DataKey::AutoReleaseDelay);
    crate::laws::effects::call_effect(call, env);
    match call {
        Call::Initialize {
            admin,
            treasury,
            fee_bps,
            approved_tokens,
            auto_release_delay_secs,
        } => {
            assert(!env.ledger.entries.contains_key(DataKey::ApprovedToken(token)));
            lemma_approved(
                env.ledger.set_up(admin, treasury, fee_bps, auto_release_delay_secs),
                approved_tokens@,
                token,
            );
        },
        _ => {},
    }
}

/// Approving a list of tokens approves the tokens on it.
proof fn lemma_approved(ledger: LedgerView, tokens: Seq<Address>, token: Address)
    ensures
        ledger.write_all(
            tokens.map_values(|approved: Address| Entry::ApprovedToken(approved, true)),
        ).token_approved(token) == (tokens.contains(token) || ledger.token_approved(token)),
    decreases tokens.len(),
{
    let entry = |approved: Address| Entry::ApprovedToken(approved, true);
    let entries = tokens.map_values(entry);
    if tokens.len() > 0 {
        let earlier = tokens.drop_last();
        lemma_approved(ledger, earlier, token);
        assert(entries.drop_last() == earlier.map_values(entry));
        assert(entries.last() == entry(tokens.last()));
        if tokens.contains(token) && token != tokens.last() {
            let i = choose|i: int| 0 <= i < tokens.len() && tokens[i] == token;
            assert(earlier[i] == token);
        }
        if earlier.contains(token) {
            let i = choose|i: int| 0 <= i < earlier.len() && earlier[i] == token;
            assert(tokens[i] == token);
        }
        assert(tokens[tokens.len() - 1] == tokens.last());
    }
}

/// A changed fee, treasury or approval is what the query gives back.
pub proof fn settings_are_read_back(call: Call, env: EnvView, later: EnvView)
    requires
        call is UpdateFee || call is UpdateTreasury || call is SetApprovedToken,
        call.accepted(env),
        later.ledger == call.after(env),
    ensures
        match call {
            Call::UpdateFee { new_fee_bps } => Call::GetFeeBps.result(later) == Ok::<
                Reply,
                EscrowError,
            >(Reply::Number(new_fee_bps as int)),
            Call::UpdateTreasury { new_treasury } => Call::GetTreasury.result(later) == Ok::<
                Reply,
                EscrowError,
            >(Reply::Party(new_treasury)),
            Call::SetApprovedToken { token_address, approved } => (Call::IsTokenApproved {
                token_address,
            }).result(later) == Ok::<Reply, EscrowError>(Reply::Flag(approved)),
            _ => false,
        },
{
    crate::laws::effects::call_effect(call, env);
}

/// A created escrow is what `get_escrow` gives back under the id that the
/// creation returned, which is also the number of escrows.
pub proof fn created_escrow_is_read_back(call: Call, env: EnvView, later: EnvView)
    requires
        call is CreateEscrow,
        call.accepted(env),
        later.ledger == call.after(env),
    ensures
        match call {
            Call::CreateEscrow {
                mentor,
                learner,
                amount,
                session_id,
                token_address,
                session_end_time,
            } => {
                let escrow = env.new_escrow(
                    mentor,
                    learner,
                    amount,
                    session_id,
                    token_address,
                    session_end_time,
                );
                &&& call.result(env) == Ok::<Reply, EscrowError>(Reply::Number(escrow.id as int))
                &&& (Call::GetEscrow { escrow_id: escrow.id }).result(later) == Ok::<
                    Reply,
                    EscrowError,
                >(Reply::Record(escrow))
                &&& Call::GetEscrowCount.result(later) == call.result(env)
            },
            _ => false,
        },
{
    crate::laws::effects::call_effect(call, env);
}

/// A review is kept as it was submitted; a later one takes its place.
pub proof fn review_is_kept(call: Call, env: EnvView)
    requires
        call is SubmitReview,
        call.accepted(env),
    ensures
        match call {
            Call::SubmitReview { escrow_id, reason, .. } => call.after(env).review(escrow_id)
                == Some(reason),
            _ => false,
        },
{
    crate::laws::effects::call_effect(call, env);
}

/// The queries leave the ledger as it is.
pub proof fn queries_change_nothing(call: Call, env: EnvView)
    requires
        call is GetEscrow || call is GetEscrowCount || call is GetFeeBps || call is GetTreasury
            || call is GetAutoReleaseDelay || call is IsTokenApproved || call is GetEscrowsByMentor,
    ensures
        call.after(env) == env.ledger,
{
    crate::laws::effects::call_effect(call, env);
}

/// The query for the escrows of a mentor gives back every escrow of the mentor
/// and no other, each once, in the order in which they were created.
pub proof fn mentor_query_is_complete(ledger: LedgerView, mentor: Address, n: nat)
    requires
        ledger.consistent(),
        n <= ledger.escrow_count(),
    ensures
        ({
            let found = ledger.escrows_of(mentor, n);
            &&& forall|i: int|
                0 <= i < found.len() ==> {
                    let escrow = #[trigger] found[i];
                    &&& escrow.mentor == mentor
                    &&& 1 <= escrow.id <= n
                    &&& ledger.escrow(escrow.id) == Some(escrow)
                }
            &&& forall|id: u64|
                1 <= id <= n && (#[trigger] ledger.escrow(id))->0.mentor == mentor
                    ==> found.contains(ledger.escrow(id)->0)
            &&& forall|i: int, j: int|
                0 <= i < j < found.len() ==> (#[trigger] found[i]).id < (#[trigger] found[j]).id
        }),
    decreases n,
{
    if n > 0 {
        let before = ledger.escrows_of(mentor, (n - 1) as nat);
        let found = ledger.escrows_of(mentor, n);
        let last = n as u64;
        mentor_query_is_complete(ledger, mentor, (n - 1) as nat);
        assert(ledger.entries.contains_key(DataKey::Escrow(last)));
        let escrow = ledger.escrow(last)->0;
        assert forall|id: u64|
            1 <= id <= n && (#[trigger] ledger.escrow(id))->0.mentor == mentor implies found.contains(
            ledger.escrow(id)->0,
        ) by {
            if id == last {
                assert(found[found.len() - 1] == escrow);
            } else {
                let i = choose|i: int|
                    0 <= i < before.len() && before[i] == ledger.escrow(id)->0;
                assert(found[i] == ledger.escrow(id)->0);
            }
        }
    }
}

} // verus!
