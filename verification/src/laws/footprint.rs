//! What a call reads of the ledger.

use vstd::prelude::*;

use crate::call::Call;
use crate::host::EnvView;
use crate::ledger::{DataKey, LedgerView};
use crate::types::Address;

verus! {

/// The escrows of a mentor are found by the escrows alone.
proof fn lemma_escrows_of(first: LedgerView, second: LedgerView, mentor: Address, n: nat)
    requires
        n <= u64::MAX,
        forall|id: u64| 1 <= id <= n ==> #[trigger] first.escrow(id) == second.escrow(id),
    ensures
        first.escrows_of(mentor, n) == second.escrows_of(mentor, n),
    decreases n,
{
    if n > 0 {
        lemma_escrows_of(first, second, mentor, (n - 1) as nat);
        assert(first.escrow(n as u64) == second.escrow(n as u64));
    }
}

/// A call depends on no ledger entry but those in its footprint: where two
/// ledgers agree on these, and all else that the call sees is the same, it
/// returns the same and asks the chain for the same.
pub proof fn footprint_is_complete(call: Call, first: EnvView, second: EnvView)
    requires
        first.contract == second.contract,
        first.timestamp == second.timestamp,
        first.balances == second.balances,
        forall|i: int|
            0 <= i < call.reads(first.ledger.escrow_count()).len() ==> first.ledger.get(
                #[trigger] call.reads(first.ledger.escrow_count())[i],
            ) == second.ledger.get(call.reads(first.ledger.escrow_count())[i]),
    ensures
        call.result(first) == call.result(second),
        call.ops(first) == call.ops(second),
{
    let count = first.ledger.escrow_count();
    let keys = call.reads(count);
    match call {
        Call::Initialize { .. } => {
            assert(keys[0] == DataKey::Admin);
        },
        Call::UpdateFee { .. } => {
            assert(keys[0] == DataKey::Admin);
        },
        Call::UpdateTreasury { .. } => {
            assert(keys[0] == DataKey::Admin);
        },
        Call::SetApprovedToken { .. } => {
            assert(keys[0] == DataKey::Admin);
        },
        Call::CreateEscrow { session_id, token_address, .. } => {
            assert(keys[0] == DataKey::ApprovedToken(token_address));
            assert(keys[1] == DataKey::AutoReleaseDelay);
            assert(keys[2] == DataKey::Session(session_id));
            assert(keys[3] == DataKey::EscrowCount);
        },
        Call::ReleaseFunds { escrow_id, .. } => {
            assert(keys[0] == DataKey::Escrow(escrow_id));
            assert(keys[1] == DataKey::Admin);
            assert(keys[2] == DataKey::FeeBps);
            assert(keys[3] == DataKey::Treasury);
        },
        Call::ReleasePartial { escrow_id, .. } => {
            assert(keys[0] == DataKey::Escrow(escrow_id));
            assert(keys[1] == DataKey::Admin);
            assert(keys[2] == DataKey::FeeBps);
            assert(keys[3] == DataKey::Treasury);
        },
        Call::AdminRelease { escrow_id } => {
            assert(keys[0] == DataKey::Escrow(escrow_id));
            assert(keys[1] == DataKey::Admin);
            assert(keys[2] == DataKey::FeeBps);
            assert(keys[3] == DataKey::Treasury);
        },
        Call::TryAutoRelease { escrow_id } => {
            assert(keys[0] == DataKey::Escrow(escrow_id));
            assert(keys[1] == DataKey::FeeBps);
            assert(keys[2] == DataKey::Treasury);
        },
        Call::ResolveDispute { escrow_id, .. } => {
            assert(keys[0] == DataKey::Admin);
            assert(keys[1] == DataKey::Escrow(escrow_id));
        },
        Call::Refund { escrow_id } => {
            assert(keys[0] == DataKey::Admin);
            assert(keys[1] == DataKey::Escrow(escrow_id));
        },
        Call::GetEscrowsByMentor { mentor } => {
            assert(keys[0] == DataKey::EscrowCount);
            assert forall|id: u64| 1 <= id <= count implies #[trigger] first.ledger.escrow(id)
                == second.ledger.escrow(id) by {
                assert(keys[id as int] == DataKey::Escrow(id));
            }
            lemma_escrows_of(first.ledger, second.ledger, mentor, count as nat);
        },
        _ => {
            assert(first.ledger.get(keys[0]) == second.ledger.get(keys[0]));
        },
    }
}

} // verus!
