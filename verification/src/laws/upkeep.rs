//! How entries are kept alive.

use vstd::prelude::*;

use crate::call::Call;
use crate::host::{EnvView, HostOp};
use crate::ledger::DataKey;
use crate::types::{Address, Escrow};

verus! {

/// Whether one of `ops` keeps the entry with `key` alive.
pub open spec fn kept_alive(ops: Seq<HostOp>, key: DataKey) -> bool {
    exists|i: int| 0 <= i < ops.len() && #[trigger] ops[i] == HostOp::keep_alive(key)
}

/// Every approval in a list of them is kept alive.
proof fn lemma_approvals_kept_alive(tokens: Seq<Address>, at: int)
    requires
        0 <= at < crate::model::approval_ops(tokens).len(),
    ensures
        match crate::model::approval_ops(tokens)[at] {
            HostOp::Write(entry) => kept_alive(
                crate::model::approval_ops(tokens),
                entry.spec_key(),
            ),
            _ => true,
        },
    decreases tokens.len(),
{
    if tokens.len() > 0 {
        let ops = crate::model::approval_ops(tokens);
        let earlier = crate::model::approval_ops(tokens.drop_last());
        if at < earlier.len() {
            lemma_approvals_kept_alive(tokens.drop_last(), at);
            match ops[at] {
                HostOp::Write(entry) => {
                    let i = choose|i: int|
                        0 <= i < earlier.len() && #[trigger] earlier[i] == HostOp::keep_alive(
                            entry.spec_key(),
                        );
                    assert(ops[i] == earlier[i]);
                },
                _ => {},
            }
        } else {
            assert(ops[earlier.len() as int + 1] == HostOp::keep_alive(
                DataKey::ApprovedToken(tokens.last()),
            ));
        }
    }
}

/// What an initialization writes, it keeps alive.
proof fn lemma_initialization_kept_alive(call: Call, env: EnvView, at: int)
    requires
        call is Initialize,
        0 <= at < call.ops(env).len(),
        call.ops(env)[at] is Write,
    ensures
        kept_alive(call.ops(env), call.ops(env)[at]->Write_0.spec_key()),
{
    let ops = call.ops(env);
    match call {
        Call::Initialize { approved_tokens, .. } => {
            let approvals = crate::model::approval_ops(approved_tokens@);
            if at < 10 {
                assert(ops[at + 1] == HostOp::keep_alive(ops[at]->Write_0.spec_key()));
            } else {
                let key = ops[at]->Write_0.spec_key();
                assert(ops[at] == approvals[at - 10]);
                lemma_approvals_kept_alive(approved_tokens@, at - 10);
                let i = choose|i: int|
                    0 <= i < approvals.len() && #[trigger] approvals[i] == HostOp::keep_alive(key);
                assert(ops[i + 10] == approvals[i]);
            }
        },
        _ => {},
    }
}

/// What a creation writes, it keeps alive.
proof fn lemma_creation_kept_alive(call: Call, env: EnvView, at: int)
    requires
        call is CreateEscrow,
        0 <= at < call.ops(env).len(),
        call.ops(env)[at] is Write,
    ensures
        kept_alive(call.ops(env), call.ops(env)[at]->Write_0.spec_key()),
{
    let ops = call.ops(env);
    assert(ops[at + 1] == HostOp::keep_alive(ops[at]->Write_0.spec_key()));
}

/// Whatever a call writes, it also asks the chain to keep alive.
pub proof fn writes_are_kept_alive(call: Call, env: EnvView, at: int)
    requires
        0 <= at < call.ops(env).len(),
        call.ops(env)[at] is Write,
    ensures
        kept_alive(call.ops(env), call.ops(env)[at]->Write_0.spec_key()),
{
    let ops = call.ops(env);
    match call {
        Call::Initialize { .. } => lemma_initialization_kept_alive(call, env, at),
        Call::CreateEscrow { .. } => lemma_creation_kept_alive(call, env, at),
        Call::UpdateFee { .. } => {
            assert(ops[3] == HostOp::keep_alive(DataKey::FeeBps));
        },
        Call::UpdateTreasury { .. } => {
            assert(ops[3] == HostOp::keep_alive(DataKey::Treasury));
        },
        Call::SetApprovedToken { token_address, .. } => {
            assert(ops[3] == HostOp::keep_alive(DataKey::ApprovedToken(token_address)));
        },
        Call::SubmitReview { escrow_id, .. } => {
            assert(ops[3] == HostOp::keep_alive(DataKey::Review(escrow_id)));
        },
        Call::ReleaseFunds { escrow_id, .. } => {
            assert(ops[0] == HostOp::keep_alive(DataKey::Escrow(escrow_id)));
        },
        Call::ReleasePartial { escrow_id, .. } => {
            assert(ops[0] == HostOp::keep_alive(DataKey::Escrow(escrow_id)));
        },
        Call::AdminRelease { escrow_id } => {
            assert(ops[0] == HostOp::keep_alive(DataKey::Escrow(escrow_id)));
        },
        Call::TryAutoRelease { escrow_id } => {
            assert(ops[0] == HostOp::keep_alive(DataKey::Escrow(escrow_id)));
        },
        Call::Dispute { escrow_id, .. } => {
            assert(ops[0] == HostOp::keep_alive(DataKey::Escrow(escrow_id)));
        },
        Call::ResolveDispute { escrow_id, .. } => {
            assert(ops[2] == HostOp::keep_alive(DataKey::Escrow(escrow_id)));
        },
        Call::Refund { escrow_id } => {
            assert(ops[2] == HostOp::keep_alive(DataKey::Escrow(escrow_id)));
        },
        _ => {},
    }
}

impl Call {
    /// The entries whose life an accepted call extends.
    pub open spec fn tends(self, env: EnvView, key: DataKey) -> bool {
        match self {
            Call::Initialize { approved_tokens, .. } => match key {
                DataKey::Admin => true,
                DataKey::Treasury => true,
                DataKey::FeeBps => true,
                DataKey::EscrowCount => true,
                DataKey::AutoReleaseDelay => true,
                DataKey::ApprovedToken(token) => approved_tokens@.contains(token),
                _ => false,
            },
            Call::UpdateFee { .. } => key == DataKey::Admin || key == DataKey::FeeBps,
            Call::UpdateTreasury { .. } => key == DataKey::Admin || key == DataKey::Treasury,
            Call::SetApprovedToken { token_address, .. } => key == DataKey::Admin || key
                == DataKey::ApprovedToken(token_address),
            Call::CreateEscrow { session_id, .. } => key == DataKey::AutoReleaseDelay || key
                == DataKey::Session(session_id) || key == DataKey::EscrowCount || key
                == DataKey::Escrow((env.ledger.escrow_count() + 1) as u64),
            Call::ReleaseFunds { escrow_id, .. } => key == DataKey::Escrow(escrow_id) || key
                == DataKey::Admin || key == DataKey::FeeBps || key == DataKey::Treasury,
            Call::ReleasePartial { escrow_id, .. } => key == DataKey::Escrow(escrow_id) || key
                == DataKey::Admin || key == DataKey::FeeBps || key == DataKey::Treasury,
            Call::AdminRelease { escrow_id } => key == DataKey::Escrow(escrow_id) || key
                == DataKey::Admin || key == DataKey::FeeBps || key == DataKey::Treasury,
            Call::TryAutoRelease { escrow_id } => key == DataKey::Escrow(escrow_id) || key
                == DataKey::FeeBps || key == DataKey::Treasury,
            Call::Dispute { escrow_id, .. } => key == DataKey::Escrow(escrow_id),
            Call::ResolveDispute { escrow_id, .. } => key == DataKey::Admin || key
                == DataKey::Escrow(escrow_id),
            Call::Refund { escrow_id } => key == DataKey::Admin || key == DataKey::Escrow(
                escrow_id,
            ),
            Call::SubmitReview { escrow_id, .. } => key == DataKey::Escrow(escrow_id) || key
                == DataKey::Review(escrow_id),
            Call::GetEscrow { escrow_id } => key == DataKey::Escrow(escrow_id),
            Call::GetEscrowCount => key == DataKey::EscrowCount,
            Call::GetFeeBps => key == DataKey::FeeBps,
            Call::GetTreasury => key == DataKey::Treasury,
            Call::GetAutoReleaseDelay => key == DataKey::AutoReleaseDelay,
            Call::IsTokenApproved { .. } => false,
            Call::GetEscrowsByMentor { .. } => false,
        }
    }
}

/// Whether one of `ops` extends the life of the entry with `key` to 1 000 000
/// ledgers wherever fewer than 500 000 are left of it.
pub open spec fn extended(ops: Seq<HostOp>, key: DataKey) -> bool {
    exists|i: int|
        0 <= i < ops.len() && #[trigger] ops[i] == (HostOp::ExtendTtl {
            key,
            threshold: 500_000,
            extend_to: 1_000_000,
        })
}

/// The request, if it extends a life, does so by the rule, for an entry that the
/// call tends.
spec fn tended(call: Call, env: EnvView, op: HostOp) -> bool {
    match op {
        HostOp::ExtendTtl { key, threshold, extend_to } => {
            &&& threshold == 500_000
            &&& extend_to == 1_000_000
            &&& call.tends(env, key)
        },
        _ => true,
    }
}

/// The requests that approve tokens extend the lives of these approvals and of no
/// others.
proof fn lemma_approvals_tended(tokens: Seq<Address>, at: int)
    requires
        0 <= at < crate::model::approval_ops(tokens).len(),
    ensures
        match crate::model::approval_ops(tokens)[at] {
            HostOp::ExtendTtl { key, threshold, extend_to } => {
                &&& threshold == 500_000
                &&& extend_to == 1_000_000
                &&& key matches DataKey::ApprovedToken(token) && tokens.contains(token)
            },
            _ => true,
        },
    decreases tokens.len(),
{
    if tokens.len() > 0 {
        let earlier = tokens.drop_last();
        let ops = crate::model::approval_ops(earlier);
        if at < ops.len() {
            lemma_approvals_tended(earlier, at);
            match ops[at] {
                HostOp::ExtendTtl { key: DataKey::ApprovedToken(token), .. } => {
                    let i = choose|i: int| 0 <= i < earlier.len() && earlier[i] == token;
                    assert(tokens[i] == token);
                },
                _ => {},
            }
        } else {
            assert(tokens[tokens.len() - 1] == tokens.last());
        }
    }
}

/// The life of the approval of each token in the list is extended.
proof fn lemma_approval_extended(tokens: Seq<Address>, token: Address)
    requires
        tokens.contains(token),
    ensures
        extended(crate::model::approval_ops(tokens), DataKey::ApprovedToken(token)),
    decreases tokens.len(),
{
    let key = DataKey::ApprovedToken(token);
    let earlier = tokens.drop_last();
    let ops = crate::model::approval_ops(tokens);
    let before = crate::model::approval_ops(earlier);
    if tokens.last() == token {
        assert(ops[before.len() as int + 1] == HostOp::keep_alive(key));
    } else {
        let i = choose|i: int| 0 <= i < tokens.len() && tokens[i] == token;
        assert(earlier[i] == token);
        lemma_approval_extended(earlier, token);
        let k = choose|k: int|
            0 <= k < before.len() && #[trigger] before[k] == (HostOp::ExtendTtl {
                key,
                threshold: 500_000,
                extend_to: 1_000_000,
            });
        assert(ops[k] == before[k]);
    }
}

proof fn lemma_initialization_tended(call: Call, env: EnvView, at: int, key: DataKey)
    requires
        call is Initialize,
        call.accepted(env),
        0 <= at < call.ops(env).len(),
    ensures
        tended(call, env, call.ops(env)[at]),
        call.tends(env, key) ==> extended(call.ops(env), key),
{
    let ops = call.ops(env);
    match call {
        Call::Initialize { approved_tokens, .. } => {
            let approvals = crate::model::approval_ops(approved_tokens@);
            if at >= 10 {
                lemma_approvals_tended(approved_tokens@, at - 10);
                assert(ops[at] == approvals[at - 10]);
            }
            assert(ops[1] == HostOp::keep_alive(DataKey::Admin));
            assert(ops[3] == HostOp::keep_alive(DataKey::Treasury));
            assert(ops[5] == HostOp::keep_alive(DataKey::FeeBps));
            assert(ops[7] == HostOp::keep_alive(DataKey::EscrowCount));
            assert(ops[9] == HostOp::keep_alive(DataKey::AutoReleaseDelay));
            match key {
                DataKey::ApprovedToken(token) => {
                    if approved_tokens@.contains(token) {
                        lemma_approval_extended(approved_tokens@, token);
                        let k = choose|k: int|
                            0 <= k < approvals.len() && #[trigger] approvals[k] == (
                            HostOp::ExtendTtl { key, threshold: 500_000, extend_to: 1_000_000 });
                        assert(ops[k + 10] == approvals[k]);
                    }
                },
                _ => {},
            }
        },
        _ => {},
    }
}

/// What a payout extends the lives of.
proof fn lemma_payout_tended(env: EnvView, escrow: Escrow, amount: i128, at: int)
    requires
        env.payout_possible(amount),
        0 <= at < env.payout_ops(escrow, amount).len(),
    ensures
        env.payout_ops(escrow, amount).len() >= 3,
        env.payout_ops(escrow, amount)[0] == HostOp::keep_alive(DataKey::FeeBps),
        env.payout_ops(escrow, amount)[1] == HostOp::keep_alive(DataKey::Treasury),
        at >= 2 ==> env.payout_ops(escrow, amount)[at] is Transfer,
{
}

proof fn lemma_release_tended(call: Call, env: EnvView, at: int, key: DataKey)
    requires
        call is ReleaseFunds || call is AdminRelease || call is TryAutoRelease,
        call.accepted(env),
        0 <= at < call.ops(env).len(),
    ensures
        tended(call, env, call.ops(env)[at]),
        call.tends(env, key) ==> extended(call.ops(env), key),
{
    let ops = call.ops(env);
    let id = call.escrow_id()->0;
    let escrow = env.ledger.escrow(id)->0;
    let payout = env.payout_ops(escrow, escrow.amount);
    let before = if call is ReleaseFunds {
        3int
    } else if call is AdminRelease {
        4
    } else {
        2
    };
    lemma_payout_tended(env, escrow, escrow.amount, 0);
    if before <= at < before + payout.len() {
        assert(ops[at] == payout[at - before]);
        lemma_payout_tended(env, escrow, escrow.amount, at - before);
    }
    assert(ops[0] == HostOp::keep_alive(DataKey::Escrow(id)));
    if call !is TryAutoRelease {
        assert(ops[1] == HostOp::keep_alive(DataKey::Admin));
    }
    assert(ops[before] == payout[0]);
    assert(ops[before + 1] == payout[1]);
}

proof fn lemma_partial_tended(call: Call, env: EnvView, at: int, key: DataKey)
    requires
        call is ReleasePartial,
        call.accepted(env),
        0 <= at < call.ops(env).len(),
    ensures
        tended(call, env, call.ops(env)[at]),
        call.tends(env, key) ==> extended(call.ops(env), key),
{
    let ops = call.ops(env);
    match call {
        Call::ReleasePartial { escrow_id, amount_to_release, .. } => {
            let escrow = env.ledger.escrow(escrow_id)->0;
            let payout = env.payout_ops(escrow, amount_to_release);
            lemma_payout_tended(env, escrow, amount_to_release, 0);
            if 3 <= at < 3 + payout.len() {
                assert(ops[at] == payout[at - 3]);
                lemma_payout_tended(env, escrow, amount_to_release, at - 3);
            }
            assert(ops[0] == HostOp::keep_alive(DataKey::Escrow(escrow_id)));
            assert(ops[1] == HostOp::keep_alive(DataKey::Admin));
            assert(ops[3] == payout[0]);
            assert(ops[4] == payout[1]);
        },
        _ => {},
    }
}

proof fn lemma_tended(call: Call, env: EnvView, at: int, key: DataKey)
    requires
        call.accepted(env),
        0 <= at < call.ops(env).len(),
    ensures
        tended(call, env, call.ops(env)[at]),
        call.tends(env, key) ==> extended(call.ops(env), key),
{
    let ops = call.ops(env);
    match call {
        Call::Initialize { .. } => lemma_initialization_tended(call, env, at, key),
        Call::ReleaseFunds { .. } => lemma_release_tended(call, env, at, key),
        Call::AdminRelease { .. } => lemma_release_tended(call, env, at, key),
        Call::TryAutoRelease { .. } => lemma_release_tended(call, env, at, key),
        Call::ReleasePartial { .. } => lemma_partial_tended(call, env, at, key),
        Call::CreateEscrow { .. } => {
            assert(ops[1] is ExtendTtl && ops[3] is ExtendTtl && ops[5] is ExtendTtl && ops[8]
                is ExtendTtl);
        },
        Call::UpdateFee { .. } => {
            assert(ops[0] is ExtendTtl && ops[3] is ExtendTtl);
        },
        Call::UpdateTreasury { .. } => {
            assert(ops[0] is ExtendTtl && ops[3] is ExtendTtl);
        },
        Call::SetApprovedToken { .. } => {
            assert(ops[0] is ExtendTtl && ops[3] is ExtendTtl);
        },
        Call::ResolveDispute { .. } => {
            assert(ops[0] is ExtendTtl && ops[2] is ExtendTtl);
        },
        Call::Refund { .. } => {
            assert(ops[0] is ExtendTtl && ops[2] is ExtendTtl);
        },
        Call::SubmitReview { .. } => {
            assert(ops[0] is ExtendTtl && ops[3] is ExtendTtl);
        },
        _ => {
            assert(ops[0] is ExtendTtl);
        },
    }
}

/// An accepted call extends the lives of exactly the entries that it tends: each
/// one to 1 000 000 ledgers where fewer than 500 000 are left.
pub proof fn tended_entries_live_on(call: Call, env: EnvView, at: int, key: DataKey)
    requires
        call.accepted(env),
    ensures
        extended(call.ops(env), key) <==> call.tends(env, key),
        0 <= at < call.ops(env).len() ==> match call.ops(env)[at] {
            HostOp::ExtendTtl { threshold, extend_to, .. } => threshold == 500_000 && extend_to
                == 1_000_000,
            _ => true,
        },
{
    let ops = call.ops(env);
    if 0 <= at < ops.len() {
        lemma_tended(call, env, at, key);
    }
    if ops.len() > 0 {
        lemma_tended(call, env, 0, key);
    }
    if extended(ops, key) {
        let i = choose|i: int|
            0 <= i < ops.len() && #[trigger] ops[i] == (HostOp::ExtendTtl {
                key,
                threshold: 500_000,
                extend_to: 1_000_000,
            });
        lemma_tended(call, env, i, key);
    }
}

} // verus!
