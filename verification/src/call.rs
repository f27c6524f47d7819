//! Calls of the contract as values: which entries each of them reads, and what
//! each of them leaves on the ledger.

use vstd::prelude::*;

use crate::error::EscrowError;
use crate::host::{EnvView, HostOp};
use crate::ledger::{DataKey, Entry, LedgerView, DEFAULT_AUTO_RELEASE_DELAY};
use crate::types::{Address, Escrow, Symbol};

verus! {

/// A call of the contract with its arguments.
#[derive(Debug)]
pub enum Call {
    Initialize {
        admin: Address,
        treasury: Address,
        fee_bps: u32,
        approved_tokens: Vec<Address>,
        auto_release_delay_secs: u64,
    },
    UpdateFee { new_fee_bps: u32 },
    UpdateTreasury { new_treasury: Address },
    SetApprovedToken { token_address: Address, approved: bool },
    CreateEscrow {
        mentor: Address,
        learner: Address,
        amount: i128,
        session_id: Symbol,
        token_address: Address,
        session_end_time: u64,
    },
    ReleaseFunds { caller: Address, escrow_id: u64 },
    ReleasePartial { caller: Address, escrow_id: u64, amount_to_release: i128 },
    AdminRelease { escrow_id: u64 },
    TryAutoRelease { escrow_id: u64 },
    Dispute { caller: Address, escrow_id: u64, reason: Symbol },
    ResolveDispute { escrow_id: u64, mentor_pct: u32 },
    Refund { escrow_id: u64 },
    SubmitReview { caller: Address, escrow_id: u64, reason: Symbol },
    GetEscrow { escrow_id: u64 },
    GetEscrowCount,
    GetFeeBps,
    GetTreasury,
    GetAutoReleaseDelay,
    IsTokenApproved { token_address: Address },
    GetEscrowsByMentor { mentor: Address },
}

/// What a call that is not rejected returns.
pub enum Reply {
    Nothing,
    Number(int),
    Flag(bool),
    Party(Address),
    Record(Escrow),
    Records(Seq<Escrow>),
}

/// The result of a call that returns nothing.
pub open spec fn nothing(result: Result<(), EscrowError>) -> Result<Reply, EscrowError> {
    match result {
        Ok(()) => Ok(Reply::Nothing),
        Err(error) => Err(error),
    }
}

/// The keys of the escrows with the ids 1 to `n`.
pub open spec fn escrow_keys(n: nat) -> Seq<DataKey> {
    Seq::new(n, |i: int| DataKey::Escrow((i + 1) as u64))
}

impl Call {
    /// What the call returns.
    pub open spec fn result(self, env: EnvView) -> Result<Reply, EscrowError> {
        match self {
            Call::Initialize { fee_bps, .. } => nothing(env.initialize_result(fee_bps)),
            Call::UpdateFee { new_fee_bps } => nothing(env.update_fee_result(new_fee_bps)),
            Call::UpdateTreasury { .. } => nothing(env.admin_result()),
            Call::SetApprovedToken { .. } => nothing(env.admin_result()),
            Call::CreateEscrow { learner, amount, session_id, token_address, .. } => {
                match env.create_escrow_result(learner, amount, session_id, token_address) {
                    Ok(id) => Ok(Reply::Number(id as int)),
                    Err(error) => Err(error),
                }
            },
            Call::ReleaseFunds { caller, escrow_id } => nothing(
                env.release_funds_result(caller, escrow_id),
            ),
            Call::ReleasePartial { caller, escrow_id, amount_to_release } => nothing(
                env.release_partial_result(caller, escrow_id, amount_to_release),
            ),
            Call::AdminRelease { escrow_id } => nothing(env.admin_release_result(escrow_id)),
            Call::TryAutoRelease { escrow_id } => nothing(env.try_auto_release_result(escrow_id)),
            Call::Dispute { caller, escrow_id, .. } => nothing(
                env.dispute_result(caller, escrow_id),
            ),
            Call::ResolveDispute { escrow_id, mentor_pct } => nothing(
                env.resolve_dispute_result(escrow_id, mentor_pct),
            ),
            Call::Refund { escrow_id } => nothing(env.refund_result(escrow_id)),
            Call::SubmitReview { caller, escrow_id, .. } => nothing(
                env.submit_review_result(caller, escrow_id),
            ),
            Call::GetEscrow { escrow_id } => match env.get_escrow_result(escrow_id) {
                Ok(escrow) => Ok(Reply::Record(escrow)),
                Err(error) => Err(error),
            },
            Call::GetEscrowCount => Ok(Reply::Number(env.ledger.escrow_count() as int)),
            Call::GetFeeBps => Ok(Reply::Number(env.ledger.fee_bps() as int)),
            Call::GetTreasury => match env.get_treasury_result() {
                Ok(treasury) => Ok(Reply::Party(treasury)),
                Err(error) => Err(error),
            },
            Call::GetAutoReleaseDelay => Ok(Reply::Number(env.ledger.auto_release_delay() as int)),
            Call::IsTokenApproved { token_address } => Ok(
                Reply::Flag(env.ledger.token_approved(token_address)),
            ),
            Call::GetEscrowsByMentor { mentor } => Ok(
                Reply::Records(env.ledger.escrows_of(mentor, env.ledger.escrow_count() as nat)),
            ),
        }
    }

    /// What the call asks the chain to do.
    pub open spec fn ops(self, env: EnvView) -> Seq<HostOp> {
        match self {
            Call::Initialize {
                admin,
                treasury,
                fee_bps,
                approved_tokens,
                auto_release_delay_secs,
            } => env.initialize_ops(
                admin,
                treasury,
                fee_bps,
                approved_tokens@,
                auto_release_delay_secs,
            ),
            Call::UpdateFee { new_fee_bps } => env.update_fee_ops(new_fee_bps),
            Call::UpdateTreasury { new_treasury } => env.update_treasury_ops(new_treasury),
            Call::SetApprovedToken { token_address, approved } => env.set_approved_token_ops(
                token_address,
                approved,
            ),
            Call::CreateEscrow {
                mentor,
                learner,
                amount,
                session_id,
                token_address,
                session_end_time,
            } => env.create_escrow_ops(
                mentor,
                learner,
                amount,
                session_id,
                token_address,
                session_end_time,
            ),
            Call::ReleaseFunds { caller, escrow_id } => env.release_funds_ops(caller, escrow_id),
            Call::ReleasePartial { caller, escrow_id, amount_to_release } => {
                env.release_partial_ops(caller, escrow_id, amount_to_release)
            },
            Call::AdminRelease { escrow_id } => env.admin_release_ops(escrow_id),
            Call::TryAutoRelease { escrow_id } => env.try_auto_release_ops(escrow_id),
            Call::Dispute { caller, escrow_id, reason } => env.dispute_ops(
                caller,
                escrow_id,
                reason,
            ),
            Call::ResolveDispute { escrow_id, mentor_pct } => env.resolve_dispute_ops(
                escrow_id,
                mentor_pct,
            ),
            Call::Refund { escrow_id } => env.refund_ops(escrow_id),
            Call::SubmitReview { caller, escrow_id, reason } => env.submit_review_ops(
                caller,
                escrow_id,
                reason,
            ),
            Call::GetEscrow { escrow_id } => seq![HostOp::keep_alive(DataKey::Escrow(escrow_id))],
            Call::GetEscrowCount => seq![HostOp::keep_alive(DataKey::EscrowCount)],
            Call::GetFeeBps => seq![HostOp::keep_alive(DataKey::FeeBps)],
            Call::GetTreasury => seq![HostOp::keep_alive(DataKey::Treasury)],
            Call::GetAutoReleaseDelay => seq![HostOp::keep_alive(DataKey::AutoReleaseDelay)],
            Call::IsTokenApproved { .. } => Seq::empty(),
            Call::GetEscrowsByMentor { .. } => Seq::empty(),
        }
    }

    /// Whether the call goes through: it is not rejected.
    pub open spec fn accepted(self, env: EnvView) -> bool {
        self.result(env) is Ok
    }

    /// The ledger after the call. The chain does what an accepted call asks for,
    /// and undoes what a rejected one asked for.
    #[verifier::opaque]
    pub open spec fn after(self, env: EnvView) -> LedgerView {
        if self.accepted(env) {
            env.ledger.commit(self.ops(env))
        } else {
            env.ledger
        }
    }

    /// The keys of the entries that the call reads. Only the query for the
    /// escrows of a mentor depends on how many escrows there are.
    pub open spec fn reads(self, escrow_count: u64) -> Seq<DataKey> {
        match self {
            Call::Initialize { .. } => seq![DataKey::Admin],
            Call::UpdateFee { .. } => seq![DataKey::Admin],
            Call::UpdateTreasury { .. } => seq![DataKey::Admin],
            Call::SetApprovedToken { .. } => seq![DataKey::Admin],
            Call::CreateEscrow { session_id, token_address, .. } => seq![
                DataKey::ApprovedToken(token_address),
                DataKey::AutoReleaseDelay,
                DataKey::Session(session_id),
                DataKey::EscrowCount,
            ],
            Call::ReleaseFunds { escrow_id, .. } => seq![
                DataKey::Escrow(escrow_id),
                DataKey::Admin,
                DataKey::FeeBps,
                DataKey::Treasury,
            ],
            Call::ReleasePartial { escrow_id, .. } => seq![
                DataKey::Escrow(escrow_id),
                DataKey::Admin,
                DataKey::FeeBps,
                DataKey::Treasury,
            ],
            Call::AdminRelease { escrow_id } => seq![
                DataKey::Escrow(escrow_id),
                DataKey::Admin,
                DataKey::FeeBps,
                DataKey::Treasury,
            ],
            Call::TryAutoRelease { escrow_id } => seq![
                DataKey::Escrow(escrow_id),
                DataKey::FeeBps,
                DataKey::Treasury,
            ],
            Call::Dispute { escrow_id, .. } => seq![DataKey::Escrow(escrow_id)],
            Call::ResolveDispute { escrow_id, .. } => seq![
                DataKey::Admin,
                DataKey::Escrow(escrow_id),
            ],
            Call::Refund { escrow_id } => seq![DataKey::Admin, DataKey::Escrow(escrow_id)],
            Call::SubmitReview { escrow_id, .. } => seq![DataKey::Escrow(escrow_id)],
            Call::GetEscrow { escrow_id } => seq![DataKey::Escrow(escrow_id)],
            Call::GetEscrowCount => seq![DataKey::EscrowCount],
            Call::GetFeeBps => seq![DataKey::FeeBps],
            Call::GetTreasury => seq![DataKey::Treasury],
            Call::GetAutoReleaseDelay => seq![DataKey::AutoReleaseDelay],
            Call::IsTokenApproved { token_address } => seq![DataKey::ApprovedToken(token_address)],
            Call::GetEscrowsByMentor { .. } => seq![DataKey::EscrowCount] + escrow_keys(
                escrow_count as nat,
            ),
        }
    }

    /// Returns the keys of the entries that the call reads. Only the query for
    /// the escrows of a mentor depends on how many escrows there are.
    pub fn footprint(&self, escrow_count: u64) -> (keys: Vec<DataKey>)
        ensures
            keys@ == self.reads(escrow_count),
    {
        let mut keys: Vec<DataKey> = Vec::new();
        match self {
            Call::Initialize { .. } => {
                keys.push(DataKey::Admin);
            },
            Call::UpdateFee { .. } => {
                keys.push(DataKey::Admin);
            },
            Call::UpdateTreasury { .. } => {
                keys.push(DataKey::Admin);
            },
            Call::SetApprovedToken { .. } => {
                keys.push(DataKey::Admin);
            },
            Call::CreateEscrow { session_id, token_address, .. } => {
                keys.push(DataKey::ApprovedToken(*token_address));
                keys.push(DataKey::AutoReleaseDelay);
                keys.push(DataKey::Session(*session_id));
                keys.push(DataKey::EscrowCount);
            },
            Call::ReleaseFunds { escrow_id, .. } => {
                keys.push(DataKey::Escrow(*escrow_id));
                keys.push(DataKey::Admin);
                keys.push(DataKey::FeeBps);
                keys.push(DataKey::Treasury);
            },
            Call::ReleasePartial { escrow_id, .. } => {
                keys.push(DataKey::Escrow(*escrow_id));
                keys.push(DataKey::Admin);
                keys.push(DataKey::FeeBps);
                keys.push(DataKey::Treasury);
            },
            Call::AdminRelease { escrow_id } => {
                keys.push(DataKey::Escrow(*escrow_id));
                keys.push(DataKey::Admin);
                keys.push(DataKey::FeeBps);
                keys.push(DataKey::Treasury);
            },
            Call::TryAutoRelease { escrow_id } => {
                keys.push(DataKey::Escrow(*escrow_id));
                keys.push(DataKey::FeeBps);
                keys.push(DataKey::Treasury);
            },
            Call::Dispute { escrow_id, .. } => {
                keys.push(DataKey::Escrow(*escrow_id));
            },
            Call::ResolveDispute { escrow_id, .. } => {
                keys.push(DataKey::Admin);
                keys.push(DataKey::Escrow(*escrow_id));
            },
            Call::Refund { escrow_id } => {
                keys.push(DataKey::Admin);
                keys.push(DataKey::Escrow(*escrow_id));
            },
            Call::SubmitReview { escrow_id, .. } => {
                keys.push(DataKey::Escrow(*escrow_id));
            },
            Call::GetEscrow { escrow_id } => {
                keys.push(DataKey::Escrow(*escrow_id));
            },
            Call::GetEscrowCount => {
                keys.push(DataKey::EscrowCount);
            },
            Call::GetFeeBps => {
                keys.push(DataKey::FeeBps);
            },
            Call::GetTreasury => {
                keys.push(DataKey::Treasury);
            },
            Call::GetAutoReleaseDelay => {
                keys.push(DataKey::AutoReleaseDelay);
            },
            Call::IsTokenApproved { token_address } => {
                keys.push(DataKey::ApprovedToken(*token_address));
            },
            Call::GetEscrowsByMentor { .. } => {
                keys.push(DataKey::EscrowCount);
                let mut id: u64 = 0;
                while id < escrow_count
                    invariant
                        id <= escrow_count,
                        keys@ == seq![DataKey::EscrowCount] + escrow_keys(id as nat),
                    decreases escrow_count - id,
                {
                    id = id + 1;
                    keys.push(DataKey::Escrow(id));
                }
            },
        }
        keys
    }

    /// What an accepted call leaves on the ledger, entry by entry.
    pub open spec fn effect(self, env: EnvView) -> LedgerView {
        let ledger = env.ledger;
        match self {
            Call::Initialize {
                admin,
                treasury,
                fee_bps,
                approved_tokens,
                auto_release_delay_secs,
            } => ledger.set_up(admin, treasury, fee_bps, auto_release_delay_secs).write_all(
                approved_tokens@.map_values(|token: Address| Entry::ApprovedToken(token, true)),
            ),
            Call::UpdateFee { new_fee_bps } => ledger.write(Entry::FeeBps(new_fee_bps)),
            Call::UpdateTreasury { new_treasury } => ledger.write(Entry::Treasury(new_treasury)),
            Call::SetApprovedToken { token_address, approved } => ledger.write(
                Entry::ApprovedToken(token_address, approved),
            ),
            Call::CreateEscrow {
                mentor,
                learner,
                amount,
                session_id,
                token_address,
                session_end_time,
            } => {
                let escrow = env.new_escrow(
                    mentor,
                    learner,
                    amount,
                    session_id,
                    token_address,
                    session_end_time,
                );
                ledger.write(Entry::Session(session_id)).write(
                    Entry::EscrowCount(escrow.id),
                ).write(Entry::Escrow(escrow.id, escrow))
            },
            Call::ReleaseFunds { escrow_id, .. } => env.released(escrow_id),
            Call::ReleasePartial { escrow_id, amount_to_release, .. } => ledger.write(
                Entry::Escrow(
                    escrow_id,
                    ledger.escrow(escrow_id)->0.after_payout(
                        amount_to_release as int,
                        ledger.fee_bps() as int,
                    ),
                ),
            ),
            Call::AdminRelease { escrow_id } => env.released(escrow_id),
            Call::TryAutoRelease { escrow_id } => env.released(escrow_id),
            Call::Dispute { escrow_id, reason, .. } => ledger.write(
                Entry::Escrow(escrow_id, ledger.escrow(escrow_id)->0.disputed(reason)),
            ),
            Call::ResolveDispute { escrow_id, mentor_pct } => ledger.write(
                Entry::Escrow(
                    escrow_id,
                    ledger.escrow(escrow_id)->0.resolved(mentor_pct as int, env.timestamp),
                ),
            ),
            Call::Refund { escrow_id } => ledger.write(
                Entry::Escrow(escrow_id, ledger.escrow(escrow_id)->0.refunded()),
            ),
            Call::SubmitReview { escrow_id, reason, .. } => ledger.write(
                Entry::Review(escrow_id, reason),
            ),
            _ => ledger,
        }
    }
}

impl LedgerView {
    /// The ledger with the settings of an initialization.
    pub open spec fn set_up(
        self,
        admin: Address,
        treasury: Address,
        fee_bps: u32,
        auto_release_delay_secs: u64,
    ) -> LedgerView {
        let delay = if auto_release_delay_secs == 0 {
            DEFAULT_AUTO_RELEASE_DELAY
        } else {
            auto_release_delay_secs
        };
        self.write(Entry::Admin(admin)).write(Entry::Treasury(treasury)).write(
            Entry::FeeBps(fee_bps),
        ).write(Entry::EscrowCount(0)).write(Entry::AutoReleaseDelay(delay))
    }
}

impl EnvView {
    /// The ledger once all that the escrow with `id` holds is released.
    pub open spec fn released(self, id: u64) -> LedgerView {
        let escrow = self.ledger.escrow(id)->0;
        self.ledger.write(
            Entry::Escrow(
                id,
                escrow.after_payout(escrow.amount as int, self.ledger.fee_bps() as int),
            ),
        )
    }
}

} // verus!
