//! What holds of the ledger after every history of calls.

use vstd::prelude::*;

use crate::call::Call;
use crate::fees::MAX_FEE_BPS;
use crate::host::EnvView;
use crate::ledger::{DataKey, Entry, LedgerView};
use crate::types::{Address, Escrow, EscrowStatus, Symbol};

verus! {

impl Escrow {
    /// What has become of the deposit: what is left of it, what went to the
    /// treasury, and what went to the mentor.
    pub open spec fn accounted(self) -> int {
        self.amount + self.platform_fee + self.net_amount
    }

    /// What holds of an escrow that is kept under `id`.
    pub open spec fn sound(self, id: u64) -> bool {
        &&& self.id == id
        &&& self.amount >= 0
        &&& self.platform_fee >= 0
        &&& self.net_amount >= 0
        &&& self.status.is_open() ==> self.amount > 0
        &&& self.status == EscrowStatus::Released ==> self.amount == 0
        &&& self.status == EscrowStatus::Refunded ==> self.amount > 0
        &&& self.status == EscrowStatus::Resolved ==> self.amount == self.platform_fee
        &&& self.status != EscrowStatus::Resolved ==> {
            &&& self.accounted() <= i128::MAX
            &&& self.resolved_at == 0
        }
        &&& self.status == EscrowStatus::Active ==> self.dispute_reason == Symbol::spec_empty()
    }
}

impl LedgerView {
    /// Every entry is kept under its own key.
    pub open spec fn keyed(self) -> bool {
        forall|key: DataKey| #[trigger]
            self.entries.contains_key(key) ==> self.entries[key].spec_key() == key
    }

    /// Before the initialization there are no entries. After it every setting is
    /// there, the fee is at most 10%, and the auto-release delay is not zero.
    pub open spec fn settings_sound(self) -> bool {
        if self.has(DataKey::Admin) {
            &&& self.has(DataKey::Treasury)
            &&& self.has(DataKey::FeeBps)
            &&& self.has(DataKey::EscrowCount)
            &&& self.has(DataKey::AutoReleaseDelay)
            &&& self.fee_bps() <= MAX_FEE_BPS
            &&& self.auto_release_delay() > 0
        } else {
            forall|key: DataKey| !#[trigger] self.entries.contains_key(key)
        }
    }

    /// The escrows have the ids from 1 up to their number; each of them is sound.
    pub open spec fn escrows_sound(self) -> bool {
        &&& forall|id: u64| #[trigger]
            self.entries.contains_key(DataKey::Escrow(id)) <==> 1 <= id <= self.escrow_count()
        &&& forall|id: u64| #[trigger]
            self.entries.contains_key(DataKey::Escrow(id)) ==> self.escrow(id)->0.sound(id)
    }

    /// Every escrow has its session to itself, and only the sessions of escrows
    /// are taken.
    pub open spec fn sessions_sound(self) -> bool {
        &&& forall|id: u64| #[trigger]
            self.entries.contains_key(DataKey::Escrow(id)) ==> self.session_taken(
                self.escrow(id)->0.session_id,
            )
        &&& forall|i: u64, j: u64| #[trigger]
            self.entries.contains_key(DataKey::Escrow(i)) && #[trigger] self.entries.contains_key(
                DataKey::Escrow(j),
            ) && self.escrow(i)->0.session_id == self.escrow(j)->0.session_id ==> i == j
        &&& forall|session_id: Symbol| #[trigger]
            self.entries.contains_key(DataKey::Session(session_id)) ==> exists|id: u64|
                #[trigger] self.entries.contains_key(DataKey::Escrow(id)) && self.escrow(
                    id,
                )->0.session_id == session_id
    }

    /// Only released escrows are reviewed.
    pub open spec fn reviews_sound(self) -> bool {
        forall|id: u64| #[trigger]
            self.entries.contains_key(DataKey::Review(id)) ==> {
                &&& self.entries.contains_key(DataKey::Escrow(id))
                &&& self.escrow(id)->0.status == EscrowStatus::Released
            }
    }

    /// What holds of the ledger at all times.
    pub open spec fn consistent(self) -> bool {
        &&& self.keyed()
        &&& self.settings_sound()
        &&& self.escrows_sound()
        &&& self.sessions_sound()
        &&& self.reviews_sound()
    }
}

/// Where the escrows keep their sessions, the sessions stay sound.
proof fn lemma_sessions_kept(before: LedgerView, after: LedgerView)
    requires
        before.sessions_sound(),
        forall|id: u64| #[trigger]
            after.entries.contains_key(DataKey::Escrow(id)) <==> before.entries.contains_key(
                DataKey::Escrow(id),
            ),
        forall|id: u64| #[trigger]
            before.entries.contains_key(DataKey::Escrow(id)) ==> after.escrow(id)->0.session_id
                == before.escrow(id)->0.session_id,
        forall|session_id: Symbol| #[trigger]
            after.entries.contains_key(DataKey::Session(session_id))
                <==> before.entries.contains_key(DataKey::Session(session_id)),
    ensures
        after.sessions_sound(),
{
    assert forall|session_id: Symbol| #[trigger]
        after.entries.contains_key(DataKey::Session(session_id)) implies exists|id: u64|
        #[trigger] after.entries.contains_key(DataKey::Escrow(id)) && after.escrow(
            id,
        )->0.session_id == session_id by {
        let id = choose|id: u64|
            #[trigger] before.entries.contains_key(DataKey::Escrow(id)) && before.escrow(
                id,
            )->0.session_id == session_id;
        assert(after.entries.contains_key(DataKey::Escrow(id)));
    }
}

/// Writing an escrow anew, with its id and its session, keeps the ledger
/// consistent.
proof fn lemma_replace_escrow(ledger: LedgerView, id: u64, escrow: Escrow)
    requires
        ledger.consistent(),
        ledger.escrow(id) is Some,
        escrow.sound(id),
        escrow.session_id == ledger.escrow(id)->0.session_id,
        ledger.escrow(id)->0.status != EscrowStatus::Released,
    ensures
        ledger.write(Entry::Escrow(id, escrow)).consistent(),
{
    let after = ledger.write(Entry::Escrow(id, escrow));
    assert(ledger.entries.contains_key(DataKey::Escrow(id)));
    assert(after.escrow(id) == Some(escrow));
    assert forall|other: u64| other != id implies #[trigger] after.escrow(other) == ledger.escrow(
        other,
    ) by {}
    assert forall|other: u64| #[trigger]
        after.entries.contains_key(DataKey::Escrow(other)) <==> ledger.entries.contains_key(
            DataKey::Escrow(other),
        ) by {}
    lemma_sessions_kept(ledger, after);
}

/// Writing a setting or an approval anew keeps the ledger consistent.
proof fn lemma_write_setting(ledger: LedgerView, entry: Entry)
    requires
        ledger.consistent(),
        ledger.has(DataKey::Admin),
        match entry {
            Entry::Treasury(_) => true,
            Entry::ApprovedToken(_, _) => true,
            Entry::FeeBps(fee_bps) => fee_bps <= MAX_FEE_BPS,
            _ => false,
        },
    ensures
        ledger.write(entry).consistent(),
        ledger.write(entry).has(DataKey::Admin),
{
    let after = ledger.write(entry);
    assert forall|id: u64| #[trigger] after.entries.contains_key(DataKey::Escrow(id))
        == ledger.entries.contains_key(DataKey::Escrow(id)) && after.escrow(id) == ledger.escrow(
        id,
    ) by {}
    lemma_sessions_kept(ledger, after);
}

/// Approving tokens keeps the ledger consistent.
proof fn lemma_approve_all(ledger: LedgerView, entries: Seq<Entry>)
    requires
        ledger.consistent(),
        ledger.has(DataKey::Admin),
        forall|i: int| 0 <= i < entries.len() ==> #[trigger] entries[i] is ApprovedToken,
    ensures
        ledger.write_all(entries).consistent(),
        ledger.write_all(entries).has(DataKey::Admin),
    decreases entries.len(),
{
    if entries.len() > 0 {
        let earlier = entries.drop_last();
        assert forall|i: int| 0 <= i < earlier.len() implies #[trigger] earlier[i]
            is ApprovedToken by {
            assert(earlier[i] == entries[i]);
        }
        lemma_approve_all(ledger, earlier);
        assert(entries[entries.len() - 1] is ApprovedToken);
        lemma_write_setting(ledger.write_all(earlier), entries.last());
    }
}

/// Paying part of an active escrow out leaves it sound.
proof fn lemma_payout_sound(env: EnvView, escrow: Escrow, id: u64, amount: i128)
    requires
        escrow.sound(id),
        escrow.status == EscrowStatus::Active,
        0 < amount <= escrow.amount,
        env.ledger.fee_bps() <= MAX_FEE_BPS,
    ensures
        ({
            let paid = escrow.after_payout(amount as int, env.ledger.fee_bps() as int);
            &&& paid.sound(id)
            &&& paid.accounted() == escrow.accounted()
            &&& paid.amount == escrow.amount - amount
        }),
{
    crate::laws::splits::fee_split(amount as int, env.ledger.fee_bps() as int);
}

proof fn lemma_create_consistent(call: Call, env: EnvView)
    requires
        env.ledger.consistent(),
        call is CreateEscrow,
        call.accepted(env),
    ensures
        call.effect(env).consistent(),
{
    match call {
        Call::CreateEscrow {
            mentor,
            learner,
            amount,
            session_id,
            token_address,
            session_end_time,
        } => {
            let ledger = env.ledger;
            let after = call.effect(env);
            let escrow = env.new_escrow(
                mentor,
                learner,
                amount,
                session_id,
                token_address,
                session_end_time,
            );
            assert(ledger.entries.contains_key(DataKey::ApprovedToken(token_address)));
            assert(!ledger.entries.contains_key(DataKey::Escrow(escrow.id)));
            assert(after.escrow(escrow.id) == Some(escrow));
            assert(after.escrow_count() == escrow.id);
            assert forall|id: u64| id != escrow.id implies (#[trigger] after.entries.contains_key(
                DataKey::Escrow(id),
            ) <==> ledger.entries.contains_key(DataKey::Escrow(id))) && after.escrow(id)
                == ledger.escrow(id) by {}
            assert forall|id: u64| #[trigger]
                after.entries.contains_key(DataKey::Escrow(id)) && id != escrow.id implies after.escrow(
                id,
            )->0.session_id != session_id by {
                assert(ledger.entries.contains_key(DataKey::Escrow(id)));
                assert(ledger.session_taken(ledger.escrow(id)->0.session_id));
            }
            assert forall|taken: Symbol| #[trigger]
                after.entries.contains_key(DataKey::Session(taken)) implies exists|id: u64|
                #[trigger] after.entries.contains_key(DataKey::Escrow(id)) && after.escrow(
                    id,
                )->0.session_id == taken by {
                if taken == session_id {
                    assert(after.entries.contains_key(DataKey::Escrow(escrow.id)));
                } else {
                    assert(ledger.entries.contains_key(DataKey::Session(taken)));
                    let id = choose|id: u64|
                        #[trigger] ledger.entries.contains_key(DataKey::Escrow(id))
                            && ledger.escrow(id)->0.session_id == taken;
                    assert(after.entries.contains_key(DataKey::Escrow(id)));
                }
            }
        },
        _ => {},
    }
}

/// The ledger before any call is consistent.
pub proof fn empty_ledger_is_consistent()
    ensures
        LedgerView::empty().consistent(),
{
}

/// Every call keeps the ledger consistent.
pub proof fn call_keeps_consistent(call: Call, env: EnvView)
    requires
        env.ledger.consistent(),
    ensures
        call.after(env).consistent(),
{
    let ledger = env.ledger;
    crate::laws::effects::call_effect(call, env);
    if call.accepted(env) {
        match call {
            Call::Initialize {
                admin,
                treasury,
                fee_bps,
                approved_tokens,
                auto_release_delay_secs,
            } => {
                let set_up = ledger.set_up(
                    admin,
                    treasury,
                    fee_bps,
                    auto_release_delay_secs,
                );
                assert(set_up.consistent());
                lemma_approve_all(
                    set_up,
                    approved_tokens@.map_values(
                        |token: Address| Entry::ApprovedToken(token, true),
                    ),
                );
            },
            Call::UpdateFee { new_fee_bps } => {
                lemma_write_setting(ledger, Entry::FeeBps(new_fee_bps));
            },
            Call::UpdateTreasury { new_treasury } => {
                lemma_write_setting(ledger, Entry::Treasury(new_treasury));
            },
            Call::SetApprovedToken { token_address, approved } => {
                lemma_write_setting(ledger, Entry::ApprovedToken(token_address, approved));
            },
            Call::CreateEscrow { .. } => {
                lemma_create_consistent(call, env);
            },
            Call::ReleaseFunds { escrow_id, .. } => {
                lemma_release_consistent(env, escrow_id, ledger.escrow(escrow_id)->0.amount);
            },
            Call::ReleasePartial { escrow_id, amount_to_release, .. } => {
                lemma_release_consistent(env, escrow_id, amount_to_release);
            },
            Call::AdminRelease { escrow_id } => {
                lemma_release_consistent(env, escrow_id, ledger.escrow(escrow_id)->0.amount);
            },
            Call::TryAutoRelease { escrow_id } => {
                lemma_release_consistent(env, escrow_id, ledger.escrow(escrow_id)->0.amount);
            },
            Call::Dispute { escrow_id, reason, .. } => {
                let escrow = ledger.escrow(escrow_id)->0;
                assert(ledger.entries.contains_key(DataKey::Escrow(escrow_id)));
                lemma_replace_escrow(ledger, escrow_id, escrow.disputed(reason));
            },
            Call::ResolveDispute { escrow_id, mentor_pct } => {
                let escrow = ledger.escrow(escrow_id)->0;
                assert(ledger.entries.contains_key(DataKey::Escrow(escrow_id)));
                crate::laws::splits::dispute_split(escrow.amount as int, mentor_pct as int);
                lemma_replace_escrow(
                    ledger,
                    escrow_id,
                    escrow.resolved(mentor_pct as int, env.timestamp),
                );
            },
            Call::Refund { escrow_id } => {
                let escrow = ledger.escrow(escrow_id)->0;
                assert(ledger.entries.contains_key(DataKey::Escrow(escrow_id)));
                lemma_replace_escrow(ledger, escrow_id, escrow.refunded());
            },
            Call::SubmitReview { escrow_id, reason, .. } => {
                lemma_review_consistent(ledger, escrow_id, reason);
            },
            _ => {},
        }
    }
}

proof fn lemma_release_consistent(env: EnvView, id: u64, amount: i128)
    requires
        env.ledger.consistent(),
        env.active_escrow(id) is Ok,
        0 < amount <= env.ledger.escrow(id)->0.amount,
    ensures
        env.ledger.write(
            Entry::Escrow(
                id,
                env.ledger.escrow(id)->0.after_payout(amount as int, env.ledger.fee_bps() as int),
            ),
        ).consistent(),
{
    let escrow = env.ledger.escrow(id)->0;
    assert(env.ledger.entries.contains_key(DataKey::Escrow(id)));
    lemma_payout_sound(env, escrow, id, amount);
    lemma_replace_escrow(
        env.ledger,
        id,
        escrow.after_payout(amount as int, env.ledger.fee_bps() as int),
    );
}

proof fn lemma_review_consistent(ledger: LedgerView, id: u64, reason: Symbol)
    requires
        ledger.consistent(),
        ledger.escrow(id) is Some,
        ledger.escrow(id)->0.status == EscrowStatus::Released,
    ensures
        ledger.write(Entry::Review(id, reason)).consistent(),
{
    let after = ledger.write(Entry::Review(id, reason));
    assert(ledger.entries.contains_key(DataKey::Escrow(id)));
    assert forall|other: u64| #[trigger] after.entries.contains_key(DataKey::Escrow(other))
        == ledger.entries.contains_key(DataKey::Escrow(other)) && after.escrow(other)
        == ledger.escrow(other) by {}
    lemma_sessions_kept(ledger, after);
}

} // verus!
