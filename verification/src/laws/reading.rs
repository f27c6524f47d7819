//! How the ledger and the balances are read.

use vstd::prelude::*;

use crate::host::{EnvView, HostOp, TokenBalance};
use crate::ledger::{DataKey, Entry, LedgerView};
use crate::types::{Address, Escrow, Symbol};

verus! {

/// On the empty ledger there is no admin, no treasury, no fee, no escrow, no
/// approval, no session and no review, and the auto-release delay is 72 hours.
pub proof fn empty_ledger_has_defaults(key: DataKey, token: Address, session_id: Symbol, id: u64)
    ensures
        LedgerView::empty().get(key) is None,
        !LedgerView::empty().has(key),
        LedgerView::empty().admin() is None,
        LedgerView::empty().treasury() is None,
        LedgerView::empty().fee_bps() == 0,
        LedgerView::empty().escrow_count() == 0,
        LedgerView::empty().auto_release_delay() == 72 * 60 * 60,
        !LedgerView::empty().token_approved(token),
        !LedgerView::empty().session_taken(session_id),
        LedgerView::empty().escrow(id) is None,
        LedgerView::empty().review(id) is None,
{
}

/// What is read depends on nothing but the entry with its own key.
pub proof fn reading_looks_at_one_entry(
    first: LedgerView,
    second: LedgerView,
    token: Address,
    session_id: Symbol,
    id: u64,
)
    ensures
        first.get(DataKey::Admin) == second.get(DataKey::Admin) ==> first.admin()
            == second.admin(),
        first.get(DataKey::Treasury) == second.get(DataKey::Treasury) ==> first.treasury()
            == second.treasury(),
        first.get(DataKey::FeeBps) == second.get(DataKey::FeeBps) ==> first.fee_bps()
            == second.fee_bps(),
        first.get(DataKey::EscrowCount) == second.get(DataKey::EscrowCount)
            ==> first.escrow_count() == second.escrow_count(),
        first.get(DataKey::AutoReleaseDelay) == second.get(DataKey::AutoReleaseDelay)
            ==> first.auto_release_delay() == second.auto_release_delay(),
        first.get(DataKey::ApprovedToken(token)) == second.get(DataKey::ApprovedToken(token))
            ==> first.token_approved(token) == second.token_approved(token),
        first.get(DataKey::Session(session_id)) == second.get(DataKey::Session(session_id))
            ==> first.session_taken(session_id) == second.session_taken(session_id),
        first.get(DataKey::Escrow(id)) == second.get(DataKey::Escrow(id)) ==> first.escrow(id)
            == second.escrow(id),
        first.get(DataKey::Review(id)) == second.get(DataKey::Review(id)) ==> first.review(id)
            == second.review(id),
{
}

/// Each entry is read back as it was written, under its own key, and a write
/// changes no other entry.
pub proof fn written_entry_is_read_back(
    ledger: LedgerView,
    party: Address,
    fee_bps: u32,
    number: u64,
    approved: bool,
    name: Symbol,
    escrow: Escrow,
    entry: Entry,
    key: DataKey,
)
    ensures
        ledger.write(Entry::Admin(party)).admin() == Some(party),
        ledger.write(Entry::Treasury(party)).treasury() == Some(party),
        ledger.write(Entry::FeeBps(fee_bps)).fee_bps() == fee_bps,
        ledger.write(Entry::EscrowCount(number)).escrow_count() == number,
        ledger.write(Entry::AutoReleaseDelay(number)).auto_release_delay() == number,
        ledger.write(Entry::ApprovedToken(party, approved)).token_approved(party) == approved,
        ledger.write(Entry::Session(name)).session_taken(name),
        ledger.write(Entry::Escrow(number, escrow)).escrow(number) == Some(escrow),
        ledger.write(Entry::Review(number, name)).review(number) == Some(name),
        ledger.write(entry).get(entry.spec_key()) == Some(entry),
        key != entry.spec_key() ==> ledger.write(entry).get(key) == ledger.get(key),
{
}

/// The key of an entry is of the kind of the entry, and carries what the entry
/// carries beside its value.
pub proof fn entry_has_its_key(
    party: Address,
    number: u32,
    id: u64,
    approved: bool,
    name: Symbol,
    escrow: Escrow,
)
    ensures
        Entry::Admin(party).spec_key() == DataKey::Admin,
        Entry::Treasury(party).spec_key() == DataKey::Treasury,
        Entry::FeeBps(number).spec_key() == DataKey::FeeBps,
        Entry::EscrowCount(id).spec_key() == DataKey::EscrowCount,
        Entry::AutoReleaseDelay(id).spec_key() == DataKey::AutoReleaseDelay,
        Entry::ApprovedToken(party, approved).spec_key() == DataKey::ApprovedToken(party),
        Entry::Session(name).spec_key() == DataKey::Session(name),
        Entry::Escrow(id, escrow).spec_key() == DataKey::Escrow(id),
        Entry::Review(id, name).spec_key() == DataKey::Review(id),
{
}

/// Doing one more request changes the ledger exactly where it is a write.
pub proof fn commit_does_the_writes(ledger: LedgerView, ops: Seq<HostOp>, op: HostOp)
    ensures
        ledger.commit(Seq::empty()) == ledger,
        ledger.commit(ops.push(op)) == match op {
            HostOp::Write(entry) => ledger.commit(ops).write(entry),
            _ => ledger.commit(ops),
        },
{
    assert(ops.push(op).drop_last() == ops);
}

/// The last answer of a token about a holder is the balance, and an answer about
/// one holder says nothing of another.
pub proof fn last_answer_is_the_balance(
    answers: Seq<TokenBalance>,
    answer: TokenBalance,
    token: Address,
    holder: Address,
    env: EnvView,
    before: EnvView,
)
    requires
        env.balances == crate::host::balance_map(answers.push(answer)),
        before.balances == crate::host::balance_map(answers),
    ensures
        env.balance(answer.token, answer.holder) == Some(answer.amount),
        token != answer.token || holder != answer.holder ==> env.balance(token, holder)
            == before.balance(token, holder),
        answers.len() == 0 ==> before.balance(token, holder) is None,
{
    assert(answers.push(answer).drop_last() == answers);
}

} // verus!
