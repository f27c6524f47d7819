//! The entries that the contract keeps on the ledger.

use vstd::prelude::*;

use crate::types::{Address, Escrow, Symbol};

verus! {

/// Auto-release delay where none was chosen: 72 hours, in seconds.
pub const DEFAULT_AUTO_RELEASE_DELAY: u64 = 72 * 60 * 60;

/// The key of one ledger entry.
#[derive(Clone, Copy, Debug, PartialEq, Eq, Structural)]
pub enum DataKey {
    Admin,
    Treasury,
    FeeBps,
    EscrowCount,
    AutoReleaseDelay,
    ApprovedToken(Address),
    Session(Symbol),
    Escrow(u64),
    Review(u64),
}

impl DataKey {
    /// The name that each kind of key starts with on the ledger.
    pub open spec fn prefix_text(self) -> Seq<char> {
        match self {
            DataKey::Admin => "ADMIN"@,
            DataKey::Treasury => "TREASURY"@,
            DataKey::FeeBps => "FEE_BPS"@,
            DataKey::EscrowCount => "ESC_CNT"@,
            DataKey::AutoReleaseDelay => "AR_DELAY"@,
            DataKey::ApprovedToken(_) => "APRV_TOK"@,
            DataKey::Session(_) => "SESSION"@,
            DataKey::Escrow(_) => "ESCROW"@,
            DataKey::Review(_) => "REVIEW"@,
        }
    }

    /// Returns the name that the key starts with on the ledger. A key that
    /// carries a value is the pair of this name and the value.
    pub fn prefix(&self) -> (prefix: &'static str)
        ensures
            prefix@ == self.prefix_text(),
    {
        match self {
            DataKey::Admin => "ADMIN",
            DataKey::Treasury => "TREASURY",
            DataKey::FeeBps => "FEE_BPS",
            DataKey::EscrowCount => "ESC_CNT",
            DataKey::AutoReleaseDelay => "AR_DELAY",
            DataKey::ApprovedToken(_) => "APRV_TOK",
            DataKey::Session(_) => "SESSION",
            DataKey::Escrow(_) => "ESCROW",
            DataKey::Review(_) => "REVIEW",
        }
    }
}

/// One ledger entry: what its key carries, then its value.
#[derive(Clone, Copy, Debug, PartialEq, Eq, Structural)]
pub enum Entry {
    Admin(Address),
    Treasury(Address),
    FeeBps(u32),
    EscrowCount(u64),
    AutoReleaseDelay(u64),
    ApprovedToken(Address, bool),
    /// A session id that is taken.
    Session(Symbol),
    Escrow(u64, Escrow),
    Review(u64, Symbol),
}

impl Entry {
    /// The key under which the entry is kept.
    pub open spec fn spec_key(self) -> DataKey {
        match self {
            Entry::Admin(_) => DataKey::Admin,
            Entry::Treasury(_) => DataKey::Treasury,
            Entry::FeeBps(_) => DataKey::FeeBps,
            Entry::EscrowCount(_) => DataKey::EscrowCount,
            Entry::AutoReleaseDelay(_) => DataKey::AutoReleaseDelay,
            Entry::ApprovedToken(token, _) => DataKey::ApprovedToken(token),
            Entry::Session(session_id) => DataKey::Session(session_id),
            Entry::Escrow(id, _) => DataKey::Escrow(id),
            Entry::Review(id, _) => DataKey::Review(id),
        }
    }

    /// Returns the key under which the entry is kept.
    pub fn key(&self) -> (key: DataKey)
        ensures
            key == self.spec_key(),
    {
        match *self {
            Entry::Admin(_) => DataKey::Admin,
            Entry::Treasury(_) => DataKey::Treasury,
            Entry::FeeBps(_) => DataKey::FeeBps,
            Entry::EscrowCount(_) => DataKey::EscrowCount,
            Entry::AutoReleaseDelay(_) => DataKey::AutoReleaseDelay,
            Entry::ApprovedToken(token, _) => DataKey::ApprovedToken(token),
            Entry::Session(session_id) => DataKey::Session(session_id),
            Entry::Escrow(id, _) => DataKey::Escrow(id),
            Entry::Review(id, _) => DataKey::Review(id),
        }
    }
}

/// The ledger as a map from keys to entries.
#[verifier::ext_equal]
pub struct LedgerView {
    pub entries: Map<DataKey, Entry>,
}

impl LedgerView {
    /// The ledger on which nothing was written.
    pub open spec fn empty() -> LedgerView {
        LedgerView { entries: Map::empty() }
    }

    /// The ledger after `entry` is written: it takes the place of the entry
    /// that had its key, and every other entry stays.
    pub open spec fn write(self, entry: Entry) -> LedgerView {
        LedgerView { entries: self.entries.insert(entry.spec_key(), entry) }
    }

    /// The ledger after `entries` are written one after the other.
    pub open spec fn write_all(self, entries: Seq<Entry>) -> LedgerView
        decreases entries.len(),
    {
        if entries.len() == 0 {
            self
        } else {
            self.write_all(entries.drop_last()).write(entries.last())
        }
    }

    /// Whether there is an entry with `key`.
    pub open spec fn has(self, key: DataKey) -> bool {
        self.entries.contains_key(key)
    }

    /// The entry with `key`, if there is one.
    pub open spec fn get(self, key: DataKey) -> Option<Entry> {
        if self.entries.contains_key(key) {
            Some(self.entries[key])
        } else {
            None
        }
    }

    /// The admin, once there is one.
    pub open spec fn admin(self) -> Option<Address> {
        match self.get(DataKey::Admin) {
            Some(Entry::Admin(admin)) => Some(admin),
            _ => None,
        }
    }

    /// The address that receives the platform fee, once there is one.
    pub open spec fn treasury(self) -> Option<Address> {
        match self.get(DataKey::Treasury) {
            Some(Entry::Treasury(treasury)) => Some(treasury),
            _ => None,
        }
    }

    /// The platform fee in basis points; none is charged where none is set.
    pub open spec fn fee_bps(self) -> u32 {
        match self.get(DataKey::FeeBps) {
            Some(Entry::FeeBps(fee_bps)) => fee_bps,
            _ => 0,
        }
    }

    /// How many escrows were created.
    pub open spec fn escrow_count(self) -> u64 {
        match self.get(DataKey::EscrowCount) {
            Some(Entry::EscrowCount(count)) => count,
            _ => 0,
        }
    }

    /// The auto-release delay that new escrows get: 72 hours where none is set.
    pub open spec fn auto_release_delay(self) -> u64 {
        match self.get(DataKey::AutoReleaseDelay) {
            Some(Entry::AutoReleaseDelay(delay)) => delay,
            _ => DEFAULT_AUTO_RELEASE_DELAY,
        }
    }

    /// Whether escrows may hold `token`; a token that was never mentioned is
    /// not approved.
    pub open spec fn token_approved(self, token: Address) -> bool {
        match self.get(DataKey::ApprovedToken(token)) {
            Some(Entry::ApprovedToken(_, approved)) => approved,
            _ => false,
        }
    }

    /// Whether an escrow was created for the session.
    pub open spec fn session_taken(self, session_id: Symbol) -> bool {
        self.has(DataKey::Session(session_id))
    }

    /// The escrow with `id`, if there is one.
    pub open spec fn escrow(self, id: u64) -> Option<Escrow> {
        match self.get(DataKey::Escrow(id)) {
            Some(Entry::Escrow(_, escrow)) => Some(escrow),
            _ => None,
        }
    }

    /// The review of the escrow with `id`, if there is one.
    pub open spec fn review(self, id: u64) -> Option<Symbol> {
        match self.get(DataKey::Review(id)) {
            Some(Entry::Review(_, reason)) => Some(reason),
            _ => None,
        }
    }

    /// The escrows of `mentor` among those with the ids 1 to `n`, in the order
    /// of their ids.
    pub open spec fn escrows_of(self, mentor: Address, n: nat) -> Seq<Escrow>
        decreases n,
    {
        if n == 0 {
            Seq::empty()
        } else {
            let before = self.escrows_of(mentor, (n - 1) as nat);
            match self.escrow(n as u64) {
                Some(escrow) if escrow.mentor == mentor => before.push(escrow),
                _ => before,
            }
        }
    }
}

/// The ledger entries that are at hand: every write, in order. The last write
/// under a key is the entry that the key has.
pub struct Ledger {
    pub writes: Vec<Entry>,
}

impl View for Ledger {
    type V = LedgerView;

    open spec fn view(&self) -> LedgerView {
        LedgerView::empty().write_all(self.writes@)
    }
}

impl Ledger {
    /// Returns a ledger without entries.
    pub fn new() -> (ledger: Ledger)
        ensures
            ledger@ == LedgerView::empty(),
    {
        Ledger { writes: Vec::new() }
    }

    /// Writes `entry` under its key.
    pub fn write(&mut self, entry: Entry)
        ensures
            final(self)@ == old(self)@.write(entry),
    {
        self.writes.push(entry);
        assert(self.writes@.drop_last() == old(self).writes@);
    }

    /// Returns the entry with `key`, if there is one.
    pub fn get(&self, key: DataKey) -> (entry: Option<Entry>)
        ensures
            entry == self@.get(key),
    {
        let mut i: usize = self.writes.len();
        assert(self.writes@.take(i as int) == self.writes@);
        while i > 0
            invariant
                i <= self.writes@.len(),
                self@.get(key) == LedgerView::empty().write_all(
                    self.writes@.take(i as int),
                ).get(key),
            decreases i,
        {
            i = i - 1;
            let entry = self.writes[i];
            assert(self.writes@.take(i + 1).drop_last() == self.writes@.take(i as int));
            if entry.key() == key {
                return Some(entry);
            }
        }
        None
    }

    /// Returns whether there is an entry with `key`.
    pub fn has(&self, key: DataKey) -> (has: bool)
        ensures
            has == self@.has(key),
    {
        self.get(key).is_some()
    }

    /// Returns the admin, once there is one.
    pub fn admin(&self) -> (admin: Option<Address>)
        ensures
            admin == self@.admin(),
    {
        match self.get(DataKey::Admin) {
            Some(Entry::Admin(admin)) => Some(admin),
            _ => None,
        }
    }

    /// Returns the address that receives the platform fee, once there is one.
    pub fn treasury(&self) -> (treasury: Option<Address>)
        ensures
            treasury == self@.treasury(),
    {
        match self.get(DataKey::Treasury) {
            Some(Entry::Treasury(treasury)) => Some(treasury),
            _ => None,
        }
    }

    /// Returns the platform fee in basis points; 0 where none is set.
    pub fn fee_bps(&self) -> (fee_bps: u32)
        ensures
            fee_bps == self@.fee_bps(),
    {
        match self.get(DataKey::FeeBps) {
            Some(Entry::FeeBps(fee_bps)) => fee_bps,
            _ => 0,
        }
    }

    /// Returns how many escrows were created.
    pub fn escrow_count(&self) -> (count: u64)
        ensures
            count == self@.escrow_count(),
    {
        match self.get(DataKey::EscrowCount) {
            Some(Entry::EscrowCount(count)) => count,
            _ => 0,
        }
    }

    /// Returns the auto-release delay in seconds; 72 hours where none is set.
    pub fn auto_release_delay(&self) -> (delay: u64)
        ensures
            delay == self@.auto_release_delay(),
    {
        match self.get(DataKey::AutoReleaseDelay) {
            Some(Entry::AutoReleaseDelay(delay)) => delay,
            _ => DEFAULT_AUTO_RELEASE_DELAY,
        }
    }

    /// Returns the escrow with `id`, if there is one.
    pub fn escrow(&self, id: u64) -> (escrow: Option<Escrow>)
        ensures
            escrow == self@.escrow(id),
    {
        match self.get(DataKey::Escrow(id)) {
            Some(Entry::Escrow(_, escrow)) => Some(escrow),
            _ => None,
        }
    }

    /// Returns the review of the escrow with `id`, if there is one.
    pub fn review(&self, id: u64) -> (reason: Option<Symbol>)
        ensures
            reason == self@.review(id),
    {
        match self.get(DataKey::Review(id)) {
            Some(Entry::Review(_, reason)) => Some(reason),
            _ => None,
        }
    }
}

} // verus!
