//! What a call sees of the chain, and what it asks the chain to do.

use vstd::prelude::*;

use crate::error::EscrowError;
use crate::ledger::{DataKey, Entry, Ledger, LedgerView};
use crate::types::{Address, Symbol};

verus! {

/// An entry whose remaining life is at least this many ledgers is left alone.
pub const ESCROW_TTL_THRESHOLD: u32 = 500_000;

/// How many ledgers an entry lives on once its life is extended (at about five
/// seconds a ledger, 57 days).
pub const ESCROW_TTL_BUMP: u32 = 1_000_000;

/// What the contract announces. Each event carries the id of an escrow.
#[derive(Clone, Copy, Debug, PartialEq, Eq, Structural)]
pub enum Event {
    Created {
        id: u64,
        mentor: Address,
        learner: Address,
        amount: i128,
        session_id: Symbol,
        token_address: Address,
        session_end_time: u64,
    },
    Released {
        id: u64,
        mentor: Address,
        amount: i128,
        net_amount: i128,
        platform_fee: i128,
        token_address: Address,
    },
    PartiallyReleased {
        id: u64,
        mentor: Address,
        amount: i128,
        net_amount: i128,
        platform_fee: i128,
        token_address: Address,
        remaining: i128,
    },
    AdminReleased { id: u64, timestamp: u64 },
    AutoReleased { id: u64, timestamp: u64 },
    DisputeOpened { id: u64, caller: Address, reason: Symbol, token_address: Address },
    DisputeResolved {
        id: u64,
        mentor_pct: u32,
        mentor_amount: i128,
        learner_amount: i128,
        token_address: Address,
        timestamp: u64,
    },
    Refunded { id: u64, learner: Address, amount: i128, token_address: Address },
    Reviewed { id: u64, caller: Address, reason: Symbol, mentor: Address },
}

impl Event {
    /// The name of each kind of event.
    pub open spec fn topic_text(self) -> Seq<char> {
        match self {
            Event::Created { .. } => "created"@,
            Event::Released { .. } => "released"@,
            Event::PartiallyReleased { .. } => "rel_part"@,
            Event::AdminReleased { .. } => "adm_rel"@,
            Event::AutoReleased { .. } => "auto_rel"@,
            Event::DisputeOpened { .. } => "disp_opnd"@,
            Event::DisputeResolved { .. } => "disp_res"@,
            Event::Refunded { .. } => "refunded"@,
            Event::Reviewed { .. } => "review"@,
        }
    }

    /// Returns the name of the kind of event. It is published under the topics
    /// `Escrow`, this name and the id of the escrow.
    pub fn topic(&self) -> (topic: &'static str)
        ensures
            topic@ == self.topic_text(),
    {
        match self {
            Event::Created { .. } => "created",
            Event::Released { .. } => "released",
            Event::PartiallyReleased { .. } => "rel_part",
            Event::AdminReleased { .. } => "adm_rel",
            Event::AutoReleased { .. } => "auto_rel",
            Event::DisputeOpened { .. } => "disp_opnd",
            Event::DisputeResolved { .. } => "disp_res",
            Event::Refunded { .. } => "refunded",
            Event::Reviewed { .. } => "review",
        }
    }
}

/// One thing that the contract asks the chain to do.
#[derive(Clone, Copy, Debug, PartialEq, Eq, Structural)]
pub enum HostOp {
    /// Abort the call unless this party has authorized it.
    RequireAuth(Address),
    /// Let the entry with `key` live on for `extend_to` ledgers, if fewer than
    /// `threshold` are left of its life.
    ExtendTtl { key: DataKey, threshold: u32, extend_to: u32 },
    /// Write an entry.
    Write(Entry),
    /// Move tokens.
    Transfer { token: Address, from: Address, to: Address, amount: i128 },
    /// Announce an event.
    Publish(Event),
}

impl HostOp {
    /// The request that keeps the entry with `key` alive.
    pub open spec fn keep_alive(key: DataKey) -> HostOp {
        HostOp::ExtendTtl { key, threshold: ESCROW_TTL_THRESHOLD, extend_to: ESCROW_TTL_BUMP }
    }

    /// Returns the request that keeps the entry with `key` alive.
    pub fn extend_ttl(key: DataKey) -> (op: HostOp)
        ensures
            op == HostOp::keep_alive(key),
    {
        HostOp::ExtendTtl { key, threshold: ESCROW_TTL_THRESHOLD, extend_to: ESCROW_TTL_BUMP }
    }
}

impl LedgerView {
    /// The ledger after `ops` are done. Only writes change it.
    pub open spec fn commit(self, ops: Seq<HostOp>) -> LedgerView
        decreases ops.len(),
    {
        if ops.len() == 0 {
            self
        } else {
            match ops.last() {
                HostOp::Write(entry) => self.commit(ops.drop_last()).write(entry),
                _ => self.commit(ops.drop_last()),
            }
        }
    }
}

impl Ledger {
    /// Does the writes among `ops`, in their order.
    pub fn commit(&mut self, ops: &Vec<HostOp>)
        ensures
            final(self)@ == old(self)@.commit(ops@),
    {
        let mut i: usize = 0;
        assert(ops@.take(0) == Seq::<HostOp>::empty());
        while i < ops.len()
            invariant
                i <= ops@.len(),
                self@ == old(self)@.commit(ops@.take(i as int)),
            decreases ops@.len() - i,
        {
            assert(ops@.take(i + 1).drop_last() == ops@.take(i as int));
            match ops[i] {
                HostOp::Write(entry) => self.write(entry),
                _ => {},
            }
            i = i + 1;
        }
        assert(ops@.take(i as int) == ops@);
    }
}

/// What a token answered when it was asked for the balance of `holder`.
#[derive(Clone, Copy, Debug, PartialEq, Eq, Structural)]
pub struct TokenBalance {
    pub token: Address,
    pub holder: Address,
    pub amount: i128,
}

/// What a call sees of the chain.
pub struct Env {
    /// The entries of the contract, as they were when the call began.
    pub ledger: Ledger,
    /// The address of the contract itself.
    pub contract: Address,
    /// The time of the current ledger: a Unix timestamp in seconds.
    pub timestamp: u64,
    /// The balances that tokens were asked for.
    pub balances: Vec<TokenBalance>,
}

/// What a call sees of the chain, with the ledger and the balances as maps. A
/// balance has the token and the holder as its key.
pub struct EnvView {
    pub ledger: LedgerView,
    pub contract: Address,
    pub timestamp: u64,
    pub balances: Map<(Address, Address), i128>,
}

/// The balances in `answers`, the later ones taking the place of the earlier.
pub open spec fn balance_map(answers: Seq<TokenBalance>) -> Map<(Address, Address), i128>
    decreases answers.len(),
{
    if answers.len() == 0 {
        Map::empty()
    } else {
        let last = answers.last();
        balance_map(answers.drop_last()).insert((last.token, last.holder), last.amount)
    }
}

impl View for Env {
    type V = EnvView;

    open spec fn view(&self) -> EnvView {
        EnvView {
            ledger: self.ledger@,
            contract: self.contract,
            timestamp: self.timestamp,
            balances: balance_map(self.balances@),
        }
    }
}

impl EnvView {
    /// What `token` answered for the balance of `holder`, if it answered.
    pub open spec fn balance(self, token: Address, holder: Address) -> Option<i128> {
        if self.balances.contains_key((token, holder)) {
            Some(self.balances[(token, holder)])
        } else {
            None
        }
    }
}

impl Env {
    /// Returns what `token` answered for the balance of `holder`, if it answered.
    pub fn balance(&self, token: Address, holder: Address) -> (balance: Option<i128>)
        ensures
            balance == self@.balance(token, holder),
    {
        let mut i: usize = self.balances.len();
        assert(self.balances@.take(i as int) == self.balances@);
        while i > 0
            invariant
                i <= self.balances@.len(),
                ({
                    let rest = balance_map(self.balances@.take(i as int));
                    let all = balance_map(self.balances@);
                    &&& all.contains_key((token, holder)) == rest.contains_key((token, holder))
                    &&& all[(token, holder)] == rest[(token, holder)]
                }),
            decreases i,
        {
            i = i - 1;
            let answer = self.balances[i];
            assert(self.balances@.take(i + 1).drop_last() == self.balances@.take(i as int));
            if answer.token == token && answer.holder == holder {
                return Some(answer.amount);
            }
        }
        None
    }
}

/// What a call comes to: what it asked the chain to do, in order, and what it
/// returns. A call that is rejected asked for what stands in `ops` before the
/// rejection; the chain undoes all of it.
#[derive(Debug)]
pub struct Outcome<T> {
    pub ops: Vec<HostOp>,
    pub result: Result<T, EscrowError>,
}

} // verus!
