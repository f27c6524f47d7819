//! The escrow contract: a learner's deposit for a session is held until it is
//! released to the mentor, refunded, or split between the two.

use vstd::prelude::*;

use crate::error::EscrowError;
use crate::fees::{split_dispute, split_fee, MAX_FEE_BPS};
use crate::host::{Env, Event, HostOp, Outcome};
use crate::ledger::{DataKey, Entry, DEFAULT_AUTO_RELEASE_DELAY};
use crate::types::{Address, Escrow, EscrowStatus, Symbol};

verus! {

/// The escrow contract. A call is a function of what it sees of the chain: it
/// returns what the chain is to do, in order, and the result of the call.
pub struct EscrowContract;

impl EscrowContract {
    // Initialization and administration.

    /// Initializes the contract with an admin, a treasury, a fee, approved
    /// tokens and an auto-release delay.
    ///
    /// - `fee_bps`: platform fee in basis points (500 is 5%), at most 1 000.
    /// - `treasury`: receives the platform fee on every release.
    /// - `auto_release_delay_secs`: seconds after the end of the session before
    ///   anyone may release the funds to the mentor; 0 stands for 72 hours.
    ///
    /// A second call is rejected.
    pub fn initialize(
        env: &Env,
        admin: Address,
        treasury: Address,
        fee_bps: u32,
        approved_tokens: &Vec<Address>,
        auto_release_delay_secs: u64,
    ) -> (out: Outcome<()>)
        ensures
            out.result == env@.initialize_result(fee_bps),
            out.ops@ == env@.initialize_ops(
                admin,
                treasury,
                fee_bps,
                approved_tokens@,
                auto_release_delay_secs,
            ),
    {
        let mut ops: Vec<HostOp> = Vec::new();
        if env.ledger.has(DataKey::Admin) {
            return Outcome { ops, result: Err(EscrowError::AlreadyInitialized) };
        }
        if fee_bps > MAX_FEE_BPS {
            return Outcome { ops, result: Err(EscrowError::FeeExceedsMaximum) };
        }
        ops.push(HostOp::Write(Entry::Admin(admin)));
        ops.push(HostOp::extend_ttl(DataKey::Admin));
        ops.push(HostOp::Write(Entry::Treasury(treasury)));
        ops.push(HostOp::extend_ttl(DataKey::Treasury));
        ops.push(HostOp::Write(Entry::FeeBps(fee_bps)));
        ops.push(HostOp::extend_ttl(DataKey::FeeBps));
        ops.push(HostOp::Write(Entry::EscrowCount(0)));
        ops.push(HostOp::extend_ttl(DataKey::EscrowCount));
        let delay: u64 = if auto_release_delay_secs == 0 {
            DEFAULT_AUTO_RELEASE_DELAY
        } else {
            auto_release_delay_secs
        };
        ops.push(HostOp::Write(Entry::AutoReleaseDelay(delay)));
        ops.push(HostOp::extend_ttl(DataKey::AutoReleaseDelay));
        let ghost settings = ops@;
        let mut i: usize = 0;
        assert(approved_tokens@.take(0) == Seq::<Address>::empty());
        while i < approved_tokens.len()
            invariant
                i <= approved_tokens@.len(),
                ops@ == settings + crate::model::approval_ops(approved_tokens@.take(i as int)),
            decreases approved_tokens@.len() - i,
        {
            assert(approved_tokens@.take(i + 1).drop_last() == approved_tokens@.take(i as int));
            Self::_set_token_approved(&mut ops, approved_tokens[i], true);
            i = i + 1;
        }
        assert(approved_tokens@.take(i as int) == approved_tokens@);
        Outcome { ops, result: Ok(()) }
    }

    /// Changes the platform fee. Admin only; at most 1 000 basis points (10%).
    pub fn update_fee(env: &Env, new_fee_bps: u32) -> (out: Outcome<()>)
        ensures
            out.result == env@.update_fee_result(new_fee_bps),
            out.ops@ == env@.update_fee_ops(new_fee_bps),
    {
        let mut ops: Vec<HostOp> = Vec::new();
        match env.ledger.admin() {
            None => Outcome { ops, result: Err(EscrowError::NotInitialized) },
            Some(admin) => {
                ops.push(HostOp::extend_ttl(DataKey::Admin));
                ops.push(HostOp::RequireAuth(admin));
                if new_fee_bps > MAX_FEE_BPS {
                    return Outcome { ops, result: Err(EscrowError::FeeExceedsMaximum) };
                }
                ops.push(HostOp::Write(Entry::FeeBps(new_fee_bps)));
                ops.push(HostOp::extend_ttl(DataKey::FeeBps));
                Outcome { ops, result: Ok(()) }
            },
        }
    }

    /// Changes the address that receives the platform fee. Admin only.
    pub fn update_treasury(env: &Env, new_treasury: Address) -> (out: Outcome<()>)
        ensures
            out.result == env@.admin_result(),
            out.ops@ == env@.update_treasury_ops(new_treasury),
    {
        let mut ops: Vec<HostOp> = Vec::new();
        match env.ledger.admin() {
            None => Outcome { ops, result: Err(EscrowError::NotInitialized) },
            Some(admin) => {
                ops.push(HostOp::extend_ttl(DataKey::Admin));
                ops.push(HostOp::RequireAuth(admin));
                ops.push(HostOp::Write(Entry::Treasury(new_treasury)));
                ops.push(HostOp::extend_ttl(DataKey::Treasury));
                Outcome { ops, result: Ok(()) }
            },
        }
    }

    /// Approves a token, or takes the approval back. Admin only.
    pub fn set_approved_token(env: &Env, token_address: Address, approved: bool) -> (out: Outcome<
        (),
    >)
        ensures
            out.result == env@.admin_result(),
            out.ops@ == env@.set_approved_token_ops(token_address, approved),
    {
        let mut ops: Vec<HostOp> = Vec::new();
        match env.ledger.admin() {
            None => Outcome { ops, result: Err(EscrowError::NotInitialized) },
            Some(admin) => {
                ops.push(HostOp::extend_ttl(DataKey::Admin));
                ops.push(HostOp::RequireAuth(admin));
                Self::_set_token_approved(&mut ops, token_address, approved);
                Outcome { ops, result: Ok(()) }
            },
        }
    }

    // The life of an escrow.

    /// Creates an escrow: `amount` tokens go from `learner` to the contract.
    /// Returns the id of the escrow.
    ///
    /// Only the learner can create an escrow, out of their own tokens.
    ///
    /// - `session_end_time`: Unix timestamp (seconds) at which the session ends.
    ///   After this plus the contract's auto-release delay anyone may call
    ///   `try_auto_release`.
    ///
    /// Rejected unless `amount` is positive, the token is approved, the learner
    /// has the tokens, and no escrow was created for the session before.
    pub fn create_escrow(
        env: &Env,
        mentor: Address,
        learner: Address,
        amount: i128,
        session_id: Symbol,
        token_address: Address,
        session_end_time: u64,
    ) -> (out: Outcome<u64>)
        ensures
            out.result == env@.create_escrow_result(learner, amount, session_id, token_address),
            out.ops@ == env@.create_escrow_ops(
                mentor,
                learner,
                amount,
                session_id,
                token_address,
                session_end_time,
            ),
    {
        let mut ops: Vec<HostOp> = Vec::new();
        if amount <= 0 {
            return Outcome { ops, result: Err(EscrowError::AmountNotPositive) };
        }
        if !Self::_is_token_approved(env, token_address) {
            return Outcome { ops, result: Err(EscrowError::TokenNotApproved) };
        }
        ops.push(HostOp::RequireAuth(learner));
        match env.balance(token_address, learner) {
            None => {
                return Outcome { ops, result: Err(EscrowError::BalanceUnavailable) };
            },
            Some(learner_balance) => {
                if learner_balance < amount {
                    return Outcome { ops, result: Err(EscrowError::InsufficientBalance) };
                }
            },
        }
        let auto_release_delay: u64 = env.ledger.auto_release_delay();
        ops.push(HostOp::extend_ttl(DataKey::AutoReleaseDelay));

        if env.ledger.has(DataKey::Session(session_id)) {
            return Outcome { ops, result: Err(EscrowError::SessionIdExists) };
        }
        ops.push(HostOp::Write(Entry::Session(session_id)));
        ops.push(HostOp::extend_ttl(DataKey::Session(session_id)));

        match env.ledger.escrow_count().checked_add(1) {
            None => Outcome { ops, result: Err(EscrowError::CounterOverflow) },
            Some(count) => {
                ops.push(HostOp::Write(Entry::EscrowCount(count)));
                ops.push(HostOp::extend_ttl(DataKey::EscrowCount));
                ops.push(
                    HostOp::Transfer {
                        token: token_address,
                        from: learner,
                        to: env.contract,
                        amount,
                    },
                );
                let escrow = Escrow {
                    id: count,
                    mentor,
                    learner,
                    amount,
                    session_id,
                    status: EscrowStatus::Active,
                    created_at: env.timestamp,
                    token_address,
                    platform_fee: 0,
                    net_amount: 0,
                    session_end_time,
                    auto_release_delay,
                    dispute_reason: Symbol::empty(),
                    resolved_at: 0,
                };
                ops.push(HostOp::Write(Entry::Escrow(count, escrow)));
                ops.push(HostOp::extend_ttl(DataKey::Escrow(count)));
                ops.push(
                    HostOp::Publish(
                        Event::Created {
                            id: count,
                            mentor,
                            learner,
                            amount,
                            session_id,
                            token_address,
                            session_end_time,
                        },
                    ),
                );
                Outcome { ops, result: Ok(count) }
            },
        }
    }

    /// Releases to the mentor all that an active escrow holds. Called by the
    /// learner or the admin.
    ///
    /// The platform fee (`amount * fee_bps / 10_000`) goes to the treasury and
    /// the rest to the mentor. Both amounts are kept on the escrow and announced.
    pub fn release_funds(env: &Env, caller: Address, escrow_id: u64) -> (out: Outcome<()>)
        ensures
            out.result == env@.release_funds_result(caller, escrow_id),
            out.ops@ == env@.release_funds_ops(caller, escrow_id),
    {
        let mut ops: Vec<HostOp> = Vec::new();
        ops.push(HostOp::extend_ttl(DataKey::Escrow(escrow_id)));
        match Self::active_escrow(env, escrow_id) {
            Err(error) => Outcome { ops, result: Err(error) },
            Ok(escrow) => match Self::require_releaser(env, &mut ops, caller, &escrow) {
                Err(error) => Outcome { ops, result: Err(error) },
                Ok(()) => {
                    let result = Self::_do_release(env, &mut ops, escrow_id, escrow);
                    Outcome { ops, result }
                },
            },
        }
    }

    /// Releases `amount_to_release` of what an active escrow holds, with the fee
    /// on that part. Called by the learner or the admin. The escrow stays active
    /// until nothing is left.
    pub fn release_partial(
        env: &Env,
        caller: Address,
        escrow_id: u64,
        amount_to_release: i128,
    ) -> (out: Outcome<()>)
        ensures
            out.result == env@.release_partial_result(caller, escrow_id, amount_to_release),
            out.ops@ == env@.release_partial_ops(caller, escrow_id, amount_to_release),
    {
        let mut ops: Vec<HostOp> = Vec::new();
        ops.push(HostOp::extend_ttl(DataKey::Escrow(escrow_id)));
        match Self::active_escrow(env, escrow_id) {
            Err(error) => Outcome { ops, result: Err(error) },
            Ok(escrow) => {
                if amount_to_release <= 0 || amount_to_release > escrow.amount {
                    return Outcome { ops, result: Err(EscrowError::InvalidReleaseAmount) };
                }
                match Self::require_releaser(env, &mut ops, caller, &escrow) {
                    Err(error) => Outcome { ops, result: Err(error) },
                    Ok(()) => match Self::pay_out(env, &mut ops, &escrow, amount_to_release) {
                        Err(error) => Outcome { ops, result: Err(error) },
                        Ok((paid, net_amount, platform_fee)) => {
                            ops.push(HostOp::Write(Entry::Escrow(escrow_id, paid)));
                            ops.push(
                                HostOp::Publish(
                                    Event::PartiallyReleased {
                                        id: paid.id,
                                        mentor: paid.mentor,
                                        amount: amount_to_release,
                                        net_amount,
                                        platform_fee,
                                        token_address: paid.token_address,
                                        remaining: paid.amount,
                                    },
                                ),
                            );
                            Outcome { ops, result: Ok(()) }
                        },
                    },
                }
            },
        }
    }

    /// Releases to the mentor all that an active escrow holds, on the word of
    /// the admin.
    pub fn admin_release(env: &Env, escrow_id: u64) -> (out: Outcome<()>)
        ensures
            out.result == env@.admin_release_result(escrow_id),
            out.ops@ == env@.admin_release_ops(escrow_id),
    {
        let mut ops: Vec<HostOp> = Vec::new();
        ops.push(HostOp::extend_ttl(DataKey::Escrow(escrow_id)));
        match Self::active_escrow(env, escrow_id) {
            Err(error) => Outcome { ops, result: Err(error) },
            Ok(escrow) => match env.ledger.admin() {
                None => Outcome { ops, result: Err(EscrowError::AdminNotFound) },
                Some(admin) => {
                    ops.push(HostOp::extend_ttl(DataKey::Admin));
                    ops.push(HostOp::RequireAuth(admin));
                    ops.push(
                        HostOp::Publish(
                            Event::AdminReleased { id: escrow_id, timestamp: env.timestamp },
                        ),
                    );
                    let result = Self::_do_release(env, &mut ops, escrow_id, escrow);
                    Outcome { ops, result }
                },
            },
        }
    }

    /// Releases to the mentor all that an active escrow holds, once
    /// `session_end_time + auto_release_delay` has come. Anyone may call this;
    /// the fee is that of `release_funds`.
    pub fn try_auto_release(env: &Env, escrow_id: u64) -> (out: Outcome<()>)
        ensures
            out.result == env@.try_auto_release_result(escrow_id),
            out.ops@ == env@.try_auto_release_ops(escrow_id),
    {
        let mut ops: Vec<HostOp> = Vec::new();
        ops.push(HostOp::extend_ttl(DataKey::Escrow(escrow_id)));
        match Self::active_escrow(env, escrow_id) {
            Err(error) => Outcome { ops, result: Err(error) },
            Ok(escrow) => match escrow.session_end_time.checked_add(escrow.auto_release_delay) {
                None => Outcome { ops, result: Err(EscrowError::TimestampOverflow) },
                Some(release_after) => {
                    if env.timestamp < release_after {
                        return Outcome { ops, result: Err(EscrowError::AutoReleaseTooEarly) };
                    }
                    // Announced before the release itself, so that listeners can
                    // tell this path from a release by hand.
                    ops.push(
                        HostOp::Publish(
                            Event::AutoReleased { id: escrow_id, timestamp: env.timestamp },
                        ),
                    );
                    let result = Self::_do_release(env, &mut ops, escrow_id, escrow);
                    Outcome { ops, result }
                },
            },
        }
    }

    /// Opens a dispute over an active escrow. Called by the mentor or the
    /// learner.
    ///
    /// - `reason`: a short symbol that describes the dispute; it is kept on the
    ///   escrow for the admin.
    pub fn dispute(env: &Env, caller: Address, escrow_id: u64, reason: Symbol) -> (out: Outcome<()>)
        ensures
            out.result == env@.dispute_result(caller, escrow_id),
            out.ops@ == env@.dispute_ops(caller, escrow_id, reason),
    {
        let mut ops: Vec<HostOp> = Vec::new();
        ops.push(HostOp::extend_ttl(DataKey::Escrow(escrow_id)));
        match Self::active_escrow(env, escrow_id) {
            Err(error) => Outcome { ops, result: Err(error) },
            Ok(escrow) => {
                ops.push(HostOp::RequireAuth(caller));
                if caller != escrow.mentor && caller != escrow.learner {
                    return Outcome { ops, result: Err(EscrowError::CallerNotParty) };
                }
                let disputed = Escrow {
                    status: EscrowStatus::Disputed,
                    dispute_reason: reason,
                    ..escrow
                };
                ops.push(HostOp::Write(Entry::Escrow(escrow_id, disputed)));
                ops.push(
                    HostOp::Publish(
                        Event::DisputeOpened {
                            id: escrow_id,
                            caller,
                            reason,
                            token_address: escrow.token_address,
                        },
                    ),
                );
                Outcome { ops, result: Ok(()) }
            },
        }
    }

    /// Settles a disputed escrow by splitting what it holds between the mentor
    /// and the learner. Admin only.
    ///
    /// - `mentor_pct`: percentage (0 to 100) that goes to the mentor; the rest
    ///   goes to the learner. No platform fee is deducted.
    ///
    /// The mentor's share is kept in `net_amount`, the learner's share in
    /// `platform_fee`, and the time in `resolved_at`.
    pub fn resolve_dispute(env: &Env, escrow_id: u64, mentor_pct: u32) -> (out: Outcome<()>)
        ensures
            out.result == env@.resolve_dispute_result(escrow_id, mentor_pct),
            out.ops@ == env@.resolve_dispute_ops(escrow_id, mentor_pct),
    {
        let mut ops: Vec<HostOp> = Vec::new();
        match env.ledger.admin() {
            None => Outcome { ops, result: Err(EscrowError::NotInitialized) },
            Some(admin) => {
                ops.push(HostOp::extend_ttl(DataKey::Admin));
                ops.push(HostOp::RequireAuth(admin));
                ops.push(HostOp::extend_ttl(DataKey::Escrow(escrow_id)));
                match env.ledger.escrow(escrow_id) {
                    None => Outcome { ops, result: Err(EscrowError::EscrowNotFound) },
                    Some(escrow) => {
                        if escrow.status != EscrowStatus::Disputed {
                            return Outcome { ops, result: Err(EscrowError::EscrowNotDisputed) };
                        }
                        if mentor_pct > 100 {
                            return Outcome { ops, result: Err(EscrowError::PercentageTooHigh) };
                        }
                        let (mentor_amount, learner_amount) = split_dispute(
                            escrow.amount,
                            mentor_pct,
                        );
                        if mentor_amount > 0 {
                            ops.push(
                                HostOp::Transfer {
                                    token: escrow.token_address,
                                    from: env.contract,
                                    to: escrow.mentor,
                                    amount: mentor_amount,
                                },
                            );
                        }
                        if learner_amount > 0 {
                            ops.push(
                                HostOp::Transfer {
                                    token: escrow.token_address,
                                    from: env.contract,
                                    to: escrow.learner,
                                    amount: learner_amount,
                                },
                            );
                        }
                        let resolved = Escrow {
                            status: EscrowStatus::Resolved,
                            amount: learner_amount,
                            net_amount: mentor_amount,
                            platform_fee: learner_amount,
                            resolved_at: env.timestamp,
                            ..escrow
                        };
                        ops.push(HostOp::Write(Entry::Escrow(escrow_id, resolved)));
                        ops.push(
                            HostOp::Publish(
                                Event::DisputeResolved {
                                    id: escrow_id,
                                    mentor_pct,
                                    mentor_amount,
                                    learner_amount,
                                    token_address: escrow.token_address,
                                    timestamp: env.timestamp,
                                },
                            ),
                        );
                        Outcome { ops, result: Ok(()) }
                    },
                }
            },
        }
    }

    /// Pays all that an active or disputed escrow holds back to the learner.
    /// Admin only.
    pub fn refund(env: &Env, escrow_id: u64) -> (out: Outcome<()>)
        ensures
            out.result == env@.refund_result(escrow_id),
            out.ops@ == env@.refund_ops(escrow_id),
    {
        let mut ops: Vec<HostOp> = Vec::new();
        match env.ledger.admin() {
            None => Outcome { ops, result: Err(EscrowError::AdminNotFound) },
            Some(admin) => {
                ops.push(HostOp::extend_ttl(DataKey::Admin));
                ops.push(HostOp::RequireAuth(admin));
                ops.push(HostOp::extend_ttl(DataKey::Escrow(escrow_id)));
                match env.ledger.escrow(escrow_id) {
                    None => Outcome { ops, result: Err(EscrowError::EscrowNotFound) },
                    Some(escrow) => {
                        if escrow.status == EscrowStatus::Released || escrow.status
                            == EscrowStatus::Refunded || escrow.status == EscrowStatus::Resolved {
                            return Outcome { ops, result: Err(EscrowError::CannotRefund) };
                        }
                        ops.push(
                            HostOp::Transfer {
                                token: escrow.token_address,
                                from: env.contract,
                                to: escrow.learner,
                                amount: escrow.amount,
                            },
                        );
                        let refunded = Escrow { status: EscrowStatus::Refunded, ..escrow };
                        ops.push(HostOp::Write(Entry::Escrow(escrow_id, refunded)));
                        ops.push(
                            HostOp::Publish(
                                Event::Refunded {
                                    id: escrow_id,
                                    learner: escrow.learner,
                                    amount: escrow.amount,
                                    token_address: escrow.token_address,
                                },
                            ),
                        );
                        Outcome { ops, result: Ok(()) }
                    },
                }
            },
        }
    }

    // Queries.

    /// Returns the escrow with `escrow_id`.
    pub fn get_escrow(env: &Env, escrow_id: u64) -> (out: Outcome<Escrow>)
        ensures
            out.result == env@.get_escrow_result(escrow_id),
            out.ops@ == seq![HostOp::keep_alive(DataKey::Escrow(escrow_id))],
    {
        let mut ops: Vec<HostOp> = Vec::new();
        ops.push(HostOp::extend_ttl(DataKey::Escrow(escrow_id)));
        match env.ledger.escrow(escrow_id) {
            Some(escrow) => Outcome { ops, result: Ok(escrow) },
            None => Outcome { ops, result: Err(EscrowError::EscrowNotFound) },
        }
    }

    /// Returns how many escrows were created.
    pub fn get_escrow_count(env: &Env) -> (out: Outcome<u64>)
        ensures
            out.result == Ok::<u64, EscrowError>(env@.ledger.escrow_count()),
            out.ops@ == seq![HostOp::keep_alive(DataKey::EscrowCount)],
    {
        let mut ops: Vec<HostOp> = Vec::new();
        ops.push(HostOp::extend_ttl(DataKey::EscrowCount));
        Outcome { ops, result: Ok(env.ledger.escrow_count()) }
    }

    /// Returns the platform fee in basis points.
    pub fn get_fee_bps(env: &Env) -> (out: Outcome<u32>)
        ensures
            out.result == Ok::<u32, EscrowError>(env@.ledger.fee_bps()),
            out.ops@ == seq![HostOp::keep_alive(DataKey::FeeBps)],
    {
        let mut ops: Vec<HostOp> = Vec::new();
        ops.push(HostOp::extend_ttl(DataKey::FeeBps));
        Outcome { ops, result: Ok(env.ledger.fee_bps()) }
    }

    /// Returns the address that receives the platform fee.
    pub fn get_treasury(env: &Env) -> (out: Outcome<Address>)
        ensures
            out.result == env@.get_treasury_result(),
            out.ops@ == seq![HostOp::keep_alive(DataKey::Treasury)],
    {
        let mut ops: Vec<HostOp> = Vec::new();
        ops.push(HostOp::extend_ttl(DataKey::Treasury));
        match env.ledger.treasury() {
            Some(treasury) => Outcome { ops, result: Ok(treasury) },
            None => Outcome { ops, result: Err(EscrowError::TreasuryNotSet) },
        }
    }

    /// Returns the auto-release delay that new escrows get, in seconds.
    pub fn get_auto_release_delay(env: &Env) -> (out: Outcome<u64>)
        ensures
            out.result == Ok::<u64, EscrowError>(env@.ledger.auto_release_delay()),
            out.ops@ == seq![HostOp::keep_alive(DataKey::AutoReleaseDelay)],
    {
        let mut ops: Vec<HostOp> = Vec::new();
        ops.push(HostOp::extend_ttl(DataKey::AutoReleaseDelay));
        Outcome { ops, result: Ok(env.ledger.auto_release_delay()) }
    }

    /// Returns whether escrows may hold the token.
    pub fn is_token_approved(env: &Env, token_address: Address) -> (approved: bool)
        ensures
            approved == env@.ledger.token_approved(token_address),
    {
        Self::_is_token_approved(env, token_address)
    }

    /// Returns the escrows of `mentor`, in the order in which they were created.
    pub fn get_escrows_by_mentor(env: &Env, mentor: Address) -> (escrows: Vec<Escrow>)
        ensures
            escrows@ == env@.ledger.escrows_of(mentor, env@.ledger.escrow_count() as nat),
    {
        let count: u64 = env.ledger.escrow_count();
        let mut escrows: Vec<Escrow> = Vec::new();
        let mut id: u64 = 0;
        while id < count
            invariant
                id <= count,
                escrows@ == env@.ledger.escrows_of(mentor, id as nat),
            decreases count - id,
        {
            id = id + 1;
            if let Some(escrow) = env.ledger.escrow(id) {
                if escrow.mentor == mentor {
                    escrows.push(escrow);
                }
            }
        }
        escrows
    }

    /// Submits a review of a released escrow. Called by the learner. The reason
    /// is kept; a later review takes its place.
    pub fn submit_review(env: &Env, caller: Address, escrow_id: u64, reason: Symbol) -> (out:
        Outcome<()>)
        ensures
            out.result == env@.submit_review_result(caller, escrow_id),
            out.ops@ == env@.submit_review_ops(caller, escrow_id, reason),
    {
        let mut ops: Vec<HostOp> = Vec::new();
        ops.push(HostOp::extend_ttl(DataKey::Escrow(escrow_id)));
        match env.ledger.escrow(escrow_id) {
            None => Outcome { ops, result: Err(EscrowError::EscrowNotFound) },
            Some(escrow) => {
                ops.push(HostOp::RequireAuth(caller));
                if caller != escrow.learner {
                    return Outcome { ops, result: Err(EscrowError::ReviewerNotLearner) };
                }
                if escrow.status != EscrowStatus::Released {
                    return Outcome { ops, result: Err(EscrowError::EscrowNotReleased) };
                }
                ops.push(HostOp::Write(Entry::Review(escrow_id, reason)));
                ops.push(HostOp::extend_ttl(DataKey::Review(escrow_id)));
                ops.push(
                    HostOp::Publish(
                        Event::Reviewed { id: escrow_id, caller, reason, mentor: escrow.mentor },
                    ),
                );
                Outcome { ops, result: Ok(()) }
            },
        }
    }

    // Shared steps.

    /// Returns the escrow with `escrow_id`, provided that it is there and active.
    fn active_escrow(env: &Env, escrow_id: u64) -> (escrow: Result<Escrow, EscrowError>)
        ensures
            escrow == env@.active_escrow(escrow_id),
    {
        match env.ledger.escrow(escrow_id) {
            None => Err(EscrowError::EscrowNotFound),
            Some(escrow) => {
                if escrow.status != EscrowStatus::Active {
                    Err(EscrowError::EscrowNotActive)
                } else {
                    Ok(escrow)
                }
            },
        }
    }

    /// Asks for the word of `caller`, who has to be the learner or the admin.
    fn require_releaser(
        env: &Env,
        ops: &mut Vec<HostOp>,
        caller: Address,
        escrow: &Escrow,
    ) -> (result: Result<(), EscrowError>)
        ensures
            result == env@.releaser_result(caller, *escrow),
            final(ops)@ == old(ops)@ + env@.releaser_ops(caller),
    {
        match env.ledger.admin() {
            None => Err(EscrowError::AdminNotFound),
            Some(admin) => {
                ops.push(HostOp::extend_ttl(DataKey::Admin));
                ops.push(HostOp::RequireAuth(caller));
                if caller != escrow.learner && caller != admin {
                    Err(EscrowError::CallerNotAuthorized)
                } else {
                    Ok(())
                }
            },
        }
    }

    /// Pays `amount` out of `escrow`: the fee to the treasury and the rest to the
    /// mentor. Returns the escrow after that, what the mentor got, and the fee.
    fn pay_out(env: &Env, ops: &mut Vec<HostOp>, escrow: &Escrow, amount: i128) -> (paid: Result<
        (Escrow, i128, i128),
        EscrowError,
    >)
        requires
            crate::fees::fits(escrow.amount - amount),
        ensures
            final(ops)@ == old(ops)@ + env@.payout_ops(*escrow, amount),
            match paid {
                Ok((record, net_amount, platform_fee)) => {
                    &&& env@.payout_result(*escrow, amount) is Ok
                    &&& record == escrow.after_payout(amount as int, env@.ledger.fee_bps() as int)
                    &&& net_amount == env@.net_of(amount)
                    &&& platform_fee == env@.fee_on(amount)
                },
                Err(error) => env@.payout_result(*escrow, amount) == Err::<(), EscrowError>(error),
            },
    {
        let fee_bps: u32 = env.ledger.fee_bps();
        ops.push(HostOp::extend_ttl(DataKey::FeeBps));
        match split_fee(amount, fee_bps) {
            Err(error) => Err(error),
            Ok((platform_fee, net_amount)) => match env.ledger.treasury() {
                None => Err(EscrowError::TreasuryNotFound),
                Some(treasury) => {
                    ops.push(HostOp::extend_ttl(DataKey::Treasury));
                    if platform_fee > 0 {
                        ops.push(
                            HostOp::Transfer {
                                token: escrow.token_address,
                                from: env.contract,
                                to: treasury,
                                amount: platform_fee,
                            },
                        );
                    }
                    ops.push(
                        HostOp::Transfer {
                            token: escrow.token_address,
                            from: env.contract,
                            to: escrow.mentor,
                            amount: net_amount,
                        },
                    );
                    let remaining: i128 = escrow.amount - amount;
                    match escrow.platform_fee.checked_add(platform_fee) {
                        None => Err(EscrowError::Overflow),
                        Some(total_fee) => match escrow.net_amount.checked_add(net_amount) {
                            None => Err(EscrowError::Overflow),
                            Some(total_net) => {
                                let record = Escrow {
                                    amount: remaining,
                                    platform_fee: total_fee,
                                    net_amount: total_net,
                                    status: if remaining == 0 {
                                        EscrowStatus::Released
                                    } else {
                                        escrow.status
                                    },
                                    ..*escrow
                                };
                                Ok((record, net_amount, platform_fee))
                            },
                        },
                    }
                },
            },
        }
    }

    /// The release that `release_funds`, `admin_release` and `try_auto_release`
    /// share: pays out all that `escrow` holds and keeps it as released.
    fn _do_release(env: &Env, ops: &mut Vec<HostOp>, escrow_id: u64, escrow: Escrow) -> (result:
        Result<(), EscrowError>)
        ensures
            result == env@.payout_result(escrow, escrow.amount),
            final(ops)@ == old(ops)@ + env@.release_ops(escrow_id, escrow),
    {
        let release_amount: i128 = escrow.amount;
        match Self::pay_out(env, ops, &escrow, release_amount) {
            Err(error) => Err(error),
            Ok((released, net_amount, platform_fee)) => {
                ops.push(HostOp::Write(Entry::Escrow(escrow_id, released)));
                ops.push(
                    HostOp::Publish(
                        Event::Released {
                            id: released.id,
                            mentor: released.mentor,
                            amount: release_amount,
                            net_amount,
                            platform_fee,
                            token_address: released.token_address,
                        },
                    ),
                );
                Ok(())
            },
        }
    }

    fn _set_token_approved(ops: &mut Vec<HostOp>, token_address: Address, approved: bool)
        ensures
            final(ops)@ == old(ops)@ + crate::model::set_approval_ops(token_address, approved),
    {
        ops.push(HostOp::Write(Entry::ApprovedToken(token_address, approved)));
        ops.push(HostOp::extend_ttl(DataKey::ApprovedToken(token_address)));
    }

    fn _is_token_approved(env: &Env, token_address: Address) -> (approved: bool)
        ensures
            approved == env@.ledger.token_approved(token_address),
    {
        match env.ledger.get(DataKey::ApprovedToken(token_address)) {
            Some(Entry::ApprovedToken(_, approved)) => approved,
            _ => false,
        }
    }
}

} // verus!
