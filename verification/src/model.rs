//! What each call comes to, as a function of what it sees of the chain.
//!
//! Every call has a result, which says when it is rejected and why, and a list
//! of the requests that it makes of the chain. Of a call that is rejected, the
//! list holds the requests that came before the rejection.

use vstd::prelude::*;

use crate::error::EscrowError;
use crate::fees::MAX_FEE_BPS;
use crate::host::{EnvView, Event, HostOp};
use crate::ledger::{DataKey, Entry, DEFAULT_AUTO_RELEASE_DELAY};
use crate::types::{Address, Escrow, EscrowStatus, Symbol};

verus! {

impl Escrow {
    /// The escrow once `amount` of what it holds has gone out at `fee_bps`: what
    /// went to the treasury and to the mentor is added up, and an escrow that
    /// holds nothing any more is released.
    pub open spec fn after_payout(self, amount: int, fee_bps: int) -> Escrow {
        let remaining = self.amount - amount;
        Escrow {
            amount: remaining as i128,
            platform_fee: (self.platform_fee + crate::fees::platform_fee(amount, fee_bps)) as i128,
            net_amount: (self.net_amount + crate::fees::net_amount(amount, fee_bps)) as i128,
            status: if remaining == 0 {
                EscrowStatus::Released
            } else {
                self.status
            },
            ..self
        }
    }

    /// The escrow once its dispute is open.
    pub open spec fn disputed(self, reason: Symbol) -> Escrow {
        Escrow { status: EscrowStatus::Disputed, dispute_reason: reason, ..self }
    }

    /// The escrow once its dispute is settled: the mentor's share has left it,
    /// and both shares are on record.
    pub open spec fn resolved(self, mentor_pct: int, now: u64) -> Escrow {
        let learner_amount = crate::fees::learner_share(self.amount as int, mentor_pct) as i128;
        Escrow {
            status: EscrowStatus::Resolved,
            amount: learner_amount,
            net_amount: crate::fees::mentor_share(self.amount as int, mentor_pct) as i128,
            platform_fee: learner_amount,
            resolved_at: now,
            ..self
        }
    }

    /// The escrow once it was paid back to the learner.
    pub open spec fn refunded(self) -> Escrow {
        Escrow { status: EscrowStatus::Refunded, ..self }
    }
}

/// The requests that put `tokens` on the list of approved tokens.
pub open spec fn approval_ops(tokens: Seq<Address>) -> Seq<HostOp>
    decreases tokens.len(),
{
    if tokens.len() == 0 {
        Seq::empty()
    } else {
        approval_ops(tokens.drop_last()) + set_approval_ops(tokens.last(), true)
    }
}

/// The requests that put `token` on the list of approved tokens or take it off.
pub open spec fn set_approval_ops(token: Address, approved: bool) -> Seq<HostOp> {
    seq![
        HostOp::Write(Entry::ApprovedToken(token, approved)),
        HostOp::keep_alive(DataKey::ApprovedToken(token)),
    ]
}

/// The request that moves `amount`, unless there is nothing to move.
pub open spec fn transfer_if_positive(
    token: Address,
    from: Address,
    to: Address,
    amount: int,
) -> Seq<HostOp> {
    if amount > 0 {
        seq![HostOp::Transfer { token, from, to, amount: amount as i128 }]
    } else {
        Seq::empty()
    }
}

impl EnvView {
    // Initialization and administration.

    pub open spec fn initialize_result(self, fee_bps: u32) -> Result<(), EscrowError> {
        if self.ledger.has(DataKey::Admin) {
            Err(EscrowError::AlreadyInitialized)
        } else if fee_bps > MAX_FEE_BPS {
            Err(EscrowError::FeeExceedsMaximum)
        } else {
            Ok(())
        }
    }

    pub open spec fn initialize_ops(
        self,
        admin: Address,
        treasury: Address,
        fee_bps: u32,
        approved_tokens: Seq<Address>,
        auto_release_delay_secs: u64,
    ) -> Seq<HostOp> {
        if self.initialize_result(fee_bps) is Ok {
            let delay = if auto_release_delay_secs == 0 {
                DEFAULT_AUTO_RELEASE_DELAY
            } else {
                auto_release_delay_secs
            };
            seq![
                HostOp::Write(Entry::Admin(admin)),
                HostOp::keep_alive(DataKey::Admin),
                HostOp::Write(Entry::Treasury(treasury)),
                HostOp::keep_alive(DataKey::Treasury),
                HostOp::Write(Entry::FeeBps(fee_bps)),
                HostOp::keep_alive(DataKey::FeeBps),
                HostOp::Write(Entry::EscrowCount(0)),
                HostOp::keep_alive(DataKey::EscrowCount),
                HostOp::Write(Entry::AutoReleaseDelay(delay)),
                HostOp::keep_alive(DataKey::AutoReleaseDelay),
            ] + approval_ops(approved_tokens)
        } else {
            Seq::empty()
        }
    }

    /// The requests with which a call of the admin begins.
    pub open spec fn admin_gate_ops(self) -> Seq<HostOp> {
        match self.ledger.admin() {
            Some(admin) => seq![
                HostOp::keep_alive(DataKey::Admin),
                HostOp::RequireAuth(admin),
            ],
            None => Seq::empty(),
        }
    }

    pub open spec fn update_fee_result(self, new_fee_bps: u32) -> Result<(), EscrowError> {
        if self.ledger.admin() is None {
            Err(EscrowError::NotInitialized)
        } else if new_fee_bps > MAX_FEE_BPS {
            Err(EscrowError::FeeExceedsMaximum)
        } else {
            Ok(())
        }
    }

    pub open spec fn update_fee_ops(self, new_fee_bps: u32) -> Seq<HostOp> {
        if self.update_fee_result(new_fee_bps) is Ok {
            self.admin_gate_ops() + seq![
                HostOp::Write(Entry::FeeBps(new_fee_bps)),
                HostOp::keep_alive(DataKey::FeeBps),
            ]
        } else {
            self.admin_gate_ops()
        }
    }

    /// The result of a call that only asks for an admin.
    pub open spec fn admin_result(self) -> Result<(), EscrowError> {
        if self.ledger.admin() is None {
            Err(EscrowError::NotInitialized)
        } else {
            Ok(())
        }
    }

    pub open spec fn update_treasury_ops(self, new_treasury: Address) -> Seq<HostOp> {
        if self.admin_result() is Ok {
            self.admin_gate_ops() + seq![
                HostOp::Write(Entry::Treasury(new_treasury)),
                HostOp::keep_alive(DataKey::Treasury),
            ]
        } else {
            Seq::empty()
        }
    }

    pub open spec fn set_approved_token_ops(self, token: Address, approved: bool) -> Seq<HostOp> {
        if self.admin_result() is Ok {
            self.admin_gate_ops() + set_approval_ops(token, approved)
        } else {
            Seq::empty()
        }
    }

    // Creation.

    /// Whether `create_escrow` comes as far as to ask for the learner's word.
    pub open spec fn create_escrow_valid(self, amount: i128, token_address: Address) -> bool {
        amount > 0 && self.ledger.token_approved(token_address)
    }

    /// Whether the learner is known to have `amount`.
    pub open spec fn learner_can_pay(
        self,
        learner: Address,
        amount: i128,
        token_address: Address,
    ) -> bool {
        match self.balance(token_address, learner) {
            Some(balance) => balance >= amount,
            None => false,
        }
    }

    pub open spec fn create_escrow_result(
        self,
        learner: Address,
        amount: i128,
        session_id: Symbol,
        token_address: Address,
    ) -> Result<u64, EscrowError> {
        if amount <= 0 {
            Err(EscrowError::AmountNotPositive)
        } else if !self.ledger.token_approved(token_address) {
            Err(EscrowError::TokenNotApproved)
        } else if self.balance(token_address, learner) is None {
            Err(EscrowError::BalanceUnavailable)
        } else if !self.learner_can_pay(learner, amount, token_address) {
            Err(EscrowError::InsufficientBalance)
        } else if self.ledger.session_taken(session_id) {
            Err(EscrowError::SessionIdExists)
        } else if self.ledger.escrow_count() == u64::MAX {
            Err(EscrowError::CounterOverflow)
        } else {
            Ok((self.ledger.escrow_count() + 1) as u64)
        }
    }

    /// The escrow that `create_escrow` writes.
    pub open spec fn new_escrow(
        self,
        mentor: Address,
        learner: Address,
        amount: i128,
        session_id: Symbol,
        token_address: Address,
        session_end_time: u64,
    ) -> Escrow {
        Escrow {
            id: (self.ledger.escrow_count() + 1) as u64,
            mentor,
            learner,
            amount,
            session_id,
            status: EscrowStatus::Active,
            created_at: self.timestamp,
            token_address,
            platform_fee: 0,
            net_amount: 0,
            session_end_time,
            auto_release_delay: self.ledger.auto_release_delay(),
            dispute_reason: Symbol::spec_empty(),
            resolved_at: 0,
        }
    }

    pub open spec fn create_escrow_ops(
        self,
        mentor: Address,
        learner: Address,
        amount: i128,
        session_id: Symbol,
        token_address: Address,
        session_end_time: u64,
    ) -> Seq<HostOp> {
        let id = (self.ledger.escrow_count() + 1) as u64;
        let word = if self.create_escrow_valid(amount, token_address) {
            seq![HostOp::RequireAuth(learner)]
        } else {
            Seq::empty()
        };
        let delay = if self.create_escrow_valid(amount, token_address) && self.learner_can_pay(
            learner,
            amount,
            token_address,
        ) {
            seq![HostOp::keep_alive(DataKey::AutoReleaseDelay)]
        } else {
            Seq::empty()
        };
        let session = match self.create_escrow_result(learner, amount, session_id, token_address) {
            Err(error) if error != EscrowError::CounterOverflow => Seq::empty(),
            _ => seq![
                HostOp::Write(Entry::Session(session_id)),
                HostOp::keep_alive(DataKey::Session(session_id)),
            ],
        };
        let creation = if self.create_escrow_result(
            learner,
            amount,
            session_id,
            token_address,
        ) is Ok {
            seq![
                HostOp::Write(Entry::EscrowCount(id)),
                HostOp::keep_alive(DataKey::EscrowCount),
                HostOp::Transfer { token: token_address, from: learner, to: self.contract, amount },
                HostOp::Write(
                    Entry::Escrow(
                        id,
                        self.new_escrow(
                            mentor,
                            learner,
                            amount,
                            session_id,
                            token_address,
                            session_end_time,
                        ),
                    ),
                ),
                HostOp::keep_alive(DataKey::Escrow(id)),
                HostOp::Publish(
                    Event::Created {
                        id,
                        mentor,
                        learner,
                        amount,
                        session_id,
                        token_address,
                        session_end_time,
                    },
                ),
            ]
        } else {
            Seq::empty()
        };
        word + delay + session + creation
    }

    // Release.

    /// The escrow with `id`, provided that it is there and active.
    pub open spec fn active_escrow(self, id: u64) -> Result<Escrow, EscrowError> {
        match self.ledger.escrow(id) {
            None => Err(EscrowError::EscrowNotFound),
            Some(escrow) => if escrow.status == EscrowStatus::Active {
                Ok(escrow)
            } else {
                Err(EscrowError::EscrowNotActive)
            },
        }
    }

    /// The platform fee on `amount` at the rate in force.
    pub open spec fn fee_on(self, amount: i128) -> int {
        crate::fees::platform_fee(amount as int, self.ledger.fee_bps() as int)
    }

    /// What is left of `amount` after the platform fee at the rate in force.
    pub open spec fn net_of(self, amount: i128) -> int {
        crate::fees::net_amount(amount as int, self.ledger.fee_bps() as int)
    }

    /// Whether the fee on `amount` can be computed and there is a treasury that
    /// can take it.
    pub open spec fn payout_possible(self, amount: i128) -> bool {
        crate::fees::fits(amount * self.ledger.fee_bps()) && self.ledger.treasury() is Some
    }

    /// What comes of paying `amount` out of `escrow`.
    pub open spec fn payout_result(self, escrow: Escrow, amount: i128) -> Result<(), EscrowError> {
        if !crate::fees::fits(amount * self.ledger.fee_bps()) {
            Err(EscrowError::Overflow)
        } else if self.ledger.treasury() is None {
            Err(EscrowError::TreasuryNotFound)
        } else if !crate::fees::fits(escrow.platform_fee + self.fee_on(amount)) {
            Err(EscrowError::Overflow)
        } else if !crate::fees::fits(escrow.net_amount + self.net_of(amount)) {
            Err(EscrowError::Overflow)
        } else {
            Ok(())
        }
    }

    /// The requests that pay `amount` out of `escrow`: the fee to the treasury,
    /// where there is one, and the rest to the mentor.
    pub open spec fn payout_ops(self, escrow: Escrow, amount: i128) -> Seq<HostOp> {
        if self.payout_possible(amount) {
            seq![
                HostOp::keep_alive(DataKey::FeeBps),
                HostOp::keep_alive(DataKey::Treasury),
            ] + transfer_if_positive(
                escrow.token_address,
                self.contract,
                self.ledger.treasury()->0,
                self.fee_on(amount),
            ) + seq![
                HostOp::Transfer {
                    token: escrow.token_address,
                    from: self.contract,
                    to: escrow.mentor,
                    amount: self.net_of(amount) as i128,
                },
            ]
        } else {
            seq![HostOp::keep_alive(DataKey::FeeBps)]
        }
    }

    /// The requests that release all that `escrow`, kept under `id`, holds.
    pub open spec fn release_ops(self, id: u64, escrow: Escrow) -> Seq<HostOp> {
        let record = if self.payout_result(escrow, escrow.amount) is Ok {
            seq![
                HostOp::Write(
                    Entry::Escrow(
                        id,
                        escrow.after_payout(escrow.amount as int, self.ledger.fee_bps() as int),
                    ),
                ),
                HostOp::Publish(
                    Event::Released {
                        id: escrow.id,
                        mentor: escrow.mentor,
                        amount: escrow.amount,
                        net_amount: self.net_of(escrow.amount) as i128,
                        platform_fee: self.fee_on(escrow.amount) as i128,
                        token_address: escrow.token_address,
                    },
                ),
            ]
        } else {
            Seq::empty()
        };
        self.payout_ops(escrow, escrow.amount) + record
    }

    /// Whether `caller` may release `escrow`.
    pub open spec fn releaser_result(self, caller: Address, escrow: Escrow) -> Result<
        (),
        EscrowError,
    > {
        match self.ledger.admin() {
            None => Err(EscrowError::AdminNotFound),
            Some(admin) => if caller == escrow.learner || caller == admin {
                Ok(())
            } else {
                Err(EscrowError::CallerNotAuthorized)
            },
        }
    }

    /// The requests that ask for the word of the one who releases.
    pub open spec fn releaser_ops(self, caller: Address) -> Seq<HostOp> {
        if self.ledger.admin() is Some {
            seq![HostOp::keep_alive(DataKey::Admin), HostOp::RequireAuth(caller)]
        } else {
            Seq::empty()
        }
    }

    pub open spec fn release_funds_result(self, caller: Address, escrow_id: u64) -> Result<
        (),
        EscrowError,
    > {
        match self.active_escrow(escrow_id) {
            Err(error) => Err(error),
            Ok(escrow) => match self.releaser_result(caller, escrow) {
                Err(error) => Err(error),
                Ok(()) => self.payout_result(escrow, escrow.amount),
            },
        }
    }

    pub open spec fn release_funds_ops(self, caller: Address, escrow_id: u64) -> Seq<HostOp> {
        let load = seq![HostOp::keep_alive(DataKey::Escrow(escrow_id))];
        match self.active_escrow(escrow_id) {
            Err(_) => load,
            Ok(escrow) => if self.releaser_result(caller, escrow) is Ok {
                load + self.releaser_ops(caller) + self.release_ops(escrow_id, escrow)
            } else {
                load + self.releaser_ops(caller)
            },
        }
    }

    pub open spec fn release_partial_result(
        self,
        caller: Address,
        escrow_id: u64,
        amount_to_release: i128,
    ) -> Result<(), EscrowError> {
        match self.active_escrow(escrow_id) {
            Err(error) => Err(error),
            Ok(escrow) => if !(0 < amount_to_release <= escrow.amount) {
                Err(EscrowError::InvalidReleaseAmount)
            } else {
                match self.releaser_result(caller, escrow) {
                    Err(error) => Err(error),
                    Ok(()) => self.payout_result(escrow, amount_to_release),
                }
            },
        }
    }

    pub open spec fn release_partial_ops(
        self,
        caller: Address,
        escrow_id: u64,
        amount_to_release: i128,
    ) -> Seq<HostOp> {
        let load = seq![HostOp::keep_alive(DataKey::Escrow(escrow_id))];
        match self.active_escrow(escrow_id) {
            Err(_) => load,
            Ok(escrow) => if !(0 < amount_to_release <= escrow.amount) {
                load
            } else if self.releaser_result(caller, escrow) is Err {
                load + self.releaser_ops(caller)
            } else {
                let record = if self.payout_result(escrow, amount_to_release) is Ok {
                    seq![
                        HostOp::Write(
                            Entry::Escrow(
                                escrow_id,
                                escrow.after_payout(
                                    amount_to_release as int,
                                    self.ledger.fee_bps() as int,
                                ),
                            ),
                        ),
                        HostOp::Publish(
                            Event::PartiallyReleased {
                                id: escrow.id,
                                mentor: escrow.mentor,
                                amount: amount_to_release,
                                net_amount: self.net_of(amount_to_release) as i128,
                                platform_fee: self.fee_on(amount_to_release) as i128,
                                token_address: escrow.token_address,
                                remaining: (escrow.amount - amount_to_release) as i128,
                            },
                        ),
                    ]
                } else {
                    Seq::empty()
                };
                load + self.releaser_ops(caller) + self.payout_ops(escrow, amount_to_release)
                    + record
            },
        }
    }

    pub open spec fn admin_release_result(self, escrow_id: u64) -> Result<(), EscrowError> {
        match self.active_escrow(escrow_id) {
            Err(error) => Err(error),
            Ok(escrow) => if self.ledger.admin() is None {
                Err(EscrowError::AdminNotFound)
            } else {
                self.payout_result(escrow, escrow.amount)
            },
        }
    }

    pub open spec fn admin_release_ops(self, escrow_id: u64) -> Seq<HostOp> {
        let load = seq![HostOp::keep_alive(DataKey::Escrow(escrow_id))];
        match self.active_escrow(escrow_id) {
            Err(_) => load,
            Ok(escrow) => if self.ledger.admin() is None {
                load
            } else {
                load + self.admin_gate_ops() + seq![
                    HostOp::Publish(
                        Event::AdminReleased { id: escrow_id, timestamp: self.timestamp },
                    ),
                ] + self.release_ops(escrow_id, escrow)
            },
        }
    }

    pub open spec fn try_auto_release_result(self, escrow_id: u64) -> Result<(), EscrowError> {
        match self.active_escrow(escrow_id) {
            Err(error) => Err(error),
            Ok(escrow) => if escrow.session_end_time + escrow.auto_release_delay > u64::MAX {
                Err(EscrowError::TimestampOverflow)
            } else if self.timestamp < escrow.session_end_time + escrow.auto_release_delay {
                Err(EscrowError::AutoReleaseTooEarly)
            } else {
                self.payout_result(escrow, escrow.amount)
            },
        }
    }

    pub open spec fn try_auto_release_ops(self, escrow_id: u64) -> Seq<HostOp> {
        let load = seq![HostOp::keep_alive(DataKey::Escrow(escrow_id))];
        match self.active_escrow(escrow_id) {
            Err(_) => load,
            Ok(escrow) => if self.timestamp < escrow.session_end_time + escrow.auto_release_delay {
                load
            } else {
                load + seq![
                    HostOp::Publish(
                        Event::AutoReleased { id: escrow_id, timestamp: self.timestamp },
                    ),
                ] + self.release_ops(escrow_id, escrow)
            },
        }
    }

    // Disputes and refunds.

    pub open spec fn dispute_result(self, caller: Address, escrow_id: u64) -> Result<
        (),
        EscrowError,
    > {
        match self.active_escrow(escrow_id) {
            Err(error) => Err(error),
            Ok(escrow) => if caller == escrow.mentor || caller == escrow.learner {
                Ok(())
            } else {
                Err(EscrowError::CallerNotParty)
            },
        }
    }

    pub open spec fn dispute_ops(
        self,
        caller: Address,
        escrow_id: u64,
        reason: Symbol,
    ) -> Seq<HostOp> {
        let load = seq![HostOp::keep_alive(DataKey::Escrow(escrow_id))];
        match self.active_escrow(escrow_id) {
            Err(_) => load,
            Ok(escrow) => if self.dispute_result(caller, escrow_id) is Ok {
                load + seq![
                    HostOp::RequireAuth(caller),
                    HostOp::Write(Entry::Escrow(escrow_id, escrow.disputed(reason))),
                    HostOp::Publish(
                        Event::DisputeOpened {
                            id: escrow_id,
                            caller,
                            reason,
                            token_address: escrow.token_address,
                        },
                    ),
                ]
            } else {
                load + seq![HostOp::RequireAuth(caller)]
            },
        }
    }

    pub open spec fn resolve_dispute_result(self, escrow_id: u64, mentor_pct: u32) -> Result<
        (),
        EscrowError,
    > {
        if self.ledger.admin() is None {
            Err(EscrowError::NotInitialized)
        } else {
            match self.ledger.escrow(escrow_id) {
                None => Err(EscrowError::EscrowNotFound),
                Some(escrow) => if escrow.status != EscrowStatus::Disputed {
                    Err(EscrowError::EscrowNotDisputed)
                } else if mentor_pct > 100 {
                    Err(EscrowError::PercentageTooHigh)
                } else {
                    Ok(())
                },
            }
        }
    }

    pub open spec fn resolve_dispute_ops(self, escrow_id: u64, mentor_pct: u32) -> Seq<HostOp> {
        if self.ledger.admin() is None {
            Seq::empty()
        } else {
            let load = self.admin_gate_ops().push(HostOp::keep_alive(DataKey::Escrow(escrow_id)));
            if self.resolve_dispute_result(escrow_id, mentor_pct) is Ok {
                let escrow = self.ledger.escrow(escrow_id)->0;
                let mentor_amount = crate::fees::mentor_share(
                    escrow.amount as int,
                    mentor_pct as int,
                );
                let learner_amount = crate::fees::learner_share(
                    escrow.amount as int,
                    mentor_pct as int,
                );
                load + transfer_if_positive(
                    escrow.token_address,
                    self.contract,
                    escrow.mentor,
                    mentor_amount,
                ) + transfer_if_positive(
                    escrow.token_address,
                    self.contract,
                    escrow.learner,
                    learner_amount,
                ) + seq![
                    HostOp::Write(
                        Entry::Escrow(
                            escrow_id,
                            escrow.resolved(mentor_pct as int, self.timestamp),
                        ),
                    ),
                    HostOp::Publish(
                        Event::DisputeResolved {
                            id: escrow_id,
                            mentor_pct,
                            mentor_amount: mentor_amount as i128,
                            learner_amount: learner_amount as i128,
                            token_address: escrow.token_address,
                            timestamp: self.timestamp,
                        },
                    ),
                ]
            } else {
                load
            }
        }
    }

    pub open spec fn refund_result(self, escrow_id: u64) -> Result<(), EscrowError> {
        if self.ledger.admin() is None {
            Err(EscrowError::AdminNotFound)
        } else {
            match self.ledger.escrow(escrow_id) {
                None => Err(EscrowError::EscrowNotFound),
                Some(escrow) => if escrow.status.is_open() {
                    Ok(())
                } else {
                    Err(EscrowError::CannotRefund)
                },
            }
        }
    }

    pub open spec fn refund_ops(self, escrow_id: u64) -> Seq<HostOp> {
        if self.ledger.admin() is None {
            Seq::empty()
        } else {
            let load = self.admin_gate_ops().push(HostOp::keep_alive(DataKey::Escrow(escrow_id)));
            if self.refund_result(escrow_id) is Ok {
                let escrow = self.ledger.escrow(escrow_id)->0;
                load + seq![
                    HostOp::Transfer {
                        token: escrow.token_address,
                        from: self.contract,
                        to: escrow.learner,
                        amount: escrow.amount,
                    },
                    HostOp::Write(Entry::Escrow(escrow_id, escrow.refunded())),
                    HostOp::Publish(
                        Event::Refunded {
                            id: escrow_id,
                            learner: escrow.learner,
                            amount: escrow.amount,
                            token_address: escrow.token_address,
                        },
                    ),
                ]
            } else {
                load
            }
        }
    }

    // Reviews.

    pub open spec fn submit_review_result(self, caller: Address, escrow_id: u64) -> Result<
        (),
        EscrowError,
    > {
        match self.ledger.escrow(escrow_id) {
            None => Err(EscrowError::EscrowNotFound),
            Some(escrow) => if caller != escrow.learner {
                Err(EscrowError::ReviewerNotLearner)
            } else if escrow.status != EscrowStatus::Released {
                Err(EscrowError::EscrowNotReleased)
            } else {
                Ok(())
            },
        }
    }

    pub open spec fn submit_review_ops(
        self,
        caller: Address,
        escrow_id: u64,
        reason: Symbol,
    ) -> Seq<HostOp> {
        let load = seq![HostOp::keep_alive(DataKey::Escrow(escrow_id))];
        match self.ledger.escrow(escrow_id) {
            None => load,
            Some(escrow) => if self.submit_review_result(caller, escrow_id) is Ok {
                load + seq![
                    HostOp::RequireAuth(caller),
                    HostOp::Write(Entry::Review(escrow_id, reason)),
                    HostOp::keep_alive(DataKey::Review(escrow_id)),
                    HostOp::Publish(
                        Event::Reviewed { id: escrow_id, caller, reason, mentor: escrow.mentor },
                    ),
                ]
            } else {
                load + seq![HostOp::RequireAuth(caller)]
            },
        }
    }

    // Queries.

    pub open spec fn get_escrow_result(self, escrow_id: u64) -> Result<Escrow, EscrowError> {
        match self.ledger.escrow(escrow_id) {
            Some(escrow) => Ok(escrow),
            None => Err(EscrowError::EscrowNotFound),
        }
    }

    pub open spec fn get_treasury_result(self) -> Result<Address, EscrowError> {
        match self.ledger.treasury() {
            Some(treasury) => Ok(treasury),
            None => Err(EscrowError::TreasuryNotSet),
        }
    }
}

} // verus!
