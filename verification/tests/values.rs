use escrow::fees::{split_dispute, split_fee, MAX_FEE_BPS};
use escrow::host::{ESCROW_TTL_BUMP, ESCROW_TTL_THRESHOLD};
use escrow::ledger::DEFAULT_AUTO_RELEASE_DELAY;
use escrow::{
    Address, Bytes32, Call, DataKey, Entry, Env, EscrowContract, EscrowError, Event, HostOp,
    Ledger, Symbol,
};

fn party(n: u128) -> Address {
    Address::Account(Bytes32 { high: 1, low: n })
}

#[test]
fn constants_have_their_values() {
    assert_eq!(MAX_FEE_BPS, 1_000);
    assert_eq!(DEFAULT_AUTO_RELEASE_DELAY, 259_200);
    assert_eq!(ESCROW_TTL_THRESHOLD, 500_000);
    assert_eq!(ESCROW_TTL_BUMP, 1_000_000);
}

#[test]
fn fee_is_split_off() {
    assert_eq!(split_fee(1_000, 500), Ok((50, 950)));
    assert_eq!(split_fee(0, 500), Ok((0, 0)));
    assert_eq!(split_fee(19, 500), Ok((0, 19)));
    assert_eq!(split_fee(20, 500), Ok((1, 19)));
    assert_eq!(split_fee(9_999, 1), Ok((0, 9_999)));
    assert_eq!(split_fee(10_000, 1), Ok((1, 9_999)));
    assert_eq!(split_fee(1_005, 1_000), Ok((100, 905)));
    assert_eq!(split_fee(i128::MAX, 0), Ok((0, i128::MAX)));
    assert_eq!(split_fee(i128::MAX, 1), Ok((i128::MAX / 10_000, i128::MAX - i128::MAX / 10_000)));
    assert_eq!(split_fee(i128::MAX, 2), Err(EscrowError::Overflow));
    assert_eq!(split_fee(-1_005, 1_000), Ok((-100, -905)));
    assert_eq!(split_fee(i128::MIN, 2), Err(EscrowError::Overflow));
}

#[test]
fn parts_cost_no_more_than_the_whole() {
    for (first, second) in [(399, 601), (1, 999), (500, 500)] {
        let (a, _) = split_fee(first, 500).unwrap();
        let (b, _) = split_fee(second, 500).unwrap();
        let (whole, _) = split_fee(first + second, 500).unwrap();
        assert!(a + b <= whole && whole <= a + b + 1);
    }
}

#[test]
fn higher_rate_costs_more() {
    let (low, _) = split_fee(12_345, 100).unwrap();
    let (high, _) = split_fee(12_345, 200).unwrap();
    assert_eq!((low, high), (123, 246));
}

#[test]
fn dispute_is_split_by_percentage() {
    assert_eq!(split_dispute(1_000, 100), (1_000, 0));
    assert_eq!(split_dispute(1_000, 50), (500, 500));
    assert_eq!(split_dispute(1_000, 0), (0, 1_000));
    assert_eq!(split_dispute(1_001, 50), (500, 501));
    assert_eq!(split_dispute(99, 1), (0, 99));
    assert_eq!(split_dispute(199, 33), (65, 134));
    assert_eq!(split_dispute(-199, 33), (-65, -134));
    assert_eq!(split_dispute(i128::MAX, 100), (i128::MAX, 0));
    assert_eq!(split_dispute(i128::MIN, 100), (i128::MIN, 0));
    let (mentor, learner) = split_dispute(i128::MAX, 99);
    assert_eq!(mentor + learner, i128::MAX);
    assert_eq!(learner, i128::MAX / 100 + 1);
}

#[test]
fn ledger_keeps_the_last_write() {
    let mut ledger = Ledger::new();
    assert_eq!(ledger.get(DataKey::FeeBps), None);
    assert!(!ledger.has(DataKey::FeeBps));
    ledger.write(Entry::FeeBps(1));
    ledger.write(Entry::Admin(party(1)));
    ledger.write(Entry::FeeBps(2));
    assert_eq!(ledger.get(DataKey::FeeBps), Some(Entry::FeeBps(2)));
    assert_eq!(ledger.fee_bps(), 2);
    assert_eq!(ledger.admin(), Some(party(1)));
    assert!(ledger.has(DataKey::FeeBps));
    assert_eq!(ledger.get(DataKey::ApprovedToken(party(1))), None);
}

#[test]
fn commit_does_the_writes_alone() {
    let mut ledger = Ledger::new();
    ledger.commit(&vec![
        HostOp::Write(Entry::EscrowCount(3)),
        HostOp::extend_ttl(DataKey::EscrowCount),
        HostOp::RequireAuth(party(1)),
        HostOp::Write(Entry::EscrowCount(4)),
        HostOp::Transfer { token: party(1), from: party(2), to: party(3), amount: 5 },
    ]);
    assert_eq!(ledger.escrow_count(), 4);
    assert_eq!(ledger.writes.len(), 2);
}

#[test]
fn keys_have_their_prefixes() {
    let name = Symbol::empty();
    let keys = vec![
        (Entry::Admin(party(1)), DataKey::Admin, "ADMIN"),
        (Entry::Treasury(party(1)), DataKey::Treasury, "TREASURY"),
        (Entry::FeeBps(1), DataKey::FeeBps, "FEE_BPS"),
        (Entry::EscrowCount(1), DataKey::EscrowCount, "ESC_CNT"),
        (Entry::AutoReleaseDelay(1), DataKey::AutoReleaseDelay, "AR_DELAY"),
        (Entry::ApprovedToken(party(1), true), DataKey::ApprovedToken(party(1)), "APRV_TOK"),
        (Entry::Session(name), DataKey::Session(name), "SESSION"),
        (Entry::Review(7, name), DataKey::Review(7), "REVIEW"),
    ];
    for (entry, key, prefix) in keys {
        assert_eq!(entry.key(), key);
        assert_eq!(key.prefix(), prefix);
    }
    assert_eq!(DataKey::Escrow(7).prefix(), "ESCROW");
}

#[test]
fn events_have_their_topics() {
    let name = Symbol::empty();
    let events = vec![
        (Event::AdminReleased { id: 1, timestamp: 2 }, "adm_rel"),
        (Event::AutoReleased { id: 1, timestamp: 2 }, "auto_rel"),
        (
            Event::DisputeOpened { id: 1, caller: party(1), reason: name, token_address: party(2) },
            "disp_opnd",
        ),
        (
            Event::DisputeResolved {
                id: 1,
                mentor_pct: 10,
                mentor_amount: 1,
                learner_amount: 9,
                token_address: party(2),
                timestamp: 3,
            },
            "disp_res",
        ),
        (
            Event::Refunded { id: 1, learner: party(1), amount: 5, token_address: party(2) },
            "refunded",
        ),
        (Event::Reviewed { id: 1, caller: party(1), reason: name, mentor: party(3) }, "review"),
        (
            Event::Released {
                id: 1,
                mentor: party(3),
                amount: 10,
                net_amount: 9,
                platform_fee: 1,
                token_address: party(2),
            },
            "released",
        ),
        (
            Event::PartiallyReleased {
                id: 1,
                mentor: party(3),
                amount: 10,
                net_amount: 9,
                platform_fee: 1,
                token_address: party(2),
                remaining: 5,
            },
            "rel_part",
        ),
        (
            Event::Created {
                id: 1,
                mentor: party(3),
                learner: party(1),
                amount: 10,
                session_id: name,
                token_address: party(2),
                session_end_time: 4,
            },
            "created",
        ),
    ];
    for (event, topic) in events {
        assert_eq!(event.topic(), topic);
    }
}

#[test]
fn errors_have_their_messages() {
    let messages = vec![
        (EscrowError::AlreadyInitialized, "Already initialized"),
        (EscrowError::FeeExceedsMaximum, "Fee exceeds maximum (1000 bps)"),
        (EscrowError::NotInitialized, "Not initialized"),
        (EscrowError::AmountNotPositive, "Amount must be greater than zero"),
        (EscrowError::TokenNotApproved, "Token not approved"),
        (EscrowError::BalanceUnavailable, "Token balance unavailable"),
        (EscrowError::InsufficientBalance, "Insufficient token balance"),
        (EscrowError::SessionIdExists, "Session ID already exists"),
        (EscrowError::CounterOverflow, "Counter overflow"),
        (EscrowError::EscrowNotFound, "Escrow not found"),
        (EscrowError::EscrowNotActive, "Escrow not active"),
        (EscrowError::AdminNotFound, "Admin not found"),
        (EscrowError::CallerNotAuthorized, "Caller not authorized"),
        (EscrowError::InvalidReleaseAmount, "Invalid release amount"),
        (EscrowError::Overflow, "Overflow"),
        (EscrowError::TreasuryNotFound, "Treasury not found"),
        (EscrowError::TimestampOverflow, "Timestamp overflow"),
        (EscrowError::AutoReleaseTooEarly, "Auto-release window has not elapsed"),
        (EscrowError::CallerNotParty, "Caller not authorized to dispute"),
        (EscrowError::EscrowNotDisputed, "Escrow is not in Disputed status"),
        (EscrowError::PercentageTooHigh, "Mentor percentage exceeds 100"),
        (EscrowError::CannotRefund, "Cannot refund"),
        (EscrowError::TreasuryNotSet, "Treasury not set"),
        (EscrowError::ReviewerNotLearner, "Only learner can submit review"),
        (EscrowError::EscrowNotReleased, "Can only review released escrows"),
    ];
    for (error, message) in messages {
        assert_eq!(error.message(), message);
    }
}

#[test]
fn footprint_lists_what_is_read() {
    let call = Call::CreateEscrow {
        mentor: party(1),
        learner: party(2),
        amount: 5,
        session_id: Symbol::empty(),
        token_address: party(3),
        session_end_time: 9,
    };
    assert_eq!(
        call.footprint(7),
        vec![
            DataKey::ApprovedToken(party(3)),
            DataKey::AutoReleaseDelay,
            DataKey::Session(Symbol::empty()),
            DataKey::EscrowCount,
        ]
    );
    let by_mentor = Call::GetEscrowsByMentor { mentor: party(1) };
    assert_eq!(
        by_mentor.footprint(3),
        vec![
            DataKey::EscrowCount,
            DataKey::Escrow(1),
            DataKey::Escrow(2),
            DataKey::Escrow(3),
        ]
    );
    assert_eq!(by_mentor.footprint(0), vec![DataKey::EscrowCount]);
    assert_eq!(
        Call::Refund { escrow_id: 4 }.footprint(0),
        vec![DataKey::Admin, DataKey::Escrow(4)]
    );
}

#[test]
fn footprint_suffices() {
    let mut full = Ledger::new();
    full.write(Entry::Admin(party(1)));
    full.write(Entry::Treasury(party(2)));
    full.write(Entry::FeeBps(100));
    full.write(Entry::ApprovedToken(party(3), true));
    full.write(Entry::Session(Symbol::empty()));
    let call = Call::UpdateFee { new_fee_bps: 7 };
    let mut part = Ledger::new();
    for key in call.footprint(0) {
        if let Some(entry) = full.get(key) {
            part.write(entry);
        }
    }
    assert_eq!(part.writes.len(), 1);
    let contract = Address::Contract(Bytes32 { high: 0, low: 0 });
    let seen = |ledger: Ledger| Env { ledger, contract, timestamp: 1, balances: vec![] };
    let of_full = EscrowContract::update_fee(&seen(full), 7);
    let of_part = EscrowContract::update_fee(&seen(part), 7);
    assert_eq!(of_full.result, of_part.result);
    assert_eq!(of_full.ops, of_part.ops);
}
