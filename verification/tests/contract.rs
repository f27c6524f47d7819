use escrow::{
    Address, Bytes32, DataKey, Entry, Env, Escrow, EscrowContract, EscrowError, EscrowStatus,
    Event, HostOp, Ledger, Outcome, Symbol, TokenBalance,
};

fn account(n: u128) -> Address {
    Address::Account(Bytes32 { high: 0, low: n })
}

fn contract_address() -> Address {
    Address::Contract(Bytes32 { high: 7, low: 7 })
}

fn symbol(text: &str) -> Symbol {
    let mut bytes = [0u8; 32];
    bytes[..text.len()].copy_from_slice(text.as_bytes());
    let mut high = [0u8; 16];
    let mut low = [0u8; 16];
    high.copy_from_slice(&bytes[..16]);
    low.copy_from_slice(&bytes[16..]);
    Symbol {
        bytes: Bytes32 { high: u128::from_be_bytes(high), low: u128::from_be_bytes(low) },
    }
}

fn admin() -> Address {
    account(1)
}

fn treasury() -> Address {
    account(2)
}

fn mentor() -> Address {
    account(3)
}

fn learner() -> Address {
    account(4)
}

fn token() -> Address {
    Address::Contract(Bytes32 { high: 0, low: 5 })
}

fn alive(key: DataKey) -> HostOp {
    HostOp::ExtendTtl { key, threshold: 500_000, extend_to: 1_000_000 }
}

fn pay(from: Address, to: Address, amount: i128) -> HostOp {
    HostOp::Transfer { token: token(), from, to, amount }
}

fn empty_env() -> Env {
    Env {
        ledger: Ledger::new(),
        contract: contract_address(),
        timestamp: 1_000,
        balances: vec![TokenBalance { token: token(), holder: learner(), amount: 10_000 }],
    }
}

/// Takes over what an accepted call asked for, and returns what it returned.
fn settle<T>(env: &mut Env, out: Outcome<T>) -> T {
    match out.result {
        Ok(value) => {
            env.ledger.commit(&out.ops);
            value
        }
        Err(error) => panic!("{}", error.message()),
    }
}

fn initialized(fee_bps: u32, delay: u64) -> Env {
    let mut env = empty_env();
    let out =
        EscrowContract::initialize(&env, admin(), treasury(), fee_bps, &vec![token()], delay);
    settle(&mut env, out);
    env
}

fn create(env: &mut Env, amount: i128, session: &str) -> u64 {
    let out = EscrowContract::create_escrow(
        env,
        mentor(),
        learner(),
        amount,
        symbol(session),
        token(),
        5_000,
    );
    settle(env, out)
}

/// A contract with a fee of 5% and one escrow that holds 1 000.
fn with_escrow() -> Env {
    let mut env = initialized(500, 0);
    assert_eq!(create(&mut env, 1_000, "S1"), 1);
    env
}

fn stored(env: &Env, id: u64) -> Escrow {
    EscrowContract::get_escrow(env, id).result.unwrap()
}

fn transfers(ops: &Vec<HostOp>) -> Vec<HostOp> {
    let mut found = Vec::new();
    for op in ops.iter() {
        if matches!(op, HostOp::Transfer { .. }) {
            found.push(*op);
        }
    }
    found
}

// Initialization and administration.

#[test]
fn initialize_writes_the_settings_in_order() {
    let env = empty_env();
    let other = account(50);
    let out = EscrowContract::initialize(
        &env,
        admin(),
        treasury(),
        250,
        &vec![token(), other],
        3_600,
    );
    assert_eq!(out.result, Ok(()));
    assert_eq!(
        out.ops,
        vec![
            HostOp::Write(Entry::Admin(admin())),
            alive(DataKey::Admin),
            HostOp::Write(Entry::Treasury(treasury())),
            alive(DataKey::Treasury),
            HostOp::Write(Entry::FeeBps(250)),
            alive(DataKey::FeeBps),
            HostOp::Write(Entry::EscrowCount(0)),
            alive(DataKey::EscrowCount),
            HostOp::Write(Entry::AutoReleaseDelay(3_600)),
            alive(DataKey::AutoReleaseDelay),
            HostOp::Write(Entry::ApprovedToken(token(), true)),
            alive(DataKey::ApprovedToken(token())),
            HostOp::Write(Entry::ApprovedToken(other, true)),
            alive(DataKey::ApprovedToken(other)),
        ]
    );
}

#[test]
fn settings_are_read_back() {
    let env = initialized(250, 3_600);
    assert_eq!(env.ledger.admin(), Some(admin()));
    let fee = EscrowContract::get_fee_bps(&env);
    assert_eq!(fee.result, Ok(250));
    assert_eq!(fee.ops, vec![alive(DataKey::FeeBps)]);
    let chest = EscrowContract::get_treasury(&env);
    assert_eq!(chest.result, Ok(treasury()));
    assert_eq!(chest.ops, vec![alive(DataKey::Treasury)]);
    let delay = EscrowContract::get_auto_release_delay(&env);
    assert_eq!(delay.result, Ok(3_600));
    assert_eq!(delay.ops, vec![alive(DataKey::AutoReleaseDelay)]);
    let count = EscrowContract::get_escrow_count(&env);
    assert_eq!(count.result, Ok(0));
    assert_eq!(count.ops, vec![alive(DataKey::EscrowCount)]);
    assert!(EscrowContract::is_token_approved(&env, token()));
    assert!(!EscrowContract::is_token_approved(&env, account(50)));
}

#[test]
fn no_delay_stands_for_72_hours() {
    let env = initialized(250, 0);
    assert_eq!(EscrowContract::get_auto_release_delay(&env).result, Ok(259_200));
}

#[test]
fn second_initialization_is_rejected() {
    let env = initialized(250, 0);
    let out = EscrowContract::initialize(&env, mentor(), mentor(), 0, &vec![], 0);
    assert_eq!(out.result, Err(EscrowError::AlreadyInitialized));
    assert!(out.ops.is_empty());
}

#[test]
fn fee_is_capped() {
    let env = empty_env();
    let too_high =
        EscrowContract::initialize(&env, admin(), treasury(), 1_001, &vec![], 0);
    assert_eq!(too_high.result, Err(EscrowError::FeeExceedsMaximum));
    let highest = EscrowContract::initialize(&env, admin(), treasury(), 1_000, &vec![], 0);
    assert_eq!(highest.result, Ok(()));

    let mut env = initialized(250, 0);
    let out = EscrowContract::update_fee(&env, 1_001);
    assert_eq!(out.result, Err(EscrowError::FeeExceedsMaximum));
    assert_eq!(out.ops, vec![alive(DataKey::Admin), HostOp::RequireAuth(admin())]);
    let out = EscrowContract::update_fee(&env, 1_000);
    assert_eq!(
        out.ops,
        vec![
            alive(DataKey::Admin),
            HostOp::RequireAuth(admin()),
            HostOp::Write(Entry::FeeBps(1_000)),
            alive(DataKey::FeeBps),
        ]
    );
    settle(&mut env, out);
    assert_eq!(EscrowContract::get_fee_bps(&env).result, Ok(1_000));
}

#[test]
fn admin_changes_treasury_and_tokens() {
    let mut env = initialized(250, 0);
    let out = EscrowContract::update_treasury(&env, account(60));
    assert_eq!(out.ops[1], HostOp::RequireAuth(admin()));
    settle(&mut env, out);
    assert_eq!(EscrowContract::get_treasury(&env).result, Ok(account(60)));

    let out = EscrowContract::set_approved_token(&env, token(), false);
    assert_eq!(
        out.ops,
        vec![
            alive(DataKey::Admin),
            HostOp::RequireAuth(admin()),
            HostOp::Write(Entry::ApprovedToken(token(), false)),
            alive(DataKey::ApprovedToken(token())),
        ]
    );
    settle(&mut env, out);
    assert!(!EscrowContract::is_token_approved(&env, token()));
    let out = EscrowContract::set_approved_token(&env, token(), true);
    settle(&mut env, out);
    assert!(EscrowContract::is_token_approved(&env, token()));
}

#[test]
fn nothing_works_before_initialization() {
    let env = empty_env();
    assert_eq!(EscrowContract::update_fee(&env, 1).result, Err(EscrowError::NotInitialized));
    assert_eq!(
        EscrowContract::update_treasury(&env, admin()).result,
        Err(EscrowError::NotInitialized)
    );
    assert_eq!(
        EscrowContract::set_approved_token(&env, token(), true).result,
        Err(EscrowError::NotInitialized)
    );
    assert_eq!(
        EscrowContract::resolve_dispute(&env, 1, 50).result,
        Err(EscrowError::NotInitialized)
    );
    assert_eq!(EscrowContract::refund(&env, 1).result, Err(EscrowError::AdminNotFound));
    assert_eq!(EscrowContract::get_treasury(&env).result, Err(EscrowError::TreasuryNotSet));
    assert_eq!(EscrowContract::get_fee_bps(&env).result, Ok(0));
    assert_eq!(EscrowContract::get_escrow_count(&env).result, Ok(0));
    assert_eq!(EscrowContract::get_auto_release_delay(&env).result, Ok(259_200));
}

// Creation.

#[test]
fn creation_takes_the_deposit() {
    let env = initialized(500, 100);
    let out = EscrowContract::create_escrow(
        &env,
        mentor(),
        learner(),
        1_000,
        symbol("S1"),
        token(),
        5_000,
    );
    let escrow = Escrow {
        id: 1,
        mentor: mentor(),
        learner: learner(),
        amount: 1_000,
        session_id: symbol("S1"),
        status: EscrowStatus::Active,
        created_at: 1_000,
        token_address: token(),
        platform_fee: 0,
        net_amount: 0,
        session_end_time: 5_000,
        auto_release_delay: 100,
        dispute_reason: symbol(""),
        resolved_at: 0,
    };
    assert_eq!(out.result, Ok(1));
    assert_eq!(
        out.ops,
        vec![
            HostOp::RequireAuth(learner()),
            alive(DataKey::AutoReleaseDelay),
            HostOp::Write(Entry::Session(symbol("S1"))),
            alive(DataKey::Session(symbol("S1"))),
            HostOp::Write(Entry::EscrowCount(1)),
            alive(DataKey::EscrowCount),
            pay(learner(), contract_address(), 1_000),
            HostOp::Write(Entry::Escrow(1, escrow)),
            alive(DataKey::Escrow(1)),
            HostOp::Publish(Event::Created {
                id: 1,
                mentor: mentor(),
                learner: learner(),
                amount: 1_000,
                session_id: symbol("S1"),
                token_address: token(),
                session_end_time: 5_000,
            }),
        ]
    );
}

#[test]
fn created_escrow_is_read_back() {
    let mut env = initialized(500, 0);
    assert_eq!(create(&mut env, 10, "S1"), 1);
    assert_eq!(create(&mut env, 20, "S2"), 2);
    let out = EscrowContract::get_escrow(&env, 2);
    assert_eq!(out.ops, vec![alive(DataKey::Escrow(2))]);
    let escrow = out.result.unwrap();
    assert_eq!(escrow.id, 2);
    assert_eq!(escrow.amount, 20);
    assert_eq!(escrow.auto_release_delay, 259_200);
    assert_eq!(EscrowContract::get_escrow_count(&env).result, Ok(2));
    assert_eq!(EscrowContract::get_escrow(&env, 3).result, Err(EscrowError::EscrowNotFound));
    assert_eq!(EscrowContract::get_escrow(&env, 0).result, Err(EscrowError::EscrowNotFound));
}

#[test]
fn creation_checks_its_arguments() {
    let env = initialized(500, 0);
    let with = |amount: i128, token_address: Address, payer: Address| {
        EscrowContract::create_escrow(
            &env,
            mentor(),
            payer,
            amount,
            symbol("S1"),
            token_address,
            5_000,
        )
    };
    let zero = with(0, token(), learner());
    assert_eq!(zero.result, Err(EscrowError::AmountNotPositive));
    assert!(zero.ops.is_empty());
    assert_eq!(with(-5, token(), learner()).result, Err(EscrowError::AmountNotPositive));
    let foreign = with(5, account(50), learner());
    assert_eq!(foreign.result, Err(EscrowError::TokenNotApproved));
    assert!(foreign.ops.is_empty());
    let unknown = with(5, token(), mentor());
    assert_eq!(unknown.result, Err(EscrowError::BalanceUnavailable));
    assert_eq!(unknown.ops, vec![HostOp::RequireAuth(mentor())]);
    let poor = with(10_001, token(), learner());
    assert_eq!(poor.result, Err(EscrowError::InsufficientBalance));
    assert_eq!(poor.ops, vec![HostOp::RequireAuth(learner())]);
    assert_eq!(with(10_000, token(), learner()).result, Ok(1));
}

#[test]
fn creation_resumes_once_the_balance_is_known() {
    let mut env = initialized(500, 0);
    let try_it = |env: &Env| {
        EscrowContract::create_escrow(
            env,
            mentor(),
            account(70),
            10,
            symbol("S1"),
            token(),
            5_000,
        )
    };
    let first = try_it(&env);
    assert_eq!(first.result, Err(EscrowError::BalanceUnavailable));
    env.balances.push(TokenBalance { token: token(), holder: account(70), amount: 10 });
    let second = try_it(&env);
    assert_eq!(second.result, Ok(1));
    assert_eq!(second.ops[..first.ops.len()], first.ops[..]);
}

#[test]
fn latest_balance_counts() {
    let mut env = initialized(500, 0);
    env.balances.push(TokenBalance { token: token(), holder: learner(), amount: 3 });
    assert_eq!(env.balance(token(), learner()), Some(3));
    assert_eq!(env.balance(token(), mentor()), None);
    let out = EscrowContract::create_escrow(
        &env,
        mentor(),
        learner(),
        4,
        symbol("S1"),
        token(),
        5_000,
    );
    assert_eq!(out.result, Err(EscrowError::InsufficientBalance));
}

#[test]
fn session_is_used_once() {
    let mut env = with_escrow();
    let again = |env: &Env| {
        EscrowContract::create_escrow(
            env,
            account(80),
            learner(),
            5,
            symbol("S1"),
            token(),
            9_000,
        )
    };
    let out = again(&env);
    assert_eq!(out.result, Err(EscrowError::SessionIdExists));
    assert_eq!(
        out.ops,
        vec![HostOp::RequireAuth(learner()), alive(DataKey::AutoReleaseDelay)]
    );
    // Nor after the escrow is closed.
    let refund = EscrowContract::refund(&env, 1);
    settle(&mut env, refund);
    assert_eq!(again(&env).result, Err(EscrowError::SessionIdExists));
}

#[test]
fn counter_does_not_wrap() {
    let mut env = initialized(500, 0);
    env.ledger.write(Entry::EscrowCount(u64::MAX));
    let out = EscrowContract::create_escrow(
        &env,
        mentor(),
        learner(),
        5,
        symbol("S1"),
        token(),
        5_000,
    );
    assert_eq!(out.result, Err(EscrowError::CounterOverflow));
    assert_eq!(
        out.ops,
        vec![
            HostOp::RequireAuth(learner()),
            alive(DataKey::AutoReleaseDelay),
            HostOp::Write(Entry::Session(symbol("S1"))),
            alive(DataKey::Session(symbol("S1"))),
        ]
    );
}

// Release.

#[test]
fn release_pays_fee_and_mentor() {
    let env = with_escrow();
    let out = EscrowContract::release_funds(&env, learner(), 1);
    let released = Escrow {
        amount: 0,
        status: EscrowStatus::Released,
        platform_fee: 50,
        net_amount: 950,
        ..stored(&env, 1)
    };
    assert_eq!(out.result, Ok(()));
    assert_eq!(
        out.ops,
        vec![
            alive(DataKey::Escrow(1)),
            alive(DataKey::Admin),
            HostOp::RequireAuth(learner()),
            alive(DataKey::FeeBps),
            alive(DataKey::Treasury),
            pay(contract_address(), treasury(), 50),
            pay(contract_address(), mentor(), 950),
            HostOp::Write(Entry::Escrow(1, released)),
            HostOp::Publish(Event::Released {
                id: 1,
                mentor: mentor(),
                amount: 1_000,
                net_amount: 950,
                platform_fee: 50,
                token_address: token(),
            }),
        ]
    );
}

#[test]
fn release_without_fee_pays_the_mentor_alone() {
    let mut env = initialized(0, 0);
    create(&mut env, 1_000, "S1");
    let out = EscrowContract::release_funds(&env, admin(), 1);
    assert_eq!(transfers(&out.ops), vec![pay(contract_address(), mentor(), 1_000)]);
    settle(&mut env, out);
    assert_eq!(stored(&env, 1).platform_fee, 0);
    assert_eq!(stored(&env, 1).net_amount, 1_000);
}

#[test]
fn fee_is_rounded_down() {
    let mut env = initialized(500, 0);
    create(&mut env, 39, "S1");
    let out = EscrowContract::release_funds(&env, learner(), 1);
    assert_eq!(
        transfers(&out.ops),
        vec![
            pay(contract_address(), treasury(), 1),
            pay(contract_address(), mentor(), 38),
        ]
    );
    create(&mut env, 19, "S2");
    let out = EscrowContract::release_funds(&env, learner(), 2);
    assert_eq!(transfers(&out.ops), vec![pay(contract_address(), mentor(), 19)]);
}

#[test]
fn release_is_for_learner_and_admin() {
    let env = with_escrow();
    for caller in [mentor(), treasury(), contract_address()] {
        let out = EscrowContract::release_funds(&env, caller, 1);
        assert_eq!(out.result, Err(EscrowError::CallerNotAuthorized));
        assert_eq!(
            out.ops,
            vec![
                alive(DataKey::Escrow(1)),
                alive(DataKey::Admin),
                HostOp::RequireAuth(caller),
            ]
        );
        let out = EscrowContract::release_partial(&env, caller, 1, 10);
        assert_eq!(out.result, Err(EscrowError::CallerNotAuthorized));
    }
    assert_eq!(EscrowContract::release_funds(&env, admin(), 1).result, Ok(()));
    assert_eq!(EscrowContract::release_partial(&env, admin(), 1, 10).result, Ok(()));
}

#[test]
fn release_needs_an_active_escrow() {
    let mut env = with_escrow();
    for id in [0, 2, u64::MAX] {
        let out = EscrowContract::release_funds(&env, learner(), id);
        assert_eq!(out.result, Err(EscrowError::EscrowNotFound));
        assert_eq!(out.ops, vec![alive(DataKey::Escrow(id))]);
        assert_eq!(
            EscrowContract::release_partial(&env, learner(), id, 1).result,
            Err(EscrowError::EscrowNotFound)
        );
        assert_eq!(
            EscrowContract::admin_release(&env, id).result,
            Err(EscrowError::EscrowNotFound)
        );
        assert_eq!(
            EscrowContract::try_auto_release(&env, id).result,
            Err(EscrowError::EscrowNotFound)
        );
    }
    let out = EscrowContract::release_funds(&env, learner(), 1);
    settle(&mut env, out);
    let out = EscrowContract::release_funds(&env, learner(), 1);
    assert_eq!(out.result, Err(EscrowError::EscrowNotActive));
    assert_eq!(out.ops, vec![alive(DataKey::Escrow(1))]);
    assert_eq!(
        EscrowContract::release_partial(&env, learner(), 1, 1).result,
        Err(EscrowError::EscrowNotActive)
    );
    assert_eq!(
        EscrowContract::admin_release(&env, 1).result,
        Err(EscrowError::EscrowNotActive)
    );
    assert_eq!(
        EscrowContract::try_auto_release(&env, 1).result,
        Err(EscrowError::EscrowNotActive)
    );
}

#[test]
fn release_needs_admin_and_treasury() {
    let full = with_escrow();
    let mut env = empty_env();
    env.ledger.write(Entry::Escrow(1, stored(&full, 1)));
    for out in [
        EscrowContract::release_funds(&env, learner(), 1),
        EscrowContract::release_partial(&env, learner(), 1, 10),
        EscrowContract::admin_release(&env, 1),
    ] {
        assert_eq!(out.result, Err(EscrowError::AdminNotFound));
        assert_eq!(out.ops, vec![alive(DataKey::Escrow(1))]);
    }
    env.ledger.write(Entry::Admin(admin()));
    let out = EscrowContract::release_funds(&env, learner(), 1);
    assert_eq!(out.result, Err(EscrowError::TreasuryNotFound));
    assert_eq!(out.ops.len(), 4);
    assert_eq!(out.ops[3], alive(DataKey::FeeBps));
    assert_eq!(
        EscrowContract::release_partial(&env, learner(), 1, 10).result,
        Err(EscrowError::TreasuryNotFound)
    );
}

#[test]
fn fee_that_cannot_be_computed_stops_the_release() {
    let mut env = initialized(500, 0);
    env.balances.push(TokenBalance { token: token(), holder: learner(), amount: i128::MAX });
    create(&mut env, i128::MAX, "S1");
    let out = EscrowContract::release_funds(&env, learner(), 1);
    assert_eq!(out.result, Err(EscrowError::Overflow));
    assert!(transfers(&out.ops).is_empty());
    // The deposit is not stuck.
    let out = EscrowContract::refund(&env, 1);
    assert_eq!(out.result, Ok(()));
    let out = EscrowContract::release_partial(&env, learner(), 1, i128::MAX / 500);
    assert_eq!(out.result, Ok(()));
}

#[test]
fn totals_that_do_not_fit_stop_the_release() {
    let mut env = with_escrow();
    let escrow = stored(&env, 1);
    env.ledger.write(Entry::Escrow(1, Escrow { platform_fee: i128::MAX, ..escrow }));
    let out = EscrowContract::release_funds(&env, learner(), 1);
    assert_eq!(out.result, Err(EscrowError::Overflow));
    assert_eq!(out.ops.len(), 7);
    env.ledger.write(Entry::Escrow(1, Escrow { net_amount: i128::MAX, ..escrow }));
    assert_eq!(
        EscrowContract::release_partial(&env, learner(), 1, 100).result,
        Err(EscrowError::Overflow)
    );
}

#[test]
fn partial_releases_add_up() {
    let mut env = with_escrow();
    let out = EscrowContract::release_partial(&env, learner(), 1, 399);
    let paid = Escrow {
        amount: 601,
        platform_fee: 19,
        net_amount: 380,
        ..stored(&env, 1)
    };
    assert_eq!(
        out.ops,
        vec![
            alive(DataKey::Escrow(1)),
            alive(DataKey::Admin),
            HostOp::RequireAuth(learner()),
            alive(DataKey::FeeBps),
            alive(DataKey::Treasury),
            pay(contract_address(), treasury(), 19),
            pay(contract_address(), mentor(), 380),
            HostOp::Write(Entry::Escrow(1, paid)),
            HostOp::Publish(Event::PartiallyReleased {
                id: 1,
                mentor: mentor(),
                amount: 399,
                net_amount: 380,
                platform_fee: 19,
                token_address: token(),
                remaining: 601,
            }),
        ]
    );
    settle(&mut env, out);
    assert_eq!(stored(&env, 1).status, EscrowStatus::Active);
    let out = EscrowContract::release_partial(&env, admin(), 1, 601);
    settle(&mut env, out);
    let escrow = stored(&env, 1);
    assert_eq!(escrow.status, EscrowStatus::Released);
    assert_eq!(escrow.amount, 0);
    // One unit less than the fee on 1 000 at once.
    assert_eq!(escrow.platform_fee, 49);
    assert_eq!(escrow.net_amount, 951);
}

#[test]
fn release_after_a_partial_release_pays_the_rest() {
    let mut env = with_escrow();
    let out = EscrowContract::release_partial(&env, learner(), 1, 400);
    settle(&mut env, out);
    let out = EscrowContract::release_funds(&env, learner(), 1);
    assert_eq!(
        transfers(&out.ops),
        vec![
            pay(contract_address(), treasury(), 30),
            pay(contract_address(), mentor(), 570),
        ]
    );
    settle(&mut env, out);
    let escrow = stored(&env, 1);
    assert_eq!((escrow.amount, escrow.platform_fee, escrow.net_amount), (0, 50, 950));
}

#[test]
fn partial_release_is_bounded() {
    let env = with_escrow();
    for amount in [0, -1, 1_001, i128::MIN, i128::MAX] {
        let out = EscrowContract::release_partial(&env, learner(), 1, amount);
        assert_eq!(out.result, Err(EscrowError::InvalidReleaseAmount));
        assert_eq!(out.ops, vec![alive(DataKey::Escrow(1))]);
    }
    assert_eq!(EscrowContract::release_partial(&env, learner(), 1, 1).result, Ok(()));
    assert_eq!(EscrowContract::release_partial(&env, learner(), 1, 1_000).result, Ok(()));
}

#[test]
fn admin_release_is_announced_first() {
    let env = with_escrow();
    let out = EscrowContract::admin_release(&env, 1);
    assert_eq!(out.result, Ok(()));
    assert_eq!(
        out.ops[..4],
        [
            alive(DataKey::Escrow(1)),
            alive(DataKey::Admin),
            HostOp::RequireAuth(admin()),
            HostOp::Publish(Event::AdminReleased { id: 1, timestamp: 1_000 }),
        ]
    );
    assert_eq!(
        transfers(&out.ops),
        vec![
            pay(contract_address(), treasury(), 50),
            pay(contract_address(), mentor(), 950),
        ]
    );
}

#[test]
fn auto_release_opens_on_time() {
    let mut env = with_escrow();
    env.timestamp = 5_000 + 259_200 - 1;
    let out = EscrowContract::try_auto_release(&env, 1);
    assert_eq!(out.result, Err(EscrowError::AutoReleaseTooEarly));
    assert_eq!(out.ops, vec![alive(DataKey::Escrow(1))]);
    env.timestamp = 5_000 + 259_200;
    let out = EscrowContract::try_auto_release(&env, 1);
    assert_eq!(out.result, Ok(()));
    assert_eq!(
        out.ops[..2],
        [
            alive(DataKey::Escrow(1)),
            HostOp::Publish(Event::AutoReleased { id: 1, timestamp: 264_200 }),
        ]
    );
    assert!(!out.ops.iter().any(|op| matches!(op, HostOp::RequireAuth(_))));
    settle(&mut env, out);
    assert_eq!(stored(&env, 1).status, EscrowStatus::Released);
}

#[test]
fn auto_release_time_does_not_wrap() {
    let mut env = with_escrow();
    let escrow = stored(&env, 1);
    env.ledger.write(Entry::Escrow(1, Escrow { session_end_time: u64::MAX, ..escrow }));
    env.timestamp = u64::MAX;
    assert_eq!(
        EscrowContract::try_auto_release(&env, 1).result,
        Err(EscrowError::TimestampOverflow)
    );
}

#[test]
fn releases_agree() {
    let mut env = with_escrow();
    env.timestamp = 300_000;
    let by_hand = {
        let mut after = with_escrow();
        let out = EscrowContract::release_funds(&env, learner(), 1);
        settle(&mut after, out);
        stored(&after, 1)
    };
    for out in [
        EscrowContract::admin_release(&env, 1),
        EscrowContract::try_auto_release(&env, 1),
        EscrowContract::release_partial(&env, learner(), 1, 1_000),
    ] {
        let mut after = with_escrow();
        settle(&mut after, out);
        assert_eq!(stored(&after, 1), by_hand);
    }
}

// Disputes and refunds.

#[test]
fn parties_can_dispute() {
    for caller in [mentor(), learner()] {
        let env = with_escrow();
        let out = EscrowContract::dispute(&env, caller, 1, symbol("NO_SHOW"));
        let disputed = Escrow {
            status: EscrowStatus::Disputed,
            dispute_reason: symbol("NO_SHOW"),
            ..stored(&env, 1)
        };
        assert_eq!(out.result, Ok(()));
        assert_eq!(
            out.ops,
            vec![
                alive(DataKey::Escrow(1)),
                HostOp::RequireAuth(caller),
                HostOp::Write(Entry::Escrow(1, disputed)),
                HostOp::Publish(Event::DisputeOpened {
                    id: 1,
                    caller,
                    reason: symbol("NO_SHOW"),
                    token_address: token(),
                }),
            ]
        );
    }
}

#[test]
fn others_cannot_dispute() {
    let env = with_escrow();
    let out = EscrowContract::dispute(&env, admin(), 1, symbol("NO_SHOW"));
    assert_eq!(out.result, Err(EscrowError::CallerNotParty));
    assert_eq!(out.ops, vec![alive(DataKey::Escrow(1)), HostOp::RequireAuth(admin())]);
    assert_eq!(
        EscrowContract::dispute(&env, learner(), 9, symbol("NO_SHOW")).result,
        Err(EscrowError::EscrowNotFound)
    );
}

fn disputed(amount: i128) -> Env {
    let mut env = initialized(500, 0);
    create(&mut env, amount, "S1");
    let out = EscrowContract::dispute(&env, mentor(), 1, symbol("LATE"));
    settle(&mut env, out);
    env.timestamp = 2_000;
    env
}

#[test]
fn disputed_escrow_cannot_be_released() {
    let mut env = disputed(1_000);
    env.timestamp = u64::MAX;
    assert_eq!(
        EscrowContract::release_funds(&env, learner(), 1).result,
        Err(EscrowError::EscrowNotActive)
    );
    assert_eq!(
        EscrowContract::try_auto_release(&env, 1).result,
        Err(EscrowError::EscrowNotActive)
    );
    assert_eq!(
        EscrowContract::dispute(&env, learner(), 1, symbol("LATE")).result,
        Err(EscrowError::EscrowNotActive)
    );
}

#[test]
fn dispute_is_split_without_a_fee() {
    let mut env = disputed(1_001);
    let out = EscrowContract::resolve_dispute(&env, 1, 50);
    let resolved = Escrow {
        status: EscrowStatus::Resolved,
        amount: 501,
        platform_fee: 501,
        net_amount: 500,
        resolved_at: 2_000,
        ..stored(&env, 1)
    };
    assert_eq!(
        out.ops,
        vec![
            alive(DataKey::Admin),
            HostOp::RequireAuth(admin()),
            alive(DataKey::Escrow(1)),
            pay(contract_address(), mentor(), 500),
            pay(contract_address(), learner(), 501),
            HostOp::Write(Entry::Escrow(1, resolved)),
            HostOp::Publish(Event::DisputeResolved {
                id: 1,
                mentor_pct: 50,
                mentor_amount: 500,
                learner_amount: 501,
                token_address: token(),
                timestamp: 2_000,
            }),
        ]
    );
    settle(&mut env, out);
    assert_eq!(stored(&env, 1), resolved);
}

#[test]
fn whole_dispute_to_the_mentor() {
    let mut env = disputed(1_000);
    let out = EscrowContract::resolve_dispute(&env, 1, 100);
    assert_eq!(transfers(&out.ops), vec![pay(contract_address(), mentor(), 1_000)]);
    settle(&mut env, out);
    let escrow = stored(&env, 1);
    assert_eq!((escrow.amount, escrow.net_amount, escrow.platform_fee), (0, 1_000, 0));
    assert_eq!(escrow.status, EscrowStatus::Resolved);
}

#[test]
fn whole_dispute_to_the_learner() {
    let mut env = disputed(1_000);
    let out = EscrowContract::resolve_dispute(&env, 1, 0);
    assert_eq!(transfers(&out.ops), vec![pay(contract_address(), learner(), 1_000)]);
    settle(&mut env, out);
    let escrow = stored(&env, 1);
    assert_eq!((escrow.amount, escrow.net_amount, escrow.platform_fee), (1_000, 0, 1_000));
    assert_eq!(escrow.resolved_at, 2_000);
}

#[test]
fn resolution_checks_its_arguments() {
    let env = disputed(1_000);
    let out = EscrowContract::resolve_dispute(&env, 1, 101);
    assert_eq!(out.result, Err(EscrowError::PercentageTooHigh));
    assert_eq!(
        out.ops,
        vec![alive(DataKey::Admin), HostOp::RequireAuth(admin()), alive(DataKey::Escrow(1))]
    );
    assert_eq!(
        EscrowContract::resolve_dispute(&env, 2, 50).result,
        Err(EscrowError::EscrowNotFound)
    );
    let active = with_escrow();
    assert_eq!(
        EscrowContract::resolve_dispute(&active, 1, 50).result,
        Err(EscrowError::EscrowNotDisputed)
    );
}

#[test]
fn refund_pays_the_learner_back() {
    let mut env = with_escrow();
    let out = EscrowContract::release_partial(&env, learner(), 1, 400);
    settle(&mut env, out);
    let out = EscrowContract::refund(&env, 1);
    let refunded = Escrow { status: EscrowStatus::Refunded, ..stored(&env, 1) };
    assert_eq!(
        out.ops,
        vec![
            alive(DataKey::Admin),
            HostOp::RequireAuth(admin()),
            alive(DataKey::Escrow(1)),
            pay(contract_address(), learner(), 600),
            HostOp::Write(Entry::Escrow(1, refunded)),
            HostOp::Publish(Event::Refunded {
                id: 1,
                learner: learner(),
                amount: 600,
                token_address: token(),
            }),
        ]
    );
    settle(&mut env, out);
    assert_eq!(stored(&env, 1), refunded);
    assert_eq!(EscrowContract::refund(&disputed(5), 1).result, Ok(()));
    assert_eq!(EscrowContract::refund(&env, 2).result, Err(EscrowError::EscrowNotFound));
}

#[test]
fn closed_escrow_is_final() {
    let mut released = with_escrow();
    let out = EscrowContract::release_funds(&released, learner(), 1);
    settle(&mut released, out);
    let mut refunded = with_escrow();
    let out = EscrowContract::refund(&refunded, 1);
    settle(&mut refunded, out);
    let mut resolved = disputed(1_000);
    let out = EscrowContract::resolve_dispute(&resolved, 1, 30);
    settle(&mut resolved, out);
    for env in [&released, &refunded, &resolved] {
        assert_eq!(EscrowContract::refund(env, 1).result, Err(EscrowError::CannotRefund));
        assert_eq!(
            EscrowContract::release_funds(env, learner(), 1).result,
            Err(EscrowError::EscrowNotActive)
        );
        assert_eq!(
            EscrowContract::dispute(env, learner(), 1, symbol("LATE")).result,
            Err(EscrowError::EscrowNotActive)
        );
        assert_eq!(
            EscrowContract::resolve_dispute(env, 1, 10).result,
            Err(EscrowError::EscrowNotDisputed)
        );
    }
}

// Queries and reviews.

#[test]
fn escrows_of_a_mentor_come_in_order() {
    let mut env = initialized(500, 0);
    create(&mut env, 10, "S1");
    let out = EscrowContract::create_escrow(
        &env,
        account(90),
        learner(),
        20,
        symbol("S2"),
        token(),
        5_000,
    );
    settle(&mut env, out);
    create(&mut env, 30, "S3");
    let found = EscrowContract::get_escrows_by_mentor(&env, mentor());
    assert_eq!(found, vec![stored(&env, 1), stored(&env, 3)]);
    let found = EscrowContract::get_escrows_by_mentor(&env, account(90));
    assert_eq!(found, vec![stored(&env, 2)]);
    assert!(EscrowContract::get_escrows_by_mentor(&env, learner()).is_empty());
    assert!(EscrowContract::get_escrows_by_mentor(&empty_env(), mentor()).is_empty());
}

#[test]
fn learner_reviews_a_released_escrow() {
    let mut env = with_escrow();
    let early = EscrowContract::submit_review(&env, learner(), 1, symbol("GREAT"));
    assert_eq!(early.result, Err(EscrowError::EscrowNotReleased));
    assert_eq!(early.ops, vec![alive(DataKey::Escrow(1)), HostOp::RequireAuth(learner())]);
    let out = EscrowContract::release_funds(&env, learner(), 1);
    settle(&mut env, out);
    let out = EscrowContract::submit_review(&env, learner(), 1, symbol("GREAT"));
    assert_eq!(
        out.ops,
        vec![
            alive(DataKey::Escrow(1)),
            HostOp::RequireAuth(learner()),
            HostOp::Write(Entry::Review(1, symbol("GREAT"))),
            alive(DataKey::Review(1)),
            HostOp::Publish(Event::Reviewed {
                id: 1,
                caller: learner(),
                reason: symbol("GREAT"),
                mentor: mentor(),
            }),
        ]
    );
    settle(&mut env, out);
    assert_eq!(env.ledger.review(1), Some(symbol("GREAT")));
    let out = EscrowContract::submit_review(&env, learner(), 1, symbol("FINE"));
    settle(&mut env, out);
    assert_eq!(env.ledger.review(1), Some(symbol("FINE")));
}

#[test]
fn others_cannot_review() {
    let mut env = with_escrow();
    let out = EscrowContract::release_funds(&env, learner(), 1);
    settle(&mut env, out);
    let out = EscrowContract::submit_review(&env, mentor(), 1, symbol("GREAT"));
    assert_eq!(out.result, Err(EscrowError::ReviewerNotLearner));
    assert_eq!(
        EscrowContract::submit_review(&env, learner(), 2, symbol("GREAT")).result,
        Err(EscrowError::EscrowNotFound)
    );
    assert_eq!(env.ledger.review(1), None);
}

// The contract as a whole.

/// What the contract has after the transfers in `ops`.
fn held(before: i128, ops: &Vec<HostOp>) -> i128 {
    let mut held = before;
    for op in ops.iter() {
        if let HostOp::Transfer { from, to, amount, .. } = op {
            if *to == contract_address() {
                held += amount;
            }
            if *from == contract_address() {
                held -= amount;
            }
        }
    }
    held
}

fn owed(env: &Env) -> i128 {
    let mut owed = 0;
    for id in 1..=env.ledger.escrow_count() {
        let escrow = stored(env, id);
        if matches!(escrow.status, EscrowStatus::Active | EscrowStatus::Disputed) {
            owed += escrow.amount;
        }
    }
    owed
}

#[test]
fn contract_has_what_it_owes() {
    let mut env = initialized(333, 0);
    let mut balance = 0;
    for (session, amount) in [("A", 1_000), ("B", 777), ("C", 1), ("D", 501)] {
        let out = EscrowContract::create_escrow(
            &env,
            mentor(),
            learner(),
            amount,
            symbol(session),
            token(),
            5_000,
        );
        balance = held(balance, &out.ops);
        settle(&mut env, out);
        assert_eq!(balance, owed(&env));
    }
    assert_eq!(balance, 2_279);
    for step in 0..6 {
        let out = match step {
            0 => EscrowContract::release_partial(&env, learner(), 1, 123),
            1 => EscrowContract::dispute(&env, mentor(), 1, symbol("LATE")),
            2 => EscrowContract::resolve_dispute(&env, 1, 33),
            3 => EscrowContract::release_funds(&env, learner(), 2),
            4 => EscrowContract::refund(&env, 3),
            _ => EscrowContract::admin_release(&env, 4),
        };
        balance = held(balance, &out.ops);
        settle(&mut env, out);
        assert_eq!(balance, owed(&env));
    }
    assert_eq!(balance, 0);
}

#[test]
fn deposit_is_accounted_for() {
    let mut env = initialized(999, 0);
    create(&mut env, 1_000, "S1");
    for amount in [1, 10, 333] {
        let out = EscrowContract::release_partial(&env, learner(), 1, amount);
        settle(&mut env, out);
        let escrow = stored(&env, 1);
        assert_eq!(escrow.amount + escrow.platform_fee + escrow.net_amount, 1_000);
    }
    let out = EscrowContract::dispute(&env, learner(), 1, symbol("LATE"));
    settle(&mut env, out);
    let left = stored(&env, 1).amount;
    assert_eq!(left, 656);
    let out = EscrowContract::resolve_dispute(&env, 1, 7);
    settle(&mut env, out);
    let escrow = stored(&env, 1);
    assert_eq!((escrow.net_amount, escrow.platform_fee), (45, 611));
    assert_eq!(escrow.net_amount + escrow.platform_fee, left);
}

#[test]
fn releases_pay_the_same() {
    let mut env = with_escrow();
    env.timestamp = 300_000;
    let by_hand = EscrowContract::release_funds(&env, learner(), 1).ops;
    let release = &by_hand[3..];
    for ops in [
        EscrowContract::release_funds(&env, admin(), 1).ops,
        EscrowContract::admin_release(&env, 1).ops,
        EscrowContract::try_auto_release(&env, 1).ops,
    ] {
        assert!(ops.ends_with(release));
    }
}

#[test]
fn dispute_can_be_settled_at_any_percentage() {
    let env = disputed(977);
    for mentor_pct in 0..=100 {
        let out = EscrowContract::resolve_dispute(&env, 1, mentor_pct);
        assert_eq!(out.result, Ok(()));
        assert_eq!(held(977, &out.ops), 0);
    }
}

/// One call of each kind that writes.
fn writing_calls() -> Vec<Vec<HostOp>> {
    let mut active = with_escrow();
    active.timestamp = 300_000;
    let mut released = with_escrow();
    let out = EscrowContract::release_funds(&released, learner(), 1);
    settle(&mut released, out);
    let tokens = vec![token(), account(50)];
    vec![
        EscrowContract::initialize(&empty_env(), admin(), treasury(), 1, &tokens, 0).ops,
        EscrowContract::update_fee(&active, 1).ops,
        EscrowContract::update_treasury(&active, account(60)).ops,
        EscrowContract::set_approved_token(&active, account(50), true).ops,
        EscrowContract::create_escrow(
            &active,
            mentor(),
            learner(),
            5,
            symbol("S2"),
            token(),
            9,
        )
        .ops,
        EscrowContract::release_funds(&active, learner(), 1).ops,
        EscrowContract::release_partial(&active, admin(), 1, 1).ops,
        EscrowContract::admin_release(&active, 1).ops,
        EscrowContract::try_auto_release(&active, 1).ops,
        EscrowContract::dispute(&active, mentor(), 1, symbol("LATE")).ops,
        EscrowContract::resolve_dispute(&disputed(7), 1, 50).ops,
        EscrowContract::refund(&active, 1).ops,
        EscrowContract::submit_review(&released, learner(), 1, symbol("GREAT")).ops,
    ]
}

#[test]
fn writes_are_kept_alive() {
    for ops in writing_calls() {
        let mut writes = 0;
        for op in ops.iter() {
            if let HostOp::Write(entry) = op {
                writes += 1;
                assert!(ops.contains(&alive(entry.key())));
            }
        }
        assert!(writes > 0);
    }
}

#[test]
fn tokens_move_only_after_someone_was_asked() {
    for (i, ops) in writing_calls().iter().enumerate() {
        let asked = ops.iter().position(|op| matches!(op, HostOp::RequireAuth(_)));
        let moved = ops.iter().position(|op| matches!(op, HostOp::Transfer { .. }));
        match (asked, moved) {
            (Some(asked), Some(moved)) => assert!(asked < moved),
            // The auto-release needs nobody's word.
            (None, Some(_)) => assert_eq!(i, 8),
            (_, None) => {}
        }
    }
}

#[test]
fn settings_outlast_the_calls_of_others() {
    let mut env = with_escrow();
    let out = EscrowContract::dispute(&env, mentor(), 1, symbol("LATE"));
    settle(&mut env, out);
    let out = EscrowContract::refund(&env, 1);
    settle(&mut env, out);
    assert_eq!(env.ledger.admin(), Some(admin()));
    assert_eq!(env.ledger.treasury(), Some(treasury()));
    assert_eq!(env.ledger.fee_bps(), 500);
    assert_eq!(env.ledger.auto_release_delay(), 259_200);
    assert!(env.ledger.has(DataKey::Session(symbol("S1"))));
}
