use vayoo_contracts::custody::{rise, Movements, SwapObservation};
use vayoo_contracts::errors::ErrorCode;
use vayoo_contracts::guard::{check_platform, check_position, check_solvency};
use vayoo_contracts::instructions::admin::initialize_contract::ContractAccounts;
use vayoo_contracts::instructions::close_long_user::check_within_position;
use vayoo_contracts::instructions::long_user::check_short_side_closed;
use vayoo_contracts::instructions::short_user::check_long_side_closed;
use vayoo_contracts::instructions::trigger_settle_mode::check_due;
use vayoo_contracts::oracle::OracleReading;
use vayoo_contracts::states::contract_state::{ContractState, Phase};
use vayoo_contracts::states::global_state::GlobalState;
use vayoo_contracts::states::user_state::{net_shift, UserState};
use vayoo_contracts::types::{Address, FeedType};
use vayoo_contracts::utils::{settling_mode, unrestricted_deposit_phase, unrestricted_trading_phase};

fn open_until(ending_time: u64) -> ContractState {
    ContractState {
        ending_time,
        limiting_amplitude: 10,
        starting_price: 100_000_000,
        oracle_price_multiplier: 1_000_000,
        ..ContractState::default()
    }
}

#[test]
fn feed_kinds_and_their_tags() {
    assert_eq!(FeedType::Pyth.as_u8(), 0);
    assert_eq!(FeedType::Switchboard.as_u8(), 1);
    assert_eq!(FeedType::Unknown.as_u8(), 2);
    assert_eq!(FeedType::from_u8(0), FeedType::Pyth);
    assert_eq!(FeedType::from_u8(1), FeedType::Switchboard);
    assert_eq!(FeedType::from_u8(2), FeedType::Unknown);
    assert_eq!(FeedType::from_u8(200), FeedType::Unknown);
    assert_eq!(FeedType::default(), FeedType::Pyth);
}

#[test]
fn addresses_compare_byte_for_byte() {
    let a = Address { bytes: [9u8; 32] };
    let mut b = a;
    assert!(a.same_as(&b));
    b.bytes[31] = 8;
    assert!(!a.same_as(&b));
    b.bytes[31] = 9;
    b.bytes[0] = 0;
    assert!(!a.same_as(&b));
}

#[test]
fn deposit_phase() {
    let contract = open_until(1_000);
    assert_eq!(unrestricted_deposit_phase(&contract, 999), Ok(()));
    assert_eq!(unrestricted_deposit_phase(&contract, -5), Ok(()));
    assert_eq!(unrestricted_deposit_phase(&contract, 1_000), Err(ErrorCode::ContractEnded));
    assert_eq!(unrestricted_deposit_phase(&contract, i64::MAX), Err(ErrorCode::ContractEnded));
    let halted = ContractState { is_halted: true, is_halted_deposit: true, ..open_until(1_000) };
    assert_eq!(unrestricted_deposit_phase(&halted, 999), Err(ErrorCode::ContractHalted));
    let no_deposits = ContractState { is_halted_deposit: true, ..open_until(1_000) };
    assert_eq!(unrestricted_deposit_phase(&no_deposits, 999), Err(ErrorCode::ContractDepositHalted));
    let no_trades = ContractState { is_halted_trading: true, ..open_until(1_000) };
    assert_eq!(unrestricted_deposit_phase(&no_trades, 999), Ok(()));
    let settling = ContractState { is_settling: true, ..open_until(1_000) };
    assert_eq!(unrestricted_deposit_phase(&settling, 999), Err(ErrorCode::IsSettling));
    assert_eq!(unrestricted_deposit_phase(&settling, 1_000), Err(ErrorCode::ContractEnded));
    assert_eq!(unrestricted_deposit_phase(&settling, 1_001), Err(ErrorCode::ContractEnded));
}

#[test]
fn trading_phase() {
    let contract = open_until(1_000);
    assert_eq!(unrestricted_trading_phase(&contract, 999), Ok(()));
    assert_eq!(unrestricted_trading_phase(&contract, 1_000), Err(ErrorCode::ContractEnded));
    let halted = ContractState { is_halted: true, is_halted_trading: true, ..open_until(1_000) };
    assert_eq!(unrestricted_trading_phase(&halted, 999), Err(ErrorCode::ContractHalted));
    let no_deposits = ContractState { is_halted_deposit: true, ..open_until(1_000) };
    assert_eq!(unrestricted_trading_phase(&no_deposits, 999), Ok(()));
    assert_eq!(unrestricted_trading_phase(&no_deposits, 1_000), Err(ErrorCode::ContractEnded));
    let neither =
        ContractState { is_halted_deposit: true, is_halted_trading: true, ..open_until(1_000) };
    assert_eq!(unrestricted_trading_phase(&neither, 999), Err(ErrorCode::ContractTradingHalted));
    let no_trades = ContractState { is_halted_trading: true, ..open_until(1_000) };
    assert_eq!(unrestricted_trading_phase(&no_trades, 999), Err(ErrorCode::ContractTradingHalted));
    let settling = ContractState { is_settling: true, ..open_until(1_000) };
    assert_eq!(unrestricted_trading_phase(&settling, 999), Err(ErrorCode::IsSettling));
    assert_eq!(unrestricted_trading_phase(&settling, 1_000), Err(ErrorCode::ContractEnded));
    assert_eq!(unrestricted_trading_phase(&settling, 1_001), Err(ErrorCode::ContractEnded));
}

#[test]
fn settling_phase() {
    assert_eq!(settling_mode(&open_until(1_000)), Err(ErrorCode::MaturityNotReached));
    let settling = ContractState { is_settling: true, ..open_until(1_000) };
    assert_eq!(settling_mode(&settling), Ok(()));
}

#[test]
fn phases() {
    let mut contract = open_until(1_000);
    contract.global_current_issued_lcontract = 3;
    assert_eq!(contract.phase(), Phase::Trading);
    contract.is_settling = true;
    assert_eq!(contract.phase(), Phase::Settling);
    contract.global_current_issued_lcontract = 0;
    assert_eq!(contract.phase(), Phase::Closed);
}

#[test]
fn operations_are_refused_once_trading_has_ended() {
    let mut contract = open_until(1_000);
    let mut user = UserState { usdc_deposited: 1_000, ..UserState::default() };
    let (c0, u0) = (contract.clone(), user);
    let swap = SwapObservation::default();
    let now = 1_000;
    let ended = Err(ErrorCode::ContractEnded);
    assert_eq!(vayoo_contracts::deposit_collateral(&mut contract, &mut user, now, 1), ended);
    assert_eq!(vayoo_contracts::mint_l_contract_mm(&mut contract, &mut user, now, 1), ended);
    assert_eq!(vayoo_contracts::burn_l_contract_mm(&mut contract, &mut user, now, 1), ended);
    assert_eq!(vayoo_contracts::short_user(&mut contract, &mut user, now, 1, swap), ended);
    assert_eq!(vayoo_contracts::close_short_user(&mut contract, &mut user, now, swap), ended);
    assert_eq!(
        vayoo_contracts::long_user(&contract, &mut user, now, swap),
        Err(ErrorCode::ContractEnded)
    );
    assert_eq!(
        vayoo_contracts::close_long_user(&contract, &mut user, now, 0, swap),
        Err(ErrorCode::ContractEnded)
    );
    assert_eq!(
        vayoo_contracts::initialize_user(
            &contract,
            &mut user,
            now,
            1,
            Address::default(),
            Address::default()
        ),
        Err(ErrorCode::ContractEnded)
    );
    assert_eq!(contract, c0);
    assert_eq!(user, u0);
    assert_eq!(
        vayoo_contracts::withdraw_collateral(
            &mut ContractState { current_tvl_usdc: 1_000, ..open_until(1_000) },
            &mut user,
            400
        ),
        Ok(Movements { withdrawal: 400, ..Movements::default() })
    );
    assert_eq!(user.usdc_deposited, 600);
}

#[test]
fn the_phase_guard_comes_before_the_other_side_guard() {
    let mut contract = ContractState { is_halted_trading: true, ..open_until(1_000) };
    let mut user = UserState { lcontract_bought_as_user: 1, ..UserState::default() };
    assert_eq!(
        vayoo_contracts::short_user(&mut contract, &mut user, 5, 1, SwapObservation::default()),
        Err(ErrorCode::ContractTradingHalted)
    );
    assert_eq!(
        vayoo_contracts::instructions::short_user::handle(
            &mut contract,
            &mut user,
            1,
            SwapObservation::default()
        ),
        Err(ErrorCode::CloseLongBeforeShort)
    );
}

#[test]
fn contract_creation() {
    let mut contract = ContractState { test_mode: 1, bands_shift: 2, ..ContractState::default() };
    let accounts = ContractAccounts {
        authority: Address { bytes: [1u8; 32] },
        escrow_vault_collateral: Address { bytes: [2u8; 32] },
        collateral_mint: Address { bytes: [3u8; 32] },
        lcontract_mint: Address { bytes: [4u8; 32] },
        scontract_mint: Address { bytes: [5u8; 32] },
    };
    let feed = Address { bytes: [6u8; 32] };
    let reading =
        OracleReading::Pyth { feed, price: 23_450_000, conf: 1, expo: -3, publish_time: 77 };
    vayoo_contracts::initialize_contract(
        &mut contract,
        String::from("weekly"),
        253,
        5_000,
        12,
        0,
        accounts,
        80,
        &reading,
    )
    .unwrap();
    let expected = ContractState {
        name: String::from("weekly"),
        bump: 253,
        authority: accounts.authority,
        escrow_vault_collateral: accounts.escrow_vault_collateral,
        is_halted: false,
        is_halted_deposit: false,
        is_halted_trading: false,
        is_settling: false,
        collateral_mint: accounts.collateral_mint,
        lcontract_mint: accounts.lcontract_mint,
        scontract_mint: accounts.scontract_mint,
        oracle_feed_type: FeedType::Pyth,
        oracle_feed_key: feed,
        oracle_price_multiplier: 1_000,
        limiting_amplitude: 12,
        starting_price: 23_450_000,
        starting_time: 80,
        ending_price: 0,
        ending_time: 5_000,
        cap_product: 0,
        current_tvl_usdc: 0,
        current_tvl_underlying: 0,
        global_current_locked_usdc: 0,
        global_current_issued_lcontract: 0,
        test_mode: 1,
        bands_shift: 2,
        vayoo_precisions: 0,
    };
    assert_eq!(contract, expected);
}

#[test]
fn contract_creation_errors() {
    let reading = OracleReading::Pyth {
        feed: Address::default(),
        price: 1,
        conf: 0,
        expo: -3,
        publish_time: 77,
    };
    let mut contract = ContractState { test_mode: 1, ..ContractState::default() };
    let c0 = contract.clone();
    let accounts = ContractAccounts::default();
    for (tag, now, expected) in [
        (2u8, 80i64, ErrorCode::InvalidFeedType),
        (255, 80, ErrorCode::InvalidFeedType),
        (1, 80, ErrorCode::InvalidFeedType),
        (0, 138, ErrorCode::PythOffline),
        (0, 16, ErrorCode::PythOffline),
    ] {
        let r = vayoo_contracts::initialize_contract(
            &mut contract,
            String::from("weekly"),
            1,
            5_000,
            12,
            tag,
            accounts,
            now,
            &reading,
        );
        assert_eq!(r, Err(expected));
        assert_eq!(contract, c0);
    }
    let before_the_epoch = OracleReading::Pyth {
        feed: Address::default(),
        price: 1,
        conf: 0,
        expo: -3,
        publish_time: -1,
    };
    let r = vayoo_contracts::initialize_contract(
        &mut contract,
        String::from("weekly"),
        1,
        5_000,
        12,
        0,
        accounts,
        -1,
        &before_the_epoch,
    );
    assert_eq!(r, Err(ErrorCode::Overflow));
    assert_eq!(contract, c0);
}

#[test]
fn user_and_global_state_creation() {
    let mut contract = open_until(1_000);
    contract.current_tvl_usdc = 5;
    let mut user = UserState {
        usdc_free: 9,
        usdc_deposited: 9,
        usdc_withdrawn: 9,
        ishalted: true,
        issettled: true,
        lcontract_bought_as_user: 4,
        ..UserState::default()
    };
    let authority = Address { bytes: [1u8; 32] };
    let contract_key = Address { bytes: [2u8; 32] };
    vayoo_contracts::initialize_user(&contract, &mut user, 5, 250, authority, contract_key).unwrap();
    assert_eq!(
        user,
        UserState {
            bump: 250,
            authority,
            contract_account: contract_key,
            lcontract_bought_as_user: 4,
            ..UserState::default()
        }
    );
    let mut global = GlobalState { paused: true, total_tvl_usdc: 7, ..GlobalState::default() };
    vayoo_contracts::create_global_state(&mut global, 3, authority);
    assert_eq!(global, GlobalState { bump: 3, authority, paused: false, total_tvl_usdc: 0 });
}

#[test]
fn amplitude_is_replaced() {
    let mut contract = open_until(1_000);
    vayoo_contracts::admin_sets_amplitude(&mut contract, 33);
    assert_eq!(contract, ContractState { limiting_amplitude: 33, ..open_until(1_000) });
}

#[test]
fn position_guard() {
    assert_eq!(check_position(60, 40, 6, 4, 10), Ok(()));
    assert_eq!(check_position(60, 39, 6, 4, 10), Err(ErrorCode::ShortLeaveUnhealthy));
    assert_eq!(check_position(0, 0, 0, 0, u64::MAX), Ok(()));
    assert_eq!(check_position(u64::MAX, 1, 0, 0, 1), Err(ErrorCode::Overflow));
    assert_eq!(check_position(0, 0, u64::MAX, 1, 0), Err(ErrorCode::Overflow));
    assert_eq!(check_position(u64::MAX, 0, u64::MAX, 0, 2), Err(ErrorCode::Overflow));
}

#[test]
fn platform_guard() {
    assert_eq!(check_platform(70, 10, 7_000_000, 1_000_000), Ok(()));
    assert_eq!(check_platform(69, 10, 7_000_000, 1_000_000), Err(ErrorCode::PlatformUnhealthy));
    assert_eq!(check_platform(22, 3, 7_500_000, 1_000_000), Ok(()));
    assert_eq!(check_platform(21, 3, 7_500_000, 1_000_000), Err(ErrorCode::PlatformUnhealthy));
    assert_eq!(check_platform(u64::MAX, u64::MAX, 2, 1), Err(ErrorCode::Overflow));
    assert_eq!(check_platform(u64::MAX, 1, 1, 0), Err(ErrorCode::Overflow));
}

#[test]
fn solvency_guard_checks_the_position_first() {
    assert_eq!(check_solvency(100, 0, 10, 0, 10, 100, 10, 10, 1), Ok(()));
    assert_eq!(
        check_solvency(99, 0, 10, 0, 10, 99, 10, 10, 1),
        Err(ErrorCode::ShortLeaveUnhealthy)
    );
    assert_eq!(
        check_solvency(100, 0, 10, 0, 10, 99, 10, 10, 1),
        Err(ErrorCode::PlatformUnhealthy)
    );
}

#[test]
fn signed_record() {
    assert_eq!(net_shift(5, 3, 10), Ok(-2));
    assert_eq!(net_shift(i64::MIN, u64::MAX, 0), Ok(i64::MAX));
    assert_eq!(net_shift(i64::MAX, 0, u64::MAX), Ok(i64::MIN));
    assert_eq!(net_shift(i64::MAX, 1, 0), Err(ErrorCode::Overflow));
    assert_eq!(net_shift(i64::MIN, 0, 1), Err(ErrorCode::Overflow));
    assert_eq!(net_shift(0, u64::MAX, 0), Err(ErrorCode::Overflow));
}

#[test]
fn balance_rise() {
    assert_eq!(rise(3, 10), 7);
    assert_eq!(rise(10, 3), 0);
    assert_eq!(rise(4, 4), 0);
    assert_eq!(Movements::none(), Movements::default());
}

#[test]
fn a_halt_of_deposits_alone_does_not_stop_trades() {
    let mut contract = ContractState { is_halted_deposit: true, ..open_until(1_000) };
    let mut user = UserState::default();
    assert_eq!(
        vayoo_contracts::deposit_collateral(&mut contract, &mut user, 5, 1),
        Err(ErrorCode::ContractDepositHalted)
    );
    let moved = vayoo_contracts::mint_l_contract_mm(&mut contract, &mut user, 5, 2).unwrap();
    assert_eq!(moved, Movements { free_to_locked: 20, mint_long: 2, mint_short: 2, ..Movements::default() });
    assert_eq!(
        vayoo_contracts::initialize_user(
            &contract,
            &mut UserState::default(),
            5,
            1,
            Address::default(),
            Address::default()
        ),
        Ok(())
    );
}

#[test]
fn checks_that_come_before_outside_work() {
    let contract = open_until(1_000);
    assert_eq!(check_due(&contract, 1_000), Err(ErrorCode::MaturityNotReached));
    assert_eq!(check_due(&contract, -1), Err(ErrorCode::MaturityNotReached));
    assert_eq!(check_due(&contract, 1_001), Ok(()));
    let settling = ContractState { is_settling: true, ..open_until(1_000) };
    assert_eq!(check_due(&settling, 1_001), Err(ErrorCode::AlreadySettling));
    assert_eq!(check_due(&settling, 0), Err(ErrorCode::AlreadySettling));
    let long = UserState { lcontract_bought_as_user: 3, ..UserState::default() };
    let short = UserState { scontract_sold_as_user: 3, ..UserState::default() };
    assert_eq!(check_long_side_closed(&long), Err(ErrorCode::CloseLongBeforeShort));
    assert_eq!(check_long_side_closed(&short), Ok(()));
    assert_eq!(check_short_side_closed(&short), Err(ErrorCode::CloseShortBeforeLong));
    assert_eq!(check_short_side_closed(&long), Ok(()));
    assert_eq!(check_within_position(&long, 3), Ok(()));
    assert_eq!(check_within_position(&long, 4), Err(ErrorCode::ClosePositionBiggerThanOpened));
}
