use vayoo_contracts::custody::{Movements, SwapObservation};
use vayoo_contracts::errors::ErrorCode;
use vayoo_contracts::instructions::admin::initialize_contract::ContractAccounts;
use vayoo_contracts::ledger::reconcile;
use vayoo_contracts::oracle::OracleReading;
use vayoo_contracts::states::contract_state::ContractState;
use vayoo_contracts::states::user_state::UserState;
use vayoo_contracts::types::Address;

const NOW: i64 = 10;
const MATURITY: u64 = 1_000;
const AMPLITUDE: u64 = 10;

fn trading_feed() -> Address {
    Address { bytes: [7u8; 32] }
}

fn trading_contract() -> ContractState {
    let mut contract = ContractState::default();
    let reading = OracleReading::Pyth {
        feed: trading_feed(),
        price: 100_000_000,
        conf: 0,
        expo: -6,
        publish_time: NOW,
    };
    vayoo_contracts::initialize_contract(
        &mut contract,
        String::from("weekly"),
        254,
        MATURITY,
        AMPLITUDE,
        0,
        ContractAccounts::default(),
        NOW,
        &reading,
    )
    .unwrap();
    contract
}

fn funded_user(contract: &mut ContractState, amount: u64) -> UserState {
    let mut user = UserState::default();
    vayoo_contracts::initialize_user(
        contract,
        &mut user,
        NOW,
        1,
        Address { bytes: [1u8; 32] },
        Address { bytes: [2u8; 32] },
    )
    .unwrap();
    vayoo_contracts::deposit_collateral(contract, &mut user, NOW, amount).unwrap();
    user
}

fn sale(proceeds: u64) -> SwapObservation {
    SwapObservation { units_before: 10, units_after: 0, collateral_before: 0, collateral_after: proceeds }
}

#[test]
fn deposit_adds_to_the_deposits_and_the_total_value() {
    let mut contract = trading_contract();
    let mut user = UserState::default();
    let moved = vayoo_contracts::deposit_collateral(&mut contract, &mut user, NOW, 250).unwrap();
    assert_eq!(moved, Movements { deposit: 250, ..Movements::default() });
    assert_eq!(user.usdc_deposited, 250);
    assert_eq!(user.usdc_free, 0);
    assert_eq!(user.usdc_withdrawn, 0);
    assert_eq!(contract.current_tvl_usdc, 250);
}

#[test]
fn deposit_overflow_changes_nothing() {
    let mut contract = trading_contract();
    let mut user = funded_user(&mut contract, 5);
    let (c0, u0) = (contract.clone(), user);
    let r = vayoo_contracts::deposit_collateral(&mut contract, &mut user, NOW, u64::MAX);
    assert_eq!(r, Err(ErrorCode::Overflow));
    assert_eq!(contract, c0);
    assert_eq!(user, u0);
}

#[test]
fn withdraw_takes_from_the_deposits_and_the_total_value() {
    let mut contract = trading_contract();
    let mut user = funded_user(&mut contract, 100);
    let moved = vayoo_contracts::withdraw_collateral(&mut contract, &mut user, 30).unwrap();
    assert_eq!(moved, Movements { withdrawal: 30, ..Movements::default() });
    assert_eq!(user.usdc_deposited, 70);
    assert_eq!(user.usdc_free, 0);
    assert_eq!(user.usdc_withdrawn, 0);
    assert_eq!(contract.current_tvl_usdc, 70);
}

#[test]
fn withdraw_more_than_deposited_is_refused() {
    let mut contract = trading_contract();
    let mut user = funded_user(&mut contract, 100);
    let (c0, u0) = (contract.clone(), user);
    let r = vayoo_contracts::withdraw_collateral(&mut contract, &mut user, 101);
    assert_eq!(r, Err(ErrorCode::Overflow));
    assert_eq!(contract, c0);
    assert_eq!(user, u0);
}

#[test]
fn mint_locks_the_amplitude_for_every_unit() {
    let mut contract = trading_contract();
    let mut user = funded_user(&mut contract, 100);
    let moved = vayoo_contracts::mint_l_contract_mm(&mut contract, &mut user, NOW, 4).unwrap();
    assert_eq!(
        moved,
        Movements { free_to_locked: 40, mint_long: 4, mint_short: 4, ..Movements::default() }
    );
    assert_eq!(user.usdc_free, 0);
    assert_eq!(user.usdc_deposited, 100);
    assert_eq!(user.usdc_collateral_locked_as_mm, 40);
    assert_eq!(user.lcontract_minted_as_mm, 4);
    assert_eq!(user.contract_position_net, -4);
    assert_eq!(contract.global_current_locked_usdc, 40);
    assert_eq!(contract.global_current_issued_lcontract, 4);
}

#[test]
fn mint_leaves_the_free_account_to_the_transfer() {
    let mut contract = trading_contract();
    let mut user = UserState::default();
    let moved = vayoo_contracts::mint_l_contract_mm(&mut contract, &mut user, NOW, 4).unwrap();
    assert_eq!(moved.free_to_locked, 40);
    assert_eq!(user.usdc_free, 0);
    assert_eq!(user.usdc_collateral_locked_as_mm, 40);
}

#[test]
fn mint_whose_collateral_is_no_u64_is_refused() {
    let mut contract = trading_contract();
    let mut user = funded_user(&mut contract, 39);
    let (c0, u0) = (contract.clone(), user);
    let r = vayoo_contracts::mint_l_contract_mm(&mut contract, &mut user, NOW, u64::MAX);
    assert_eq!(r, Err(ErrorCode::Overflow));
    assert_eq!(contract, c0);
    assert_eq!(user, u0);
}

#[test]
fn burn_undoes_mint() {
    let mut contract = trading_contract();
    let mut user = funded_user(&mut contract, 100);
    vayoo_contracts::mint_l_contract_mm(&mut contract, &mut user, NOW, 4).unwrap();
    let moved = vayoo_contracts::burn_l_contract_mm(&mut contract, &mut user, NOW, 3).unwrap();
    assert_eq!(
        moved,
        Movements { locked_to_free: 30, burn_long: 3, burn_short: 3, ..Movements::default() }
    );
    assert_eq!(user.usdc_free, 30);
    assert_eq!(user.usdc_collateral_locked_as_mm, 10);
    assert_eq!(user.lcontract_minted_as_mm, 1);
    assert_eq!(user.contract_position_net, -1);
    assert_eq!(contract.global_current_locked_usdc, 10);
    assert_eq!(contract.global_current_issued_lcontract, 1);
}

#[test]
fn burn_more_than_minted_is_refused() {
    let mut contract = trading_contract();
    let mut user = funded_user(&mut contract, 100);
    vayoo_contracts::mint_l_contract_mm(&mut contract, &mut user, NOW, 4).unwrap();
    let (c0, u0) = (contract.clone(), user);
    let r = vayoo_contracts::burn_l_contract_mm(&mut contract, &mut user, NOW, 5);
    assert_eq!(r, Err(ErrorCode::Overflow));
    assert_eq!(contract, c0);
    assert_eq!(user, u0);
}

#[test]
fn short_locks_the_amplitude_less_the_proceeds() {
    let mut contract = trading_contract();
    let mut user = funded_user(&mut contract, 100);
    let moved =
        vayoo_contracts::short_user(&mut contract, &mut user, NOW, 10, sale(40)).unwrap();
    assert_eq!(
        moved,
        Movements { free_to_locked: 60, mint_long: 10, mint_short: 10, ..Movements::default() }
    );
    assert_eq!(user.usdc_free, 0);
    assert_eq!(user.usdc_deposited, 100);
    assert_eq!(user.usdc_collateral_locked_as_user, 100);
    assert_eq!(user.scontract_sold_as_user, 10);
    assert_eq!(user.contract_position_net, -10);
    assert_eq!(contract.global_current_locked_usdc, 100);
    assert_eq!(contract.global_current_issued_lcontract, 10);
}

#[test]
fn short_ignores_a_fall_of_the_locked_balance() {
    let mut contract = trading_contract();
    let mut user = funded_user(&mut contract, 100);
    let swap =
        SwapObservation { units_before: 0, units_after: 0, collateral_before: 9, collateral_after: 5 };
    let moved = vayoo_contracts::short_user(&mut contract, &mut user, NOW, 2, swap).unwrap();
    assert_eq!(moved.free_to_locked, 20);
    assert_eq!(user.usdc_free, 0);
}

#[test]
fn short_while_long_is_open_is_refused() {
    let mut contract = trading_contract();
    let mut user = funded_user(&mut contract, 100);
    user.lcontract_bought_as_user = 1;
    let (c0, u0) = (contract.clone(), user);
    for amount in [1u64, 10, u64::MAX] {
        let r = vayoo_contracts::short_user(&mut contract, &mut user, NOW, amount, sale(0));
        assert_eq!(r, Err(ErrorCode::CloseLongBeforeShort));
        assert_eq!(contract, c0);
        assert_eq!(user, u0);
    }
}

#[test]
fn long_while_short_is_open_is_refused() {
    let mut contract = trading_contract();
    let mut user = funded_user(&mut contract, 100);
    vayoo_contracts::short_user(&mut contract, &mut user, NOW, 1, sale(0)).unwrap();
    let u0 = user;
    for bought in [1u64, 10, u64::MAX] {
        let swap = SwapObservation {
            units_before: 0,
            units_after: bought,
            collateral_before: 90,
            collateral_after: 80,
        };
        let r = vayoo_contracts::long_user(&contract, &mut user, NOW, swap);
        assert_eq!(r, Err(ErrorCode::CloseShortBeforeLong));
        assert_eq!(user, u0);
    }
}

#[test]
fn short_of_a_fresh_position_leaves_the_free_account_to_the_transfer() {
    let mut contract = trading_contract();
    let mut user = UserState::default();
    let moved = vayoo_contracts::short_user(&mut contract, &mut user, NOW, 10, sale(25)).unwrap();
    assert_eq!(
        moved,
        Movements { free_to_locked: 75, mint_long: 10, mint_short: 10, ..Movements::default() }
    );
    assert_eq!(
        user,
        UserState {
            scontract_sold_as_user: 10,
            usdc_collateral_locked_as_user: 100,
            contract_position_net: -10,
            ..UserState::default()
        }
    );
    assert_eq!(contract.global_current_locked_usdc, 100);
    assert_eq!(contract.global_current_issued_lcontract, 10);
}

#[test]
fn short_whose_sale_brought_more_than_is_locked_is_refused() {
    let mut contract = trading_contract();
    let mut user = funded_user(&mut contract, 59);
    let (c0, u0) = (contract.clone(), user);
    let r = vayoo_contracts::short_user(&mut contract, &mut user, NOW, 1, sale(11));
    assert_eq!(r, Err(ErrorCode::Overflow));
    assert_eq!(contract, c0);
    assert_eq!(user, u0);
    vayoo_contracts::short_user(&mut contract, &mut user, NOW, 1, sale(10)).unwrap();
}

#[test]
fn short_whose_collateral_is_no_u64_is_refused() {
    let mut contract = trading_contract();
    let mut user = funded_user(&mut contract, 100);
    let r = vayoo_contracts::short_user(&mut contract, &mut user, NOW, u64::MAX, sale(0));
    assert_eq!(r, Err(ErrorCode::Overflow));
}

#[test]
fn close_short_goes_by_the_units_bought_back() {
    let mut contract = trading_contract();
    let mut user = funded_user(&mut contract, 100);
    vayoo_contracts::short_user(&mut contract, &mut user, NOW, 10, sale(40)).unwrap();
    let swap = SwapObservation {
        units_before: 0,
        units_after: 4,
        collateral_before: 100,
        collateral_after: 85,
    };
    let moved = vayoo_contracts::close_short_user(&mut contract, &mut user, NOW, swap).unwrap();
    assert_eq!(
        moved,
        Movements { locked_to_free: 25, burn_long: 4, burn_short: 4, ..Movements::default() }
    );
    assert_eq!(user.usdc_free, 25);
    assert_eq!(user.usdc_collateral_locked_as_user, 60);
    assert_eq!(user.scontract_sold_as_user, 6);
    assert_eq!(user.contract_position_net, -6);
    assert_eq!(contract.global_current_locked_usdc, 60);
    assert_eq!(contract.global_current_issued_lcontract, 6);
}

#[test]
fn close_short_of_more_than_sold_is_refused() {
    let mut contract = trading_contract();
    let mut user = funded_user(&mut contract, 100);
    vayoo_contracts::short_user(&mut contract, &mut user, NOW, 2, sale(0)).unwrap();
    let (c0, u0) = (contract.clone(), user);
    let swap =
        SwapObservation { units_before: 0, units_after: 3, collateral_before: 20, collateral_after: 20 };
    let r = vayoo_contracts::close_short_user(&mut contract, &mut user, NOW, swap);
    assert_eq!(r, Err(ErrorCode::Overflow));
    assert_eq!(contract, c0);
    assert_eq!(user, u0);
}

#[test]
fn close_short_that_leaves_the_position_short_of_collateral_is_refused() {
    let mut contract = trading_contract();
    let mut user = funded_user(&mut contract, 100);
    vayoo_contracts::short_user(&mut contract, &mut user, NOW, 10, sale(0)).unwrap();
    vayoo_contracts::admin_sets_amplitude(&mut contract, 11);
    let (c0, u0) = (contract.clone(), user);
    let swap = SwapObservation {
        units_before: 0,
        units_after: 1,
        collateral_before: 100,
        collateral_after: 100,
    };
    let r = vayoo_contracts::close_short_user(&mut contract, &mut user, NOW, swap);
    assert_eq!(r, Err(ErrorCode::ShortLeaveUnhealthy));
    assert_eq!(contract, c0);
    assert_eq!(user, u0);
}

#[test]
fn mint_that_leaves_the_platform_short_of_collateral_is_refused() {
    let mut contract = trading_contract();
    let mut user = funded_user(&mut contract, 100);
    contract.global_current_issued_lcontract = 5;
    let (c0, u0) = (contract.clone(), user);
    let r = vayoo_contracts::mint_l_contract_mm(&mut contract, &mut user, NOW, 4);
    assert_eq!(r, Err(ErrorCode::PlatformUnhealthy));
    assert_eq!(contract, c0);
    assert_eq!(user, u0);
}

#[test]
fn long_goes_by_the_units_delivered() {
    let mut contract = trading_contract();
    let mut user = funded_user(&mut contract, 50);
    let c0 = contract.clone();
    let swap =
        SwapObservation { units_before: 0, units_after: 10, collateral_before: 50, collateral_after: 10 };
    vayoo_contracts::long_user(&contract, &mut user, NOW, swap).unwrap();
    assert_eq!(user.lcontract_bought_as_user, 10);
    assert_eq!(user.usdc_free, 0);
    assert_eq!(user.usdc_collateral_spent_as_user, 40);
    assert_eq!(user.contract_position_net, 10);
    assert_eq!(contract, c0);
}

#[test]
fn long_with_units_that_the_ledger_does_not_know_is_refused() {
    let mut contract = trading_contract();
    let mut user = funded_user(&mut contract, 50);
    let u0 = user;
    let swap =
        SwapObservation { units_before: 3, units_after: 10, collateral_before: 50, collateral_after: 10 };
    let r = vayoo_contracts::long_user(&contract, &mut user, NOW, swap);
    assert_eq!(r, Err(ErrorCode::ErrorAccounting));
    assert_eq!(user, u0);
}

#[test]
fn close_long_goes_by_the_units_sold() {
    let mut contract = trading_contract();
    let mut user = funded_user(&mut contract, 50);
    let open =
        SwapObservation { units_before: 0, units_after: 10, collateral_before: 50, collateral_after: 10 };
    vayoo_contracts::long_user(&contract, &mut user, NOW, open).unwrap();
    let close =
        SwapObservation { units_before: 10, units_after: 4, collateral_before: 10, collateral_after: 31 };
    vayoo_contracts::close_long_user(&contract, &mut user, NOW, 7, close).unwrap();
    assert_eq!(user.lcontract_bought_as_user, 4);
    assert_eq!(user.usdc_free, 21);
    assert_eq!(user.contract_position_net, 4);
}

#[test]
fn close_long_of_more_than_held_is_refused() {
    let mut contract = trading_contract();
    let mut user = funded_user(&mut contract, 50);
    let open =
        SwapObservation { units_before: 0, units_after: 10, collateral_before: 50, collateral_after: 10 };
    vayoo_contracts::long_user(&contract, &mut user, NOW, open).unwrap();
    let u0 = user;
    let close =
        SwapObservation { units_before: 10, units_after: 0, collateral_before: 10, collateral_after: 31 };
    let r = vayoo_contracts::close_long_user(&contract, &mut user, NOW, 11, close);
    assert_eq!(r, Err(ErrorCode::ClosePositionBiggerThanOpened));
    assert_eq!(user, u0);
}

#[test]
fn close_long_errors() {
    let mut contract = trading_contract();
    let mut user = funded_user(&mut contract, 50);
    let open =
        SwapObservation { units_before: 0, units_after: 10, collateral_before: 50, collateral_after: 10 };
    vayoo_contracts::long_user(&contract, &mut user, NOW, open).unwrap();
    let u0 = user;
    let grew =
        SwapObservation { units_before: 10, units_after: 11, collateral_before: 10, collateral_after: 31 };
    assert_eq!(
        vayoo_contracts::close_long_user(&contract, &mut user, NOW, 1, grew),
        Err(ErrorCode::Overflow)
    );
    let paid =
        SwapObservation { units_before: 10, units_after: 9, collateral_before: 10, collateral_after: 9 };
    assert_eq!(
        vayoo_contracts::close_long_user(&contract, &mut user, NOW, 1, paid),
        Err(ErrorCode::Overflow)
    );
    let stray =
        SwapObservation { units_before: 12, units_after: 11, collateral_before: 10, collateral_after: 12 };
    assert_eq!(
        vayoo_contracts::close_long_user(&contract, &mut user, NOW, 1, stray),
        Err(ErrorCode::ErrorAccounting)
    );
    assert_eq!(user, u0);
}

#[test]
fn running_totals_are_the_sums_over_the_positions() {
    let mut contract = trading_contract();
    let mut a = funded_user(&mut contract, 500);
    let mut b = funded_user(&mut contract, 500);
    let mut c = funded_user(&mut contract, 500);
    assert!(reconcile(&contract, &vec![a, b, c]));
    vayoo_contracts::short_user(&mut contract, &mut a, NOW, 10, sale(40)).unwrap();
    vayoo_contracts::mint_l_contract_mm(&mut contract, &mut b, NOW, 7).unwrap();
    vayoo_contracts::mint_l_contract_mm(&mut contract, &mut a, NOW, 2).unwrap();
    let buy =
        SwapObservation { units_before: 0, units_after: 5, collateral_before: 500, collateral_after: 470 };
    vayoo_contracts::long_user(&contract, &mut c, NOW, buy).unwrap();
    assert!(reconcile(&contract, &vec![a, b, c]));
    assert_eq!(contract.global_current_locked_usdc, 190);
    assert_eq!(contract.global_current_issued_lcontract, 19);
    let back =
        SwapObservation { units_before: 0, units_after: 3, collateral_before: 100, collateral_after: 90 };
    vayoo_contracts::close_short_user(&mut contract, &mut a, NOW, back).unwrap();
    vayoo_contracts::burn_l_contract_mm(&mut contract, &mut b, NOW, 7).unwrap();
    let refused = vayoo_contracts::burn_l_contract_mm(&mut contract, &mut b, NOW, 1);
    assert_eq!(refused, Err(ErrorCode::Overflow));
    assert!(reconcile(&contract, &vec![a, b, c]));
    assert_eq!(contract.global_current_locked_usdc, 90);
    assert_eq!(contract.global_current_issued_lcontract, 9);
    assert!(reconcile(&contract, &vec![a, b]));
    assert!(!reconcile(&contract, &vec![b, c]));
    assert!(!reconcile(&contract, &vec![a, a, b, c]));
}

#[test]
fn reconcile_of_no_positions() {
    let contract = trading_contract();
    assert!(reconcile(&contract, &vec![]));
    let mut off = trading_contract();
    off.global_current_locked_usdc = 1;
    assert!(!reconcile(&off, &vec![]));
}

#[test]
fn burning_what_was_minted_restores_all_but_the_free_record() {
    let mut contract = trading_contract();
    let mut user = funded_user(&mut contract, 100);
    let (c0, u0) = (contract.clone(), user);
    let minted = vayoo_contracts::mint_l_contract_mm(&mut contract, &mut user, NOW, 4).unwrap();
    let burnt = vayoo_contracts::burn_l_contract_mm(&mut contract, &mut user, NOW, 4).unwrap();
    assert_eq!(burnt.locked_to_free, minted.free_to_locked);
    assert_eq!(burnt.burn_long, minted.mint_long);
    assert_eq!(burnt.burn_short, minted.mint_short);
    assert_eq!(contract, c0);
    assert_eq!(user, UserState { usdc_free: u0.usdc_free + 40, ..u0 });
}
