use distribution::{is_native_token, only_owner, DistError, Distribution, PauseModule, SaleContract};

const OWNER: &[u8] = b"owner-address";
const OTHER: &[u8] = b"someone-else";
const TOKEN: &[u8] = b"DIST-abcdef";
const WRONG: &[u8] = b"OTHER-123456";

fn deployed(price: u128) -> SaleContract {
    let mut d = SaleContract::new();
    d.init(TOKEN, price);
    d
}

#[test]
fn init_sets_token_and_price() {
    let d = deployed(10);
    assert_eq!(d.get_distributable_token_id(), Some(TOKEN.to_vec()));
    assert_eq!(d.get_distributable_price(), Some(10));
    assert_eq!(d.get_buy_limit(), None);
    assert_eq!(d.get_burned_amount(), 0);
    assert!(!d.is_paused());
}

#[test]
fn init_twice_keeps_first_token_id() {
    let mut d = deployed(10);
    d.init(WRONG, 99);
    assert_eq!(d.get_distributable_token_id(), Some(TOKEN.to_vec()));
    assert_eq!(d.get_distributable_price(), Some(10));
}

#[test]
fn init_keeps_a_written_zero_price() {
    let mut d = deployed(0);
    d.init(WRONG, 5);
    assert_eq!(d.get_distributable_token_id(), Some(TOKEN.to_vec()));
    assert_eq!(d.get_distributable_price(), Some(0));
}

#[test]
fn upgrade_init_keeps_owner_price() {
    let mut d = deployed(10);
    d.update_price(OWNER, OWNER, 0).unwrap();
    d.init(TOKEN, 10);
    assert_eq!(d.get_distributable_price(), Some(0));
    assert_eq!(d.buy(10, 1000), Err(DistError::DivisionByZero));
}

#[test]
fn fresh_contract_is_unset() {
    let mut d = SaleContract::new();
    assert_eq!(d.get_distributable_token_id(), None);
    assert_eq!(d.get_distributable_price(), None);
    d.init(b"", 3);
    assert_eq!(d.get_distributable_token_id(), Some(Vec::new()));
    d.init(TOKEN, 4);
    assert_eq!(d.get_distributable_token_id(), Some(Vec::new()));
    assert_eq!(d.get_distributable_price(), Some(3));
}

#[test]
fn non_owner_is_unauthorized_everywhere() {
    let mut d = deployed(10);
    assert_eq!(d.update_price(OTHER, OWNER, 3), Err(DistError::Unauthorized));
    assert_eq!(d.update_buy_limit(OTHER, OWNER, 3), Err(DistError::Unauthorized));
    assert_eq!(d.deposit(OTHER, OWNER, TOKEN), Err(DistError::Unauthorized));
    assert_eq!(d.claim(OTHER, OWNER, 50), Err(DistError::Unauthorized));
    assert_eq!(d.pause(OTHER, OWNER), Err(DistError::Unauthorized));
    d.pause(OWNER, OWNER).unwrap();
    assert_eq!(d.unpause(OTHER, OWNER), Err(DistError::Unauthorized));
    assert!(d.is_paused());
    assert_eq!(d.get_distributable_price(), Some(10));
    assert_eq!(d.get_buy_limit(), None);
    assert_eq!(only_owner(OTHER, OWNER), Err(DistError::Unauthorized));
    assert_eq!(only_owner(OWNER, OWNER), Ok(()));
}

#[test]
fn owner_updates_price_and_limit() {
    let mut d = deployed(10);
    assert_eq!(d.update_price(OWNER, OWNER, 0), Ok(()));
    assert_eq!(d.get_distributable_price(), Some(0));
    assert_eq!(d.update_price(OWNER, OWNER, 25), Ok(()));
    assert_eq!(d.get_distributable_price(), Some(25));
    assert_eq!(d.update_buy_limit(OWNER, OWNER, 100), Ok(()));
    assert_eq!(d.get_buy_limit(), Some(100));
    assert_eq!(d.update_buy_limit(OWNER, OWNER, 0), Ok(()));
    assert_eq!(d.get_buy_limit(), Some(0));
    assert_eq!(d.buy(1, 1000), Err(DistError::BuyLimitExceeded));
    assert_eq!(d.buy(0, 1000), Err(DistError::ZeroPayment));
}

#[test]
fn deposit_checks_token() {
    let d = deployed(10);
    assert_eq!(d.deposit(OWNER, OWNER, TOKEN), Ok(()));
    assert_eq!(d.deposit(OWNER, OWNER, WRONG), Err(DistError::InvalidToken));
    assert_eq!(d.deposit(OWNER, OWNER, b"EGLD"), Err(DistError::InvalidToken));
}

#[test]
fn deposit_before_init_is_invalid_token() {
    let d = SaleContract::new();
    assert_eq!(d.deposit(OWNER, OWNER, TOKEN), Err(DistError::InvalidToken));
}

#[test]
fn buy_zero_payment_always_fails() {
    let mut d = deployed(10);
    assert_eq!(d.buy(0, 1000), Err(DistError::ZeroPayment));
    d.pause(OWNER, OWNER).unwrap();
    assert_eq!(d.buy(0, 1000), Err(DistError::ZeroPayment));
    d.update_price(OWNER, OWNER, 0).unwrap();
    assert_eq!(d.buy(0, 0), Err(DistError::ZeroPayment));
}

#[test]
fn buy_when_paused_fails() {
    let mut d = deployed(10);
    d.pause(OWNER, OWNER).unwrap();
    assert_eq!(d.buy(1, 1000), Err(DistError::SalePaused));
    assert_eq!(d.buy(u128::MAX, 1000), Err(DistError::SalePaused));
    d.unpause(OWNER, OWNER).unwrap();
    assert_eq!(d.buy(50, 1000), Ok(5));
}

#[test]
fn buy_limit_scenario() {
    let mut d = deployed(10);
    d.update_buy_limit(OWNER, OWNER, 100).unwrap();
    assert_eq!(d.buy(150, 1000), Err(DistError::BuyLimitExceeded));
    assert_eq!(d.buy(101, 1000), Err(DistError::BuyLimitExceeded));
    assert_eq!(d.buy(100, 1000), Ok(10));
}

#[test]
fn buy_truncates_and_keeps_remainder() {
    let d = deployed(7);
    let native_before: u128 = 0;
    let paid: u128 = 20;
    assert_eq!(d.buy(paid, 1000), Ok(2));
    // the whole payment stays with the contract: the owner can claim all of it
    assert_eq!(d.claim(OWNER, OWNER, native_before + paid), Ok(20));
}

#[test]
fn buy_insufficient_inventory() {
    let d = deployed(10);
    assert_eq!(d.buy(60, 5), Err(DistError::InsufficientInventory));
    assert_eq!(d.buy(50, 5), Ok(5));
}

#[test]
fn buy_with_zero_price_is_division_by_zero() {
    let d = deployed(0);
    assert_eq!(d.buy(10, 1000), Err(DistError::DivisionByZero));
    let fresh = SaleContract::new();
    assert_eq!(fresh.buy(10, 1000), Err(DistError::DivisionByZero));
}

#[test]
fn burn_wrong_token_fails() {
    let mut d = deployed(10);
    assert_eq!(d.burn(TOKEN, 4), Ok(4));
    assert_eq!(d.burn(WRONG, 9), Err(DistError::InvalidToken));
    assert_eq!(d.burn(b"EGLD", 9), Err(DistError::InvalidToken));
    assert_eq!(d.get_burned_amount(), 4);
}

#[test]
fn burn_accumulates() {
    let mut d = deployed(10);
    assert_eq!(d.burn(TOKEN, 3), Ok(3));
    assert_eq!(d.get_burned_amount(), 3);
    assert_eq!(d.burn(TOKEN, 0), Ok(0));
    assert_eq!(d.get_burned_amount(), 3);
    assert_eq!(d.burn(TOKEN, 1_000_000_000_000_000_000), Ok(1_000_000_000_000_000_000));
    assert_eq!(d.get_burned_amount(), 1_000_000_000_000_000_003);
}

#[test]
fn claim_scenarios() {
    let d = deployed(10);
    assert_eq!(d.claim(OWNER, OWNER, 0), Err(DistError::NoFundsToClaim));
    let balance: u128 = 1234;
    let sent = d.claim(OWNER, OWNER, balance).unwrap();
    assert_eq!(sent, 1234);
    assert_eq!(balance - sent, 0);
}

#[test]
fn pause_reflects_last_call() {
    let mut d = deployed(10);
    assert!(!d.is_paused());
    d.pause(OWNER, OWNER).unwrap();
    d.pause(OWNER, OWNER).unwrap();
    assert!(d.is_paused());
    d.unpause(OWNER, OWNER).unwrap();
    assert!(!d.is_paused());
    d.unpause(OWNER, OWNER).unwrap();
    assert!(!d.is_paused());
    d.pause(OWNER, OWNER).unwrap();
    assert!(d.is_paused());
}

#[test]
fn not_paused_is_negation() {
    let mut d = deployed(10);
    assert!(d.not_paused());
    d.pause(OWNER, OWNER).unwrap();
    assert!(!d.not_paused());
}

#[test]
fn native_token_identifier() {
    assert!(is_native_token(b"EGLD"));
    assert!(!is_native_token(b"EGL"));
    assert!(!is_native_token(TOKEN));
    assert!(!is_native_token(b""));
}

#[test]
fn error_messages() {
    assert_eq!(DistError::ZeroPayment.message(), "zero, really??");
    assert_eq!(DistError::SalePaused.message(), "Sale has been paused");
    assert_eq!(DistError::NoFundsToClaim.message(), "No funds to claim!");
    assert_eq!(DistError::InvalidToken.message(), "Invalid token!");
    assert_eq!(DistError::Unauthorized.message(), "Endpoint can only be called by owner");
    assert_eq!(DistError::BuyLimitExceeded.message(), "Buy limit exceeded");
    assert_eq!(DistError::InsufficientInventory.message(), "Not enough tokens available.");
    assert_eq!(DistError::DivisionByZero.message(), "division by zero");
}

#[test]
fn restored_storage_is_used() {
    let mut d = SaleContract::from_storage(Some(TOKEN.to_vec()), Some(4), Some(40), 9, true);
    assert_eq!(d.get_distributable_token_id(), Some(TOKEN.to_vec()));
    assert_eq!(d.get_distributable_price(), Some(4));
    assert_eq!(d.get_buy_limit(), Some(40));
    assert_eq!(d.get_burned_amount(), 9);
    assert!(d.is_paused());
    assert_eq!(d.buy(40, 100), Err(DistError::SalePaused));
    d.unpause(OWNER, OWNER).unwrap();
    assert_eq!(d.buy(41, 100), Err(DistError::BuyLimitExceeded));
    assert_eq!(d.buy(40, 100), Ok(10));
    d.init(WRONG, 1);
    assert_eq!(d.get_distributable_price(), Some(4));
    assert_eq!(d.burn(TOKEN, 1), Ok(1));
    assert_eq!(d.get_burned_amount(), 10);
}

#[test]
fn burn_up_to_the_largest_total() {
    let mut d = SaleContract::from_storage(Some(TOKEN.to_vec()), Some(1), None, u128::MAX - 5, false);
    assert_eq!(d.burn(TOKEN, 5), Ok(5));
    assert_eq!(d.get_burned_amount(), u128::MAX);
}
