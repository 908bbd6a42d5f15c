use ping_pong::asset::AssetId;
use ping_pong::errors::PingPongError;
use ping_pong::machine::{Payout, PingPong};

const ASSET: AssetId = AssetId::Token(42);
const OWNER: u64 = 1;
const PARTY: u64 = 2;

fn setup() -> PingPong {
    PingPong::init(100, 3600, Some(ASSET), OWNER).unwrap()
}

#[test]
fn init_rejects_zero_amount() {
    let r = PingPong::init(0, 3600, Some(ASSET), OWNER);
    assert_eq!(r.err(), Some(PingPongError::PingAmountCannotBeZero));
}

#[test]
fn init_rejects_zero_duration() {
    let r = PingPong::init(100, 0, Some(ASSET), OWNER);
    assert_eq!(r.err(), Some(PingPongError::DurationCannotBeZero));
}

#[test]
fn init_records_configuration() {
    let m = setup();
    assert_eq!(m.get_accepted_payment_token(), ASSET);
    assert_eq!(m.get_ping_amount(), 100);
    assert_eq!(m.get_duration_timestamp(), 3600);
    assert_eq!(m.get_owner(), OWNER);
    assert!(!m.get_paused());
    assert!(!m.did_user_ping(PARTY));
}

#[test]
fn init_defaults_to_native_asset() {
    let m = PingPong::init(5, 60, None, OWNER).unwrap();
    assert_eq!(m.get_accepted_payment_token(), AssetId::Native);
}

#[test]
fn deposit_creates_lock_and_deadline() {
    let mut m = setup();
    assert_eq!(m.ping(PARTY, ASSET, 100, 1000), Ok(()));
    assert!(m.did_user_ping(PARTY));
    assert_eq!(m.get_user_ping_timestamp(PARTY), 1000);
    assert_eq!(m.get_pong_enable_timestamp(PARTY), 1000 + 3600);
}

#[test]
fn deposit_rejects_wrong_asset() {
    let mut m = setup();
    let r = m.ping(PARTY, AssetId::Token(43), 100, 1000);
    assert_eq!(r, Err(PingPongError::InvalidPaymentToken));
    assert!(!m.did_user_ping(PARTY));
}

#[test]
fn deposit_rejects_wrong_amount() {
    let mut m = setup();
    let r = m.ping(PARTY, ASSET, 99, 1000);
    assert_eq!(r, Err(PingPongError::IncorrectPingAmount));
    assert!(!m.did_user_ping(PARTY));
}

#[test]
fn second_deposit_rejected_state_unchanged() {
    let mut m = setup();
    assert_eq!(m.ping(PARTY, ASSET, 100, 1000), Ok(()));
    let r = m.ping(PARTY, ASSET, 100, 2000);
    assert_eq!(r, Err(PingPongError::AlreadyPinged));
    assert_eq!(m.get_user_ping_timestamp(PARTY), 1000);
    assert_eq!(m.get_pong_enable_timestamp(PARTY), 4600);
}

#[test]
fn withdraw_before_deadline_rejected() {
    let mut m = setup();
    assert_eq!(m.ping(PARTY, ASSET, 100, 1000), Ok(()));
    let r = m.pong(PARTY, 4599);
    assert_eq!(r, Err(PingPongError::CannotPongBeforeDeadline));
    assert!(m.did_user_ping(PARTY));
}

#[test]
fn round_trip_pays_out_exactly_once() {
    let mut m = setup();
    assert_eq!(m.ping(PARTY, ASSET, 100, 1000), Ok(()));
    let r = m.pong(PARTY, 4600);
    assert_eq!(r, Ok(Payout { asset: ASSET, amount: 100 }));
    assert!(!m.did_user_ping(PARTY));
    let again = m.pong(PARTY, 5000);
    assert_eq!(again, Err(PingPongError::NoPingFound));
}

#[test]
fn withdraw_without_lock_rejected() {
    let mut m = setup();
    assert_eq!(m.pong(PARTY, 10_000), Err(PingPongError::NoPingFound));
}

#[test]
fn pause_gates_every_mutating_operation() {
    let mut m = setup();
    assert_eq!(m.ping(3, ASSET, 100, 50), Ok(()));
    assert_eq!(m.pause(OWNER), Ok(()));
    assert!(m.get_paused());
    assert_eq!(m.ping(PARTY, ASSET, 100, 1000), Err(PingPongError::ContractPaused));
    assert_eq!(m.pong(3, u64::MAX / 2), Err(PingPongError::ContractPaused));
    assert_eq!(m.extend_ping_duration(3, 10), Err(PingPongError::ContractPaused));
    // Views and owner operations stay available while paused.
    assert!(m.did_user_ping(3));
    assert_eq!(m.get_pong_enable_timestamp(3), 3650);
    assert_eq!(m.unpause(OWNER), Ok(()));
    assert!(!m.get_paused());
    assert_eq!(m.ping(PARTY, ASSET, 100, 1000), Ok(()));
}

#[test]
fn extension_moves_deadline_forward() {
    let mut m = setup();
    assert_eq!(m.ping(PARTY, ASSET, 100, 1000), Ok(()));
    let before = m.get_pong_enable_timestamp(PARTY);
    assert_eq!(m.extend_ping_duration(PARTY, 250), Ok(()));
    assert_eq!(m.get_pong_enable_timestamp(PARTY), before + 250);
    assert_eq!(m.get_user_ping_timestamp(PARTY), 1250);
}

#[test]
fn zero_extension_rejected() {
    let mut m = setup();
    assert_eq!(m.ping(PARTY, ASSET, 100, 1000), Ok(()));
    let r = m.extend_ping_duration(PARTY, 0);
    assert_eq!(r, Err(PingPongError::InvalidExtensionAmount));
    assert_eq!(m.get_pong_enable_timestamp(PARTY), 4600);
}

#[test]
fn extension_without_lock_rejected() {
    let mut m = setup();
    assert_eq!(m.extend_ping_duration(PARTY, 10), Err(PingPongError::NoPingFound));
}

#[test]
fn owner_exclusivity() {
    let mut m = setup();
    assert_eq!(m.pause(PARTY), Err(PingPongError::OnlyOwnerCanPerformThisAction));
    assert!(!m.get_paused());
    assert_eq!(m.unpause(PARTY), Err(PingPongError::OnlyOwnerCanPerformThisAction));
    assert_eq!(m.upgrade(PARTY, 7, 7), Err(PingPongError::OnlyOwnerCanPerformThisAction));
    assert_eq!(m.get_ping_amount(), 100);
    assert_eq!(m.get_duration_timestamp(), 3600);
}

#[test]
fn retune_replaces_parameters() {
    let mut m = setup();
    assert_eq!(m.upgrade(OWNER, 250, 60), Ok(()));
    assert_eq!(m.get_ping_amount(), 250);
    assert_eq!(m.get_duration_timestamp(), 60);
    assert_eq!(m.get_accepted_payment_token(), ASSET);
}

#[test]
fn retune_rejects_zero_parameters() {
    let mut m = setup();
    assert_eq!(m.upgrade(OWNER, 0, 60), Err(PingPongError::PingAmountCannotBeZero));
    assert_eq!(m.upgrade(OWNER, 250, 0), Err(PingPongError::DurationCannotBeZero));
    assert_eq!(m.get_ping_amount(), 100);
    assert_eq!(m.get_duration_timestamp(), 3600);
}

#[test]
fn retune_changes_pending_deadlines() {
    let mut m = setup();
    assert_eq!(m.ping(PARTY, ASSET, 100, 1000), Ok(()));
    assert!(m.retune_fits(7200));
    assert_eq!(m.upgrade(OWNER, 100, 7200), Ok(()));
    assert_eq!(m.get_pong_enable_timestamp(PARTY), 1000 + 7200);
}

#[test]
fn retune_fits_detects_unrepresentable_deadline() {
    let mut m = setup();
    assert_eq!(m.ping(PARTY, ASSET, 100, u64::MAX - 4000), Ok(()));
    assert!(m.retune_fits(4000));
    assert!(!m.retune_fits(4001));
}

#[test]
fn example_scenario() {
    let asset_a = AssetId::Token(7);
    let mut m = PingPong::init(100, 3600, Some(asset_a), OWNER).unwrap();
    let x: u64 = 9;
    assert_eq!(m.ping(x, asset_a, 100, 1000), Ok(()));
    assert_eq!(m.get_pong_enable_timestamp(x), 4600);
    assert_eq!(m.pong(x, 4000), Err(PingPongError::CannotPongBeforeDeadline));
    let r = m.pong(x, 4600);
    assert_eq!(r, Ok(Payout { asset: asset_a, amount: 100 }));
    assert!(!m.did_user_ping(x));
}
