use ping_pong::asset::AssetId;
use ping_pong::errors::PingPongError;
use ping_pong::machine::PingPong;

#[test]
fn time_to_pong_without_lock() {
    let m = PingPong::init(100, 3600, None, 1).unwrap();
    assert_eq!(m.get_time_to_pong(2, 1000), None);
}

#[test]
fn time_to_pong_counts_down_and_floors_at_zero() {
    let mut m = PingPong::init(100, 3600, None, 1).unwrap();
    assert_eq!(m.ping(2, AssetId::Native, 100, 1000), Ok(()));
    assert_eq!(m.get_time_to_pong(2, 1000), Some(3600));
    assert_eq!(m.get_time_to_pong(2, 4599), Some(1));
    assert_eq!(m.get_time_to_pong(2, 4600), Some(0));
    assert_eq!(m.get_time_to_pong(2, 9999), Some(0));
}

#[test]
fn views_of_absent_party_return_zero() {
    let m = PingPong::init(100, 3600, None, 1).unwrap();
    assert_eq!(m.get_pong_enable_timestamp(2), 0);
    assert_eq!(m.get_user_ping_timestamp(2), 0);
    assert!(!m.did_user_ping(2));
}

#[test]
fn error_codes_are_stable() {
    assert_eq!(PingPongError::AlreadyPinged.code(), 0);
    assert_eq!(PingPongError::NoPingFound.code(), 1);
    assert_eq!(PingPongError::InvalidPaymentToken.code(), 2);
    assert_eq!(PingPongError::IncorrectPingAmount.code(), 3);
    assert_eq!(PingPongError::CannotPongBeforeDeadline.code(), 4);
    assert_eq!(PingPongError::DurationCannotBeZero.code(), 5);
    assert_eq!(PingPongError::PingAmountCannotBeZero.code(), 6);
    assert_eq!(PingPongError::OnlyOwnerCanPerformThisAction.code(), 7);
    assert_eq!(PingPongError::ContractPaused.code(), 8);
    assert_eq!(PingPongError::InvalidExtensionAmount.code(), 9);
}

#[test]
fn gate_check_runs_before_other_validation() {
    // While paused, even a call that would fail later checks reports the
    // gate first.
    let mut m = PingPong::init(100, 3600, None, 1).unwrap();
    assert_eq!(m.pause(1), Ok(()));
    let r = m.ping(2, AssetId::Token(9), 55, 1000);
    assert_eq!(r, Err(PingPongError::ContractPaused));
}

#[test]
fn pause_and_unpause_are_idempotent() {
    let mut m = PingPong::init(100, 3600, None, 1).unwrap();
    assert_eq!(m.pause(1), Ok(()));
    assert_eq!(m.pause(1), Ok(()));
    assert!(m.get_paused());
    assert_eq!(m.unpause(1), Ok(()));
    assert_eq!(m.unpause(1), Ok(()));
    assert!(!m.get_paused());
}
