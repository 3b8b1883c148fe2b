use desk_control::connect::{find_desk, next_connect_action, ConnectAction, RETRY_COUNT};
use desk_control::error::DeskError;

#[test]
fn find_desk_matches_exact_address() {
    let addresses = vec![0x112233445566, 0xAABBCCDDEEFF, 0x665544332211];
    assert_eq!(find_desk(&addresses, 0x665544332211), Ok(2));
    assert_eq!(find_desk(&addresses, 0x112233445566), Ok(0));
}

#[test]
fn find_desk_reports_absence_as_error() {
    let addresses = vec![0x112233445566, 0xAABBCCDDEEFF];
    assert_eq!(find_desk(&addresses, 0x010203040506), Err(DeskError::DeviceNotFound));
    let none: Vec<u64> = Vec::new();
    assert_eq!(find_desk(&none, 0x010203040506), Err(DeskError::DeviceNotFound));
}

#[test]
fn connect_success_uses_the_connection() {
    assert_eq!(next_connect_action(0, RETRY_COUNT, true), ConnectAction::Connected);
    assert_eq!(next_connect_action(2, RETRY_COUNT, true), ConnectAction::Connected);
}

#[test]
fn connect_failure_retries_until_last_attempt() {
    assert_eq!(next_connect_action(0, RETRY_COUNT, false), ConnectAction::RetryAfterDelay);
    assert_eq!(next_connect_action(1, RETRY_COUNT, false), ConnectAction::RetryAfterDelay);
}

#[test]
fn connect_failure_on_last_attempt_gives_up() {
    assert_eq!(next_connect_action(RETRY_COUNT - 1, RETRY_COUNT, false), ConnectAction::GiveUp);
    assert_eq!(next_connect_action(0, 1, false), ConnectAction::GiveUp);
}
