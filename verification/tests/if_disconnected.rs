use network_p2p_types::{IfDisconnected, RequestFailure, SendStep};

#[test]
fn try_connect_should_connect() {
    assert!(IfDisconnected::TryConnect.should_connect());
}

#[test]
fn immediate_error_should_not_connect() {
    assert!(!IfDisconnected::ImmediateError.should_connect());
}

#[test]
fn should_connect_tells_the_two_policies_apart() {
    for policy in [IfDisconnected::TryConnect, IfDisconnected::ImmediateError] {
        assert_eq!(policy.should_connect(), policy == IfDisconnected::TryConnect);
        assert_eq!(!policy.should_connect(), policy == IfDisconnected::ImmediateError);
    }
    assert_ne!(IfDisconnected::TryConnect, IfDisconnected::ImmediateError);
}

#[test]
fn policy_is_a_plain_value() {
    let policy = IfDisconnected::ImmediateError;
    let copy = policy;
    assert_eq!(policy, copy);
    assert_eq!(format!("{:?}", policy), "ImmediateError");
    assert_eq!(format!("{:?}", IfDisconnected::TryConnect), "TryConnect");
}

#[test]
fn immediate_error_fails_without_connecting() {
    let mut attempts = 0;
    let outcome = match IfDisconnected::ImmediateError.send_step(false) {
        Ok(SendStep::Connect) => {
            attempts += 1;
            Ok(())
        }
        Ok(SendStep::Send) => Ok(()),
        Err(failure) => Err(failure),
    };
    assert!(matches!(outcome, Err(RequestFailure::NotConnected)));
    assert_eq!(attempts, 0);
}

#[test]
fn try_connect_connects_first() {
    assert!(matches!(IfDisconnected::TryConnect.send_step(false), Ok(SendStep::Connect)));
}

#[test]
fn connected_destination_is_sent_to_under_either_policy() {
    assert!(matches!(IfDisconnected::TryConnect.send_step(true), Ok(SendStep::Send)));
    assert!(matches!(IfDisconnected::ImmediateError.send_step(true), Ok(SendStep::Send)));
}
