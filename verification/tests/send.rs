use cleardevil::send::{send_accepts, send_start, send_step, SendAction, SendEvent, SendFailure, SendPhase};

/// Drives a session: the device reports `connected`, holds `answers.len()`
/// characteristics, and characteristic `i` answers `answers[i]`. Returns the
/// actions asked for, in order.
fn drive(connected: bool, answers: &[bool]) -> Vec<SendAction> {
    let (mut phase, mut action) = send_start();
    let mut actions = vec![action];
    loop {
        let event = match action {
            SendAction::CheckConnection => SendEvent::ConnectionChecked(connected),
            SendAction::Connect => SendEvent::Connected,
            SendAction::DiscoverServices => SendEvent::ServicesDiscovered(answers.len()),
            SendAction::Write(i) => SendEvent::WriteCompleted(answers[i]),
            SendAction::Succeed | SendAction::Fail(_) => return actions,
        };
        assert!(send_accepts(phase, event));
        let (p, a) = send_step(phase, event);
        phase = p;
        action = a;
        actions.push(action);
    }
}

#[test]
fn connected_device_first_characteristic_accepts() {
    assert_eq!(
        drive(true, &[true, true]),
        vec![SendAction::CheckConnection, SendAction::DiscoverServices, SendAction::Write(0), SendAction::Succeed]
    );
}

#[test]
fn disconnected_device_is_connected_first() {
    assert_eq!(
        drive(false, &[false, true, false]),
        vec![
            SendAction::CheckConnection,
            SendAction::Connect,
            SendAction::DiscoverServices,
            SendAction::Write(0),
            SendAction::Write(1),
            SendAction::Succeed,
        ]
    );
}

#[test]
fn no_characteristic_accepts() {
    assert_eq!(
        drive(true, &[false, false]),
        vec![
            SendAction::CheckConnection,
            SendAction::DiscoverServices,
            SendAction::Write(0),
            SendAction::Write(1),
            SendAction::Fail(SendFailure::NoWritableCharacteristic),
        ]
    );
}

#[test]
fn device_without_characteristics() {
    assert_eq!(
        drive(true, &[]),
        vec![
            SendAction::CheckConnection,
            SendAction::DiscoverServices,
            SendAction::Fail(SendFailure::NoWritableCharacteristic),
        ]
    );
}

#[test]
fn failed_calls_end_the_session() {
    let (p, _) = send_start();
    assert_eq!(send_step(p, SendEvent::CallFailed), (SendPhase::Finished, SendAction::Fail(SendFailure::CallFailed)));
    let (p, _) = send_step(p, SendEvent::ConnectionChecked(false));
    assert_eq!(send_step(p, SendEvent::CallFailed).1, SendAction::Fail(SendFailure::CallFailed));
    let (p, _) = send_step(p, SendEvent::Connected);
    assert_eq!(send_step(p, SendEvent::CallFailed).1, SendAction::Fail(SendFailure::CallFailed));
}

#[test]
fn events_that_cannot_follow() {
    assert!(!send_accepts(SendPhase::Finished, SendEvent::Connected));
    assert!(!send_accepts(SendPhase::CheckingConnection, SendEvent::WriteCompleted(true)));
    assert!(!send_accepts(SendPhase::Writing { next: 0, total: 2 }, SendEvent::CallFailed));
    assert!(!send_accepts(SendPhase::Writing { next: 2, total: 2 }, SendEvent::WriteCompleted(true)));
    assert!(send_accepts(SendPhase::Writing { next: 1, total: 2 }, SendEvent::WriteCompleted(true)));
}
