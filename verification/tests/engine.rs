use granular::engine::{
    check_listen_address, check_sender_addresses, listener_step, synth_step, CommandPoll,
    GranularOscSenderError, LoopStep, OscReceiverCommand, OscReceiverError,
};

#[test]
fn listener_loop_steps() {
    assert_eq!(listener_step::<OscReceiverCommand>(CommandPoll::Empty), LoopStep::Work);
    assert_eq!(listener_step(CommandPoll::Received(OscReceiverCommand::Stop)), LoopStep::Stop);
    assert_eq!(listener_step::<OscReceiverCommand>(CommandPoll::Disconnected), LoopStep::Idle);
}

#[test]
fn synth_loop_steps() {
    assert_eq!(synth_step::<()>(CommandPoll::Empty), LoopStep::Work);
    assert_eq!(synth_step(CommandPoll::Received(())), LoopStep::Stop);
    assert_eq!(synth_step::<()>(CommandPoll::Disconnected), LoopStep::Stop);
}

#[test]
fn listen_address_errors_name_the_address() {
    assert!(check_listen_address(&"127.0.0.1:9666".to_string(), true).is_ok());
    match check_listen_address(&"localhost".to_string(), false) {
        Err(OscReceiverError::NotAValidAddress(a)) => assert_eq!(a, "localhost"),
        _ => panic!("expected an error"),
    }
}

#[test]
fn sender_addresses_checked_local_first() {
    let local = "bad-local".to_string();
    let remote = "bad-remote".to_string();
    assert!(check_sender_addresses(&local, true, &remote, true).is_ok());
    match check_sender_addresses(&local, false, &remote, false) {
        Err(GranularOscSenderError::NotAValidAddress(a)) => assert_eq!(a, "bad-local"),
        _ => panic!("expected an error"),
    }
    match check_sender_addresses(&local, true, &remote, false) {
        Err(GranularOscSenderError::NotAValidAddress(a)) => assert_eq!(a, "bad-remote"),
        _ => panic!("expected an error"),
    }
}
