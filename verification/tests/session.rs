use red_quic::client::handle::{
    check_auth_reply, hello_command, service_digest, transmission_step, AuthReplyError,
    DEFAULT_HEARTBEAT_TIMEOUT,
};
use red_quic::protocol::{ChannelEvent, ChannelFault, Command};
use red_quic::services::auth::auth_outcome;
use red_quic::services::handle::{
    control_step, digest_eq, hello_digest, listener_step, ControlAction, ControlChannelMap,
    HandleError, ListenerAction, ListenerEvent,
};
use red_quic::utils::digest;

fn hex(d: &[u8]) -> String {
    d.iter().map(|b| format!("{:02x}", b)).collect()
}

#[test]
fn sha256_known_values() {
    assert_eq!(hex(&digest(b"")), "e3b0c44298fc1c149afbf4c8996fb92427ae41e4649b934ca495991b7852b855");
    assert_eq!(hex(&digest(b"abc")), "ba7816bf8f01cfea414140de5dae2223b00361a396177a9cb410ff61f20015ad");
}

#[test]
fn service_digest_is_digest_of_name() {
    assert_eq!(service_digest("test"), digest(b"test"));
    assert_ne!(service_digest("test"), digest(b"tesT"));
    assert_eq!(hello_command("web"), Command::Hello { service: digest(b"web") });
}

#[test]
fn server_accepts_only_hello() {
    let d = digest(b"svc");
    assert_eq!(hello_digest(Command::Hello { service: d }), Ok(d));
    assert_eq!(hello_digest(Command::AckOk), Err(HandleError::BadCommand));
    assert_eq!(hello_digest(Command::Heartbeat), Err(HandleError::BadCommand));
}

#[test]
fn handshake_over_the_wire() {
    let hello = hello_command("svc").encode();
    let (n, cmd) = Command::decode(&hello).unwrap();
    assert_eq!(n, 33);
    assert_eq!(hello_digest(cmd), Ok(service_digest("svc")));
    let ack = Command::AckOk.encode();
    assert_eq!(check_auth_reply(Command::decode(&ack).unwrap().1), Ok(()));
}

#[test]
fn client_reads_replies() {
    assert_eq!(check_auth_reply(Command::AckOk), Ok(()));
    assert_eq!(
        check_auth_reply(Command::ErrorAck { error_type: 0 }),
        Err(AuthReplyError::ServiceNotFound { error_type: 0 })
    );
    assert_eq!(check_auth_reply(Command::Heartbeat), Err(AuthReplyError::Rejected));
    assert_eq!(check_auth_reply(Command::Hello { service: [0; 32] }), Err(AuthReplyError::Rejected));
}

#[test]
fn handle_error_codes_and_messages() {
    assert_eq!(HandleError::AuthenticationFailed.application_code(), 2);
    assert_eq!(HandleError::AuthenticationTimeout.application_code(), 3);
    assert_eq!(HandleError::BadCommand.application_code(), 4);
    assert_eq!(u64::from(HandleError::AuthenticationFailed.to_application_error()), 2);
    assert_eq!(u64::from(HandleError::AuthenticationTimeout.to_application_error()), 3);
    assert_eq!(u64::from(HandleError::BadCommand.to_application_error()), 4);
    assert_eq!(HandleError::AuthenticationFailed.message(), "authentication failed");
    assert_eq!(HandleError::AuthenticationTimeout.message(), "authentication timeout");
    assert_eq!(HandleError::BadCommand.message(), "bad command");
}

#[test]
fn server_control_steps() {
    let ev = |c| ChannelEvent::Received(c);
    assert_eq!(
        control_step(60, ev(Command::DataConnect { transmission_type: 0, port: 22 })),
        ControlAction::OpenTcp { port: 22 }
    );
    assert_eq!(
        control_step(60, ev(Command::DataConnect { transmission_type: 1, port: 53 })),
        ControlAction::OpenUdp { port: 53 }
    );
    assert_eq!(
        control_step(60, ev(Command::DataConnect { transmission_type: 2, port: 53 })),
        ControlAction::Continue
    );
    assert_eq!(control_step(60, ev(Command::Heartbeat)), ControlAction::Continue);
    assert_eq!(
        control_step(60, ev(Command::AckOk)),
        ControlAction::Close(ChannelFault::UnexpectedCommand)
    );
    assert_eq!(
        control_step(60, ChannelEvent::HeartbeatElapsed),
        ControlAction::Close(ChannelFault::HeartbeatTimeout)
    );
    assert_eq!(control_step(0, ChannelEvent::HeartbeatElapsed), ControlAction::Continue);
}

#[test]
fn client_transmission_steps() {
    assert_eq!(DEFAULT_HEARTBEAT_TIMEOUT, 10);
    assert_eq!(transmission_step(10, ChannelEvent::Received(Command::Heartbeat)), Ok(()));
    assert_eq!(
        transmission_step(10, ChannelEvent::Received(Command::AckOk)),
        Err(ChannelFault::UnexpectedCommand)
    );
    assert_eq!(
        transmission_step(10, ChannelEvent::HeartbeatElapsed),
        Err(ChannelFault::HeartbeatTimeout)
    );
    assert_eq!(transmission_step(0, ChannelEvent::HeartbeatElapsed), Ok(()));
}

#[test]
fn listener_steps() {
    assert_eq!(listener_step(ListenerEvent::Accepted), ListenerAction::RequestDataChannel);
    assert_eq!(listener_step(ListenerEvent::AcceptFailed), ListenerAction::Continue);
    assert_eq!(listener_step(ListenerEvent::RequestFailed), ListenerAction::Stop);
    assert_eq!(listener_step(ListenerEvent::Shutdown), ListenerAction::Stop);
}

#[test]
fn auth_outcomes() {
    assert_eq!(auth_outcome(true, true), Some(false));
    assert_eq!(auth_outcome(true, false), Some(false));
    assert_eq!(auth_outcome(false, true), Some(true));
    assert_eq!(auth_outcome(false, false), None);
}

#[test]
fn digest_equality() {
    let a = digest(b"a");
    let mut b = a;
    assert!(digest_eq(&a, &b));
    b[31] ^= 1;
    assert!(!digest_eq(&a, &b));
}

#[test]
fn registry_insert_get_len() {
    let a = digest(b"a");
    let b = digest(b"b");
    let mut m: ControlChannelMap<u32> = ControlChannelMap::new();
    assert_eq!(m.len(), 0);
    assert_eq!(m.get(&a), None);
    assert_eq!(m.insert(a, 1), None);
    assert_eq!(m.insert(b, 2), None);
    assert_eq!(m.len(), 2);
    assert_eq!(m.get(&a), Some(&1));
    assert_eq!(m.insert(a, 3), Some(1));
    assert_eq!(m.len(), 2);
    assert_eq!(m.get(&a), Some(&3));
    assert_eq!(m.get(&b), Some(&2));
}
