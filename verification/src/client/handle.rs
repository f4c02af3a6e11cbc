//! Client side of the control channel: the hello it sends, its reading of the
//! server's answer and its decisions on a running channel.

use crate::protocol::{
    ChannelEvent, ChannelFault, Command, CommandModel, ProtocolDigest, ProtocolError,
    lemma_encode_decode_roundtrip, spec_decode, spec_encode,
};
use crate::services::handle::{spec_control_step, spec_hello_digest, ControlAction, HandleError};
use crate::utils::{digest, sha256_digest};
use vstd::prelude::*;

verus! {

/// Heartbeat timeout of a new client channel, in seconds.
pub const DEFAULT_HEARTBEAT_TIMEOUT: u64 = 10;

/// The digest under which the server knows the service named `name`: the
/// SHA-256 digest of its UTF-8 bytes.
pub fn service_digest(name: &str) -> (d: ProtocolDigest)
    ensures
        d@ == sha256_digest(vstd::utf8::encode_utf8(name@)),
{
    digest(name.as_bytes())
}

/// The hello that requests the service named `name`.
pub fn hello_command(name: &str) -> (c: Command)
    ensures
        c@ == (CommandModel::Hello { service: sha256_digest(vstd::utf8::encode_utf8(name@)) }),
{
    Command::Hello { service: service_digest(name) }
}

/// Why the server refused the client's hello.
#[derive(Debug, Clone, Copy, PartialEq, Eq)]
pub enum AuthReplyError {
    /// The server answered with a negative acknowledgement.
    ServiceNotFound { error_type: u32 },
    /// The server answered with something that is no acknowledgement.
    Rejected,
}

/// What the client makes of the server's answer to its hello.
pub open spec fn spec_auth_reply(c: CommandModel) -> Result<(), AuthReplyError> {
    match c {
        CommandModel::AckOk => Ok(()),
        CommandModel::ErrorAck { error_type } => Err(AuthReplyError::ServiceNotFound { error_type }),
        _ => Err(AuthReplyError::Rejected),
    }
}

/// The client's reading of the server's answer to its hello: a positive
/// acknowledgement completes the authentication, a negative one means that
/// the service is unknown, anything else is a refusal.
pub fn check_auth_reply(reply: Command) -> (r: Result<(), AuthReplyError>)
    ensures
        r == spec_auth_reply(reply@),
        r is Ok <==> reply is AckOk,
        reply matches Command::ErrorAck { error_type } ==> r == Err::<(), AuthReplyError>(
            AuthReplyError::ServiceNotFound { error_type },
        ),
        !(reply is AckOk) && !(reply is ErrorAck) ==> r == Err::<(), AuthReplyError>(
            AuthReplyError::Rejected,
        ),
{
    match reply {
        Command::AckOk => Ok(()),
        Command::ErrorAck { error_type } => Err(AuthReplyError::ServiceNotFound { error_type }),
        _ => Err(AuthReplyError::Rejected),
    }
}

/// The client's decision on one event of a running control channel with a
/// heartbeat timeout of `heartbeat_timeout` seconds (0: no timer).
pub open spec fn spec_transmission_step(heartbeat_timeout: u64, event: ChannelEvent) -> Result<
    (),
    ChannelFault,
> {
    match event {
        ChannelEvent::Received(Command::Heartbeat) => Ok(()),
        ChannelEvent::Received(_) => Err(ChannelFault::UnexpectedCommand),
        ChannelEvent::HeartbeatElapsed => if heartbeat_timeout > 0 {
            Err(ChannelFault::HeartbeatTimeout)
        } else {
            Ok(())
        },
    }
}

/// The client's decision on one event of a running control channel: a
/// heartbeat keeps it (`Ok`), any other command is a protocol error, and the
/// end of the heartbeat interval stops it when the timer is on.
pub fn transmission_step(heartbeat_timeout: u64, event: ChannelEvent) -> (r: Result<
    (),
    ChannelFault,
>)
    ensures
        r == spec_transmission_step(heartbeat_timeout, event),
        event matches ChannelEvent::Received(c) ==> (r is Ok <==> c is Heartbeat),
        event matches ChannelEvent::Received(c) && !(c is Heartbeat) ==> r == Err::<
            (),
            ChannelFault,
        >(ChannelFault::UnexpectedCommand),
        event is HeartbeatElapsed ==> (r is Ok <==> heartbeat_timeout == 0),
        event is HeartbeatElapsed && heartbeat_timeout > 0 ==> r == Err::<(), ChannelFault>(
            ChannelFault::HeartbeatTimeout,
        ),
{
    match event {
        ChannelEvent::Received(Command::Heartbeat) => Ok(()),
        ChannelEvent::Received(_) => Err(ChannelFault::UnexpectedCommand),
        ChannelEvent::HeartbeatElapsed => if heartbeat_timeout > 0 {
            Err(ChannelFault::HeartbeatTimeout)
        } else {
            Ok(())
        },
    }
}

// ---------------------------------------------------------------------------
// Laws of the handshake and of running channels

/// A hello for the digest `d`, written by the client and read by the server,
/// is accepted with exactly that digest; the server's positive
/// acknowledgement, written and read back, completes the client's
/// authentication.
pub proof fn lemma_handshake_between_peers(d: Seq<u8>)
    requires
        d.len() == 32,
    ensures
        spec_decode(spec_encode(CommandModel::Hello { service: d })) == Ok::<
            (nat, CommandModel),
            ProtocolError,
        >((33, CommandModel::Hello { service: d })),
        spec_hello_digest(CommandModel::Hello { service: d }) == Ok::<Seq<u8>, HandleError>(d),
        spec_decode(spec_encode(CommandModel::AckOk)) == Ok::<(nat, CommandModel), ProtocolError>(
            (1, CommandModel::AckOk),
        ),
        spec_auth_reply(CommandModel::AckOk) == Ok::<(), AuthReplyError>(()),
{
    lemma_encode_decode_roundtrip(CommandModel::Hello { service: d });
    lemma_encode_decode_roundtrip(CommandModel::AckOk);
}

/// A heartbeat keeps a running channel open at both ends, and without a
/// heartbeat timer the end of an interval closes neither end.
pub proof fn lemma_heartbeat_keeps_channel(heartbeats: u64)
    ensures
        spec_control_step(heartbeats, ChannelEvent::Received(Command::Heartbeat))
            == ControlAction::Continue,
        spec_transmission_step(heartbeats, ChannelEvent::Received(Command::Heartbeat)) == Ok::<
            (),
            ChannelFault,
        >(()),
        spec_control_step(0, ChannelEvent::HeartbeatElapsed) == ControlAction::Continue,
        spec_transmission_step(0, ChannelEvent::HeartbeatElapsed) == Ok::<(), ChannelFault>(()),
        heartbeats > 0 ==> spec_control_step(heartbeats, ChannelEvent::HeartbeatElapsed)
            == ControlAction::Close(ChannelFault::HeartbeatTimeout),
        heartbeats > 0 ==> spec_transmission_step(heartbeats, ChannelEvent::HeartbeatElapsed)
            == Err::<(), ChannelFault>(ChannelFault::HeartbeatTimeout),
{
}

/// A data connect request written by the client and read by the server opens
/// a TCP data connection for its port when its transport type is 0 and a UDP
/// one when it is 1.
pub proof fn lemma_data_connect_reaches_server(heartbeats: u64, transmission_type: u8, port: u64)
    ensures
        spec_decode(spec_encode(CommandModel::DataConnect { transmission_type, port })) == Ok::<
            (nat, CommandModel),
            ProtocolError,
        >((10, CommandModel::DataConnect { transmission_type, port })),
        transmission_type == 0 ==> spec_control_step(
            heartbeats,
            ChannelEvent::Received(Command::DataConnect { transmission_type, port }),
        ) == (ControlAction::OpenTcp { port }),
        transmission_type == 1 ==> spec_control_step(
            heartbeats,
            ChannelEvent::Received(Command::DataConnect { transmission_type, port }),
        ) == (ControlAction::OpenUdp { port }),
{
    lemma_encode_decode_roundtrip(CommandModel::DataConnect { transmission_type, port });
}

/// Only a positive acknowledgement authenticates the client: a negative one
/// means that the service is unknown, with its error code, and every other
/// answer is a refusal.
pub proof fn lemma_auth_reply_law(reply: CommandModel)
    ensures
        spec_auth_reply(reply) is Ok <==> reply is AckOk,
        reply matches CommandModel::ErrorAck { error_type } ==> spec_auth_reply(reply) == Err::<
            (),
            AuthReplyError,
        >(AuthReplyError::ServiceNotFound { error_type }),
        !(reply is AckOk) && !(reply is ErrorAck) ==> spec_auth_reply(reply) == Err::<
            (),
            AuthReplyError,
        >(AuthReplyError::Rejected),
{
}

/// On a running channel the client keeps going on a heartbeat and on nothing
/// else: any other command is a protocol error; the end of a heartbeat
/// interval stops it exactly when the timer is on.
pub proof fn lemma_transmission_law(heartbeat_timeout: u64, c: Command)
    ensures
        spec_transmission_step(heartbeat_timeout, ChannelEvent::Received(c)) is Ok <==> c is Heartbeat,
        !(c is Heartbeat) ==> spec_transmission_step(heartbeat_timeout, ChannelEvent::Received(c))
            == Err::<(), ChannelFault>(ChannelFault::UnexpectedCommand),
        spec_transmission_step(heartbeat_timeout, ChannelEvent::HeartbeatElapsed) is Ok
            <==> heartbeat_timeout == 0,
        heartbeat_timeout > 0 ==> spec_transmission_step(
            heartbeat_timeout,
            ChannelEvent::HeartbeatElapsed,
        ) == Err::<(), ChannelFault>(ChannelFault::HeartbeatTimeout),
{
}

/// On a running channel the server opens a TCP data connection for a data
/// connect request of transport type 0 and a UDP one for type 1, for the
/// requested port, ignores other types and heartbeats, and closes the
/// channel on any other command, or at the end of a heartbeat interval
/// exactly when the timer is on.
pub proof fn lemma_control_law(heartbeats: u64, c: Command)
    ensures
        c matches Command::DataConnect { transmission_type, port } ==> spec_control_step(
            heartbeats,
            ChannelEvent::Received(c),
        ) == (if transmission_type == 0u8 {
            ControlAction::OpenTcp { port }
        } else if transmission_type == 1u8 {
            ControlAction::OpenUdp { port }
        } else {
            ControlAction::Continue
        }),
        c is Heartbeat ==> spec_control_step(heartbeats, ChannelEvent::Received(c))
            == ControlAction::Continue,
        !(c is Heartbeat) && !(c is DataConnect) ==> spec_control_step(
            heartbeats,
            ChannelEvent::Received(c),
        ) == ControlAction::Close(ChannelFault::UnexpectedCommand),
        heartbeats == 0 ==> spec_control_step(heartbeats, ChannelEvent::HeartbeatElapsed)
            == ControlAction::Continue,
        heartbeats > 0 ==> spec_control_step(heartbeats, ChannelEvent::HeartbeatElapsed)
            == ControlAction::Close(ChannelFault::HeartbeatTimeout),
{
}

} // verus!
