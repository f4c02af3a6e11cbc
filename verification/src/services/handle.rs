//! Server side of the control channel: the registry of authenticated
//! services, the handshake decision and the control-loop decisions.

use crate::protocol::{
    ChannelEvent, ChannelFault, Command, CommandModel, ProtocolDigest, HASH_WIDTH_IN_BYTES,
};
use vstd::prelude::*;

verus! {

/// Kind of a connection that opens a control channel.
pub const CONTROL_CONNECT: u8 = 0u8;
/// Kind of a connection that carries forwarded data.
pub const DATA_CONNECT: u8 = 1u8;
/// Capacity of the channel of pending data connections.
pub const CHAN_SIZE: usize = 2048;
/// Size of the pool of data connections of a TCP service.
pub const TCP_SIZE: usize = 4;
/// Size of the pool of data connections of a UDP service.
pub const UDP_SIZE: usize = 2;
/// Heartbeat interval of a control channel, in seconds.
pub const HEART_BEATS: u64 = 60;

// ---------------------------------------------------------------------------
// Errors of the server end

/// Why the server end refuses a control channel.
#[derive(Debug, Clone, Copy, PartialEq, Eq)]
pub enum HandleError {
    AuthenticationFailed,
    AuthenticationTimeout,
    BadCommand,
}

#[verifier::external_type_specification]
#[verifier::external_body]
pub struct ExApplicationError(s2n_quic::application::Error);

/// The QUIC application error that `s2n_quic` builds from a one-byte code.
pub uninterp spec fn quic_application_error(code: u8) -> s2n_quic::application::Error;

/// `<s2n_quic::application::Error as From<u8>>::from`: the application error
/// with code `code` (a `VarInt` of that value). The contract names the result
/// as a function of the code; what is inside the opaque error is not stated.
#[verifier::external_body]
fn application_error_from_code(code: u8) -> (e: s2n_quic::application::Error)
    ensures
        e == quic_application_error(code),
{
    s2n_quic::application::Error::from(code)
}

impl HandleError {
    /// The QUIC application error code of each refusal.
    pub open spec fn spec_code(self) -> u8 {
        match self {
            HandleError::AuthenticationFailed => 2,
            HandleError::AuthenticationTimeout => 3,
            HandleError::BadCommand => 4,
        }
    }

    /// The QUIC application error code that closes the connection.
    pub fn application_code(&self) -> (c: u8)
        ensures
            c == self.spec_code(),
            *self == HandleError::AuthenticationFailed ==> c == 2u8,
            *self == HandleError::AuthenticationTimeout ==> c == 3u8,
            *self == HandleError::BadCommand ==> c == 4u8,
    {
        match self {
            HandleError::AuthenticationFailed => 2u8,
            HandleError::AuthenticationTimeout => 3u8,
            HandleError::BadCommand => 4u8,
        }
    }

    /// The QUIC application error that closes the connection.
    pub fn to_application_error(self) -> (e: s2n_quic::application::Error)
        ensures
            e == quic_application_error(self.spec_code()),
            self == HandleError::AuthenticationFailed ==> e == quic_application_error(2u8),
            self == HandleError::AuthenticationTimeout ==> e == quic_application_error(3u8),
            self == HandleError::BadCommand ==> e == quic_application_error(4u8),
    {
        application_error_from_code(self.application_code())
    }

    /// The text of each refusal.
    pub fn message(&self) -> (m: &'static str)
        ensures
            m@ == match self {
                HandleError::AuthenticationFailed => "authentication failed"@,
                HandleError::AuthenticationTimeout => "authentication timeout"@,
                HandleError::BadCommand => "bad command"@,
            },
    {
        match self {
            HandleError::AuthenticationFailed => "authentication failed",
            HandleError::AuthenticationTimeout => "authentication timeout",
            HandleError::BadCommand => "bad command",
        }
    }
}

// ---------------------------------------------------------------------------
// Handshake

/// What the server makes of the first command of a control stream: the digest
/// of the requested service if it is a hello, a refusal otherwise.
pub open spec fn spec_hello_digest(c: CommandModel) -> Result<Seq<u8>, HandleError> {
    match c {
        CommandModel::Hello { service } => Ok(service),
        _ => Err(HandleError::BadCommand),
    }
}

/// The digest of the requested service, from the first command of a control
/// stream; any command but a hello is refused. The server answers an accepted
/// hello with [`Command::AckOk`].
pub fn hello_digest(cmd: Command) -> (r: Result<ProtocolDigest, HandleError>)
    ensures
        match r {
            Ok(d) => spec_hello_digest(cmd@) == Ok::<Seq<u8>, HandleError>(d@),
            Err(e) => spec_hello_digest(cmd@) == Err::<Seq<u8>, HandleError>(e),
        },
        match cmd {
            Command::Hello { service } => r == Ok::<ProtocolDigest, HandleError>(service),
            _ => r == Err::<ProtocolDigest, HandleError>(HandleError::BadCommand),
        },
{
    match cmd {
        Command::Hello { service } => Ok(service),
        _ => Err(HandleError::BadCommand),
    }
}

// ---------------------------------------------------------------------------
// Control loop of an authenticated service

/// What the server does next on a running control channel.
#[derive(Debug, Clone, Copy, PartialEq, Eq)]
pub enum ControlAction {
    /// Keep waiting.
    Continue,
    /// Open a TCP data connection for `port`.
    OpenTcp { port: u64 },
    /// Open a UDP data connection for `port`.
    OpenUdp { port: u64 },
    /// Stop the channel.
    Close(ChannelFault),
}

/// The server's decision on one event of a running control channel with a
/// heartbeat interval of `heartbeats` seconds (0: no heartbeat timer).
pub open spec fn spec_control_step(heartbeats: u64, event: ChannelEvent) -> ControlAction {
    match event {
        ChannelEvent::Received(Command::DataConnect { transmission_type, port }) => {
            if transmission_type == 0 {
                ControlAction::OpenTcp { port }
            } else if transmission_type == 1 {
                ControlAction::OpenUdp { port }
            } else {
                ControlAction::Continue
            }
        },
        ChannelEvent::Received(Command::Heartbeat) => ControlAction::Continue,
        ChannelEvent::Received(_) => ControlAction::Close(ChannelFault::UnexpectedCommand),
        ChannelEvent::HeartbeatElapsed => if heartbeats > 0 {
            ControlAction::Close(ChannelFault::HeartbeatTimeout)
        } else {
            ControlAction::Continue
        },
    }
}

/// The server's decision on one event of a running control channel: a data
/// connect request opens a TCP (type 0) or UDP (type 1) data connection and
/// is ignored for other types, a heartbeat keeps the channel, any other
/// command closes it, and so does the end of a heartbeat interval when the
/// heartbeat timer is on.
pub fn control_step(heartbeats: u64, event: ChannelEvent) -> (a: ControlAction)
    ensures
        a == spec_control_step(heartbeats, event),
{
    match event {
        ChannelEvent::Received(Command::DataConnect { transmission_type, port }) => {
            if transmission_type == 0 {
                ControlAction::OpenTcp { port }
            } else if transmission_type == 1 {
                ControlAction::OpenUdp { port }
            } else {
                ControlAction::Continue
            }
        },
        ChannelEvent::Received(Command::Heartbeat) => ControlAction::Continue,
        ChannelEvent::Received(_) => ControlAction::Close(ChannelFault::UnexpectedCommand),
        ChannelEvent::HeartbeatElapsed => if heartbeats > 0 {
            ControlAction::Close(ChannelFault::HeartbeatTimeout)
        } else {
            ControlAction::Continue
        },
    }
}

// ---------------------------------------------------------------------------
// Listener of a forwarded TCP port

/// What the listener of a forwarded port observes.
#[derive(Debug, Clone, Copy, PartialEq, Eq)]
pub enum ListenerEvent {
    /// A visitor connected.
    Accepted,
    /// Accepting a visitor failed.
    AcceptFailed,
    /// The request for a data channel could not be sent.
    RequestFailed,
    /// Shutdown was signalled.
    Shutdown,
}

/// What the listener of a forwarded port does next.
#[derive(Debug, Clone, Copy, PartialEq, Eq)]
pub enum ListenerAction {
    /// Request a data channel and hand the visitor over.
    RequestDataChannel,
    /// Keep listening.
    Continue,
    /// Stop listening.
    Stop,
}

/// The listener's decision: a visitor leads to a data channel request, a
/// failed accept is skipped, and a failed request or a shutdown stops it.
pub fn listener_step(event: ListenerEvent) -> (a: ListenerAction)
    ensures
        a == match event {
            ListenerEvent::Accepted => ListenerAction::RequestDataChannel,
            ListenerEvent::AcceptFailed => ListenerAction::Continue,
            ListenerEvent::RequestFailed | ListenerEvent::Shutdown => ListenerAction::Stop,
        },
{
    match event {
        ListenerEvent::Accepted => ListenerAction::RequestDataChannel,
        ListenerEvent::AcceptFailed => ListenerAction::Continue,
        ListenerEvent::RequestFailed | ListenerEvent::Shutdown => ListenerAction::Stop,
    }
}

// ---------------------------------------------------------------------------
// Registry of authenticated services

/// The handles of the services that completed their handshake, keyed by
/// service digest; inserting under a digest that is present replaces its
/// handle.
pub struct ControlChannelMap<H> {
    entries: Vec<(ProtocolDigest, H)>,
}

/// No digest occurs twice among the entries.
pub open spec fn distinct_keys<H>(s: Seq<(ProtocolDigest, H)>) -> bool {
    forall|i: int, j: int| 0 <= i < j < s.len() ==> s[i].0@ != s[j].0@
}

/// The map that a sequence of entries stands for (a later entry wins).
pub open spec fn entries_map<H>(s: Seq<(ProtocolDigest, H)>) -> Map<Seq<u8>, H>
    decreases s.len(),
{
    if s.len() == 0 {
        Map::empty()
    } else {
        entries_map(s.drop_last()).insert(s.last().0@, s.last().1)
    }
}

proof fn lemma_entries_map_dom<H>(s: Seq<(ProtocolDigest, H)>, k: Seq<u8>)
    ensures
        entries_map(s).dom().contains(k) <==> exists|i: int| 0 <= i < s.len() && s[i].0@ == k,
    decreases s.len(),
{
    if s.len() > 0 {
        lemma_entries_map_dom(s.drop_last(), k);
        if entries_map(s).dom().contains(k) && k != s.last().0@ {
            let i = choose|i: int| 0 <= i < s.drop_last().len() && s.drop_last()[i].0@ == k;
            assert(s[i].0@ == k);
        }
        if exists|i: int| 0 <= i < s.len() && s[i].0@ == k {
            let i = choose|i: int| 0 <= i < s.len() && s[i].0@ == k;
            if i < s.len() - 1 {
                assert(s.drop_last()[i].0@ == k);
            }
        }
    }
}

proof fn lemma_entries_map_value<H>(s: Seq<(ProtocolDigest, H)>, i: int)
    requires
        distinct_keys(s),
        0 <= i < s.len(),
    ensures
        entries_map(s).dom().contains(s[i].0@),
        entries_map(s)[s[i].0@] == s[i].1,
    decreases s.len(),
{
    if i < s.len() - 1 {
        let t = s.drop_last();
        assert(t[i] == s[i]);
        assert(distinct_keys(t));
        lemma_entries_map_value(t, i);
        assert(s[i].0@ != s.last().0@);
    }
}

proof fn lemma_entries_map_len<H>(s: Seq<(ProtocolDigest, H)>)
    requires
        distinct_keys(s),
    ensures
        entries_map(s).dom().finite(),
        entries_map(s).dom().len() == s.len(),
    decreases s.len(),
{
    if s.len() > 0 {
        let t = s.drop_last();
        assert(distinct_keys(t));
        lemma_entries_map_len(t);
        lemma_entries_map_dom(t, s.last().0@);
        if entries_map(t).dom().contains(s.last().0@) {
            let i = choose|i: int| 0 <= i < t.len() && t[i].0@ == s.last().0@;
            assert(s[i].0@ == s[s.len() - 1].0@);
        }
    }
}

proof fn lemma_entries_map_update<H>(s: Seq<(ProtocolDigest, H)>, i: int, v: H)
    requires
        distinct_keys(s),
        0 <= i < s.len(),
    ensures
        entries_map(s.update(i, (s[i].0, v))) =~= entries_map(s).insert(s[i].0@, v),
    decreases s.len(),
{
    let u = s.update(i, (s[i].0, v));
    assert(u.len() == s.len());
    if i == s.len() - 1 {
        assert(u.drop_last() =~= s.drop_last());
    } else {
        let t = s.drop_last();
        assert(t[i] == s[i]);
        assert(u.drop_last() =~= t.update(i, (t[i].0, v)));
        assert(distinct_keys(t));
        lemma_entries_map_update(t, i, v);
        assert(u.last() == s.last());
        assert(s[i].0@ != s.last().0@);
    }
}

impl<H> ControlChannelMap<H> {
    /// The registry as a map from digest bytes to handles.
    pub closed spec fn as_map(&self) -> Map<Seq<u8>, H> {
        entries_map(self.entries@)
    }

    /// No digest is registered twice.
    pub closed spec fn well_formed(&self) -> bool {
        distinct_keys(self.entries@)
    }

    /// An empty registry.
    pub fn new() -> (m: Self)
        ensures
            m.well_formed(),
            m.as_map() == Map::<Seq<u8>, H>::empty(),
    {
        ControlChannelMap { entries: Vec::new() }
    }

    /// The position of `key` among the entries, if it is registered.
    fn find(&self, key: &ProtocolDigest) -> (r: Option<usize>)
        ensures
            match r {
                Some(i) => i < self.entries@.len() && self.entries@[i as int].0@ == key@,
                None => forall|i: int|
                    0 <= i < self.entries@.len() ==> self.entries@[i].0@ != key@,
            },
    {
        let n = self.entries.len();
        let mut i: usize = 0;
        while i < n
            invariant
                i <= n,
                n == self.entries@.len(),
                forall|j: int| 0 <= j < i ==> self.entries@[j].0@ != key@,
            decreases n - i,
        {
            if digest_eq(&self.entries[i].0, key) {
                return Some(i);
            }
            i = i + 1;
        }
        None
    }

    /// The number of registered services.
    pub fn len(&self) -> (n: usize)
        requires
            self.well_formed(),
        ensures
            n == self.as_map().len(),
    {
        proof {
            lemma_entries_map_len(self.entries@);
        }
        self.entries.len()
    }

    /// The handle registered under `key`, if any.
    pub fn get(&self, key: &ProtocolDigest) -> (r: Option<&H>)
        requires
            self.well_formed(),
        ensures
            r == (if self.as_map().dom().contains(key@) {
                Some(&self.as_map()[key@])
            } else {
                None
            }),
    {
        proof {
            lemma_entries_map_dom(self.entries@, key@);
        }
        match self.find(key) {
            Some(i) => {
                proof {
                    lemma_entries_map_value(self.entries@, i as int);
                }
                Some(&self.entries[i].1)
            },
            None => None,
        }
    }

    /// Registers `value` under `key`; returns the handle that it replaces.
    pub fn insert(&mut self, key: ProtocolDigest, value: H) -> (r: Option<H>)
        requires
            old(self).well_formed(),
        ensures
            final(self).well_formed(),
            final(self).as_map() == old(self).as_map().insert(key@, value),
            r == (if old(self).as_map().dom().contains(key@) {
                Some(old(self).as_map()[key@])
            } else {
                None
            }),
    {
        proof {
            lemma_entries_map_dom(self.entries@, key@);
        }
        match self.find(&key) {
            Some(i) => {
                let ghost s = self.entries@;
                proof {
                    lemma_entries_map_value(s, i as int);
                    lemma_entries_map_update(s, i as int, value);
                }
                let (k, old_value) = self.entries.remove(i);
                self.entries.insert(i, (k, value));
                assert(self.entries@ =~= s.update(i as int, (s[i as int].0, value)));
                Some(old_value)
            },
            None => {
                let ghost s = self.entries@;
                self.entries.push((key, value));
                assert(self.entries@.drop_last() =~= s);
                None
            },
        }
    }
}

/// Whether two digests hold the same bytes.
pub fn digest_eq(a: &ProtocolDigest, b: &ProtocolDigest) -> (r: bool)
    ensures
        r == (a@ == b@),
{
    let mut i: usize = 0;
    while i < HASH_WIDTH_IN_BYTES
        invariant
            i <= HASH_WIDTH_IN_BYTES,
            a@.len() == HASH_WIDTH_IN_BYTES,
            b@.len() == HASH_WIDTH_IN_BYTES,
            forall|j: int| 0 <= j < i ==> a@[j] == b@[j],
        decreases HASH_WIDTH_IN_BYTES - i,
    {
        if a[i] != b[i] {
            return false;
        }
        i = i + 1;
    }
    assert(a@ =~= b@);
    true
}

// ---------------------------------------------------------------------------
// Laws of the registry

/// After a service is registered under `key`, looking `key` up gives its
/// handle, every other digest keeps what it had, and the registry grows by
/// one exactly when `key` was new.
pub proof fn lemma_register_then_lookup<H>(
    before: ControlChannelMap<H>,
    after: ControlChannelMap<H>,
    key: ProtocolDigest,
    value: H,
    other: ProtocolDigest,
)
    requires
        before.well_formed(),
        after.as_map() == before.as_map().insert(key@, value),
    ensures
        after.as_map().dom().contains(key@),
        after.as_map()[key@] == value,
        other@ != key@ ==> (after.as_map().dom().contains(other@) <==> before.as_map().dom().contains(
            other@,
        )),
        other@ != key@ && before.as_map().dom().contains(other@) ==> after.as_map()[other@]
            == before.as_map()[other@],
        after.as_map().len() == before.as_map().len() + (if before.as_map().dom().contains(key@) {
            0int
        } else {
            1int
        }),
{
    lemma_entries_map_len(before.entries@);
}

} // verus!
