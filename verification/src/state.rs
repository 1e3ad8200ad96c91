//! The connection state machine and the packet registry for the stream
//! transport: each session moves Handshake -> Status or Login ->
//! Configuration -> Play, one step per state-transition packet, never
//! implicitly; the one protocol-defined exception walks back from Play to
//! Configuration for a resource reload. The registry maps a (state,
//! numeric id) pair to the packet kind registered there; an id with no
//! handler in the current state is reported, not acted on.

use vstd::prelude::*;

verus! {

/// The phase of a stream-transport session.
#[derive(Debug, Clone, Copy, PartialEq, Eq, Structural)]
pub enum ConnectionState {
    Handshake,
    Status,
    Login,
    Configuration,
    Play,
}

/// The phase of a datagram-transport session.
#[derive(Debug, Clone, Copy, PartialEq, Eq, Structural)]
pub enum RakNetState {
    Unconnected,
    Connected,
}

/// What the client asks for in its first packet.
#[derive(Debug, Clone, Copy, PartialEq, Eq, Structural)]
pub enum HandshakeIntent {
    Status,
    Login,
}

/// The serverbound packet kinds the registry knows, one per (state, id)
/// pair.
#[derive(Debug, Clone, Copy, PartialEq, Eq, Structural)]
pub enum PacketKind {
    /// Handshake: names the state the client intends to enter.
    Intention,
    /// Status: asks for the server list entry.
    StatusRequest,
    /// Status: asks for an echo to measure latency.
    PingRequest,
    /// Login: opens the login exchange.
    LoginStart,
    /// Login: answers the key exchange.
    EncryptionResponse,
    /// Login: confirms the login result; enters Configuration.
    LoginAcknowledged,
    /// Configuration: carries the client's settings.
    ClientInformation,
    /// Configuration: confirms the configuration; enters Play.
    FinishConfiguration,
    /// Play: answers a liveness probe.
    KeepAlive,
    /// Play: moves the player.
    PlayerPosition,
    /// Play: says something in chat.
    ChatMessage,
    /// Play: agrees to reconfigure; walks back to Configuration.
    ConfigurationAcknowledged,
}

impl PacketKind {
    /// The packet's numeric id, unique within its state.
    pub open spec fn spec_id(self) -> u32 {
        match self {
            PacketKind::Intention => 0x00,
            PacketKind::StatusRequest => 0x00,
            PacketKind::PingRequest => 0x01,
            PacketKind::LoginStart => 0x00,
            PacketKind::EncryptionResponse => 0x01,
            PacketKind::LoginAcknowledged => 0x03,
            PacketKind::ClientInformation => 0x00,
            PacketKind::FinishConfiguration => 0x03,
            PacketKind::KeepAlive => 0x1A,
            PacketKind::PlayerPosition => 0x1C,
            PacketKind::ChatMessage => 0x07,
            PacketKind::ConfigurationAcknowledged => 0x0E,
        }
    }

    /// The one state this packet is legal in.
    pub open spec fn spec_state(self) -> ConnectionState {
        match self {
            PacketKind::Intention => ConnectionState::Handshake,
            PacketKind::StatusRequest => ConnectionState::Status,
            PacketKind::PingRequest => ConnectionState::Status,
            PacketKind::LoginStart => ConnectionState::Login,
            PacketKind::EncryptionResponse => ConnectionState::Login,
            PacketKind::LoginAcknowledged => ConnectionState::Login,
            PacketKind::ClientInformation => ConnectionState::Configuration,
            PacketKind::FinishConfiguration => ConnectionState::Configuration,
            PacketKind::KeepAlive => ConnectionState::Play,
            PacketKind::PlayerPosition => ConnectionState::Play,
            PacketKind::ChatMessage => ConnectionState::Play,
            PacketKind::ConfigurationAcknowledged => ConnectionState::Play,
        }
    }

    /// The packet's numeric id.
    pub fn id(&self) -> (r: u32)
        ensures
            r == self.spec_id(),
    {
        match self {
            PacketKind::Intention => 0x00,
            PacketKind::StatusRequest => 0x00,
            PacketKind::PingRequest => 0x01,
            PacketKind::LoginStart => 0x00,
            PacketKind::EncryptionResponse => 0x01,
            PacketKind::LoginAcknowledged => 0x03,
            PacketKind::ClientInformation => 0x00,
            PacketKind::FinishConfiguration => 0x03,
            PacketKind::KeepAlive => 0x1A,
            PacketKind::PlayerPosition => 0x1C,
            PacketKind::ChatMessage => 0x07,
            PacketKind::ConfigurationAcknowledged => 0x0E,
        }
    }

    /// The one state this packet is legal in.
    pub fn expected_state(&self) -> (r: ConnectionState)
        ensures
            r == self.spec_state(),
    {
        match self {
            PacketKind::Intention => ConnectionState::Handshake,
            PacketKind::StatusRequest => ConnectionState::Status,
            PacketKind::PingRequest => ConnectionState::Status,
            PacketKind::LoginStart => ConnectionState::Login,
            PacketKind::EncryptionResponse => ConnectionState::Login,
            PacketKind::LoginAcknowledged => ConnectionState::Login,
            PacketKind::ClientInformation => ConnectionState::Configuration,
            PacketKind::FinishConfiguration => ConnectionState::Configuration,
            PacketKind::KeepAlive => ConnectionState::Play,
            PacketKind::PlayerPosition => ConnectionState::Play,
            PacketKind::ChatMessage => ConnectionState::Play,
            PacketKind::ConfigurationAcknowledged => ConnectionState::Play,
        }
    }
}

/// Why an inbound id was rejected.
#[derive(Debug, Clone, Copy, PartialEq, Eq, Structural)]
pub enum RegistryError {
    /// No packet anywhere in the protocol carries this id.
    UnknownPacket,
    /// The id is registered, but not for the session's current state.
    IllegalStateTransition,
}

/// Some packet kind, in some state, carries this id.
pub open spec fn id_known_somewhere(id: u32) -> bool {
    exists|k: PacketKind| #[trigger] k.spec_id() == id
}

/// A packet kind with this id is registered for this state.
pub open spec fn id_registered_in(id: u32, state: ConnectionState) -> bool {
    exists|k: PacketKind| #[trigger] k.spec_id() == id && k.spec_state() == state
}

/// The registry entry for `(state, id)`, if one is registered.
pub fn lookup(state: ConnectionState, id: u32) -> (r: Option<PacketKind>)
    ensures
        match r {
            Some(k) => k.spec_id() == id && k.spec_state() == state,
            None => forall|k: PacketKind| #[trigger] k.spec_id() == id ==> k.spec_state() != state,
        },
{
    let r = match state {
        ConnectionState::Handshake => {
            if id == 0x00 {
                Some(PacketKind::Intention)
            } else {
                None
            }
        },
        ConnectionState::Status => {
            if id == 0x00 {
                Some(PacketKind::StatusRequest)
            } else if id == 0x01 {
                Some(PacketKind::PingRequest)
            } else {
                None
            }
        },
        ConnectionState::Login => {
            if id == 0x00 {
                Some(PacketKind::LoginStart)
            } else if id == 0x01 {
                Some(PacketKind::EncryptionResponse)
            } else if id == 0x03 {
                Some(PacketKind::LoginAcknowledged)
            } else {
                None
            }
        },
        ConnectionState::Configuration => {
            if id == 0x00 {
                Some(PacketKind::ClientInformation)
            } else if id == 0x03 {
                Some(PacketKind::FinishConfiguration)
            } else {
                None
            }
        },
        ConnectionState::Play => {
            if id == 0x1A {
                Some(PacketKind::KeepAlive)
            } else if id == 0x1C {
                Some(PacketKind::PlayerPosition)
            } else if id == 0x07 {
                Some(PacketKind::ChatMessage)
            } else if id == 0x0E {
                Some(PacketKind::ConfigurationAcknowledged)
            } else {
                None
            }
        },
    };
    r
}

/// Resolves an inbound id against the current state: the registered kind,
/// or `IllegalStateTransition` for an id registered only elsewhere, or
/// `UnknownPacket` for an id registered nowhere. The registry only
/// reports; closing on a violation is the session's decision.
pub fn validate_inbound(state: ConnectionState, id: u32) -> (r: Result<PacketKind, RegistryError>)
    ensures
        r is Ok <==> id_registered_in(id, state),
        match r {
            Ok(k) => k.spec_id() == id && k.spec_state() == state,
            Err(RegistryError::IllegalStateTransition) => id_known_somewhere(id) && (forall|
                k: PacketKind,
            |
                #[trigger] k.spec_id() == id ==> k.spec_state() != state),
            Err(RegistryError::UnknownPacket) => !id_known_somewhere(id),
        },
{
    if let Some(k) = lookup(state, id) {
        return Ok(k);
    }
    let known = id == 0x00 || id == 0x01 || id == 0x03 || id == 0x07 || id == 0x0E || id == 0x1A
        || id == 0x1C;
    if known {
        proof {
            let witness = if id == 0x00 {
                PacketKind::Intention
            } else if id == 0x01 {
                PacketKind::PingRequest
            } else if id == 0x03 {
                PacketKind::LoginAcknowledged
            } else if id == 0x07 {
                PacketKind::ChatMessage
            } else if id == 0x0E {
                PacketKind::ConfigurationAcknowledged
            } else if id == 0x1A {
                PacketKind::KeepAlive
            } else {
                PacketKind::PlayerPosition
            };
            assert(witness.spec_id() == id);
        }
        Err(RegistryError::IllegalStateTransition)
    } else {
        proof {
            assert forall|k: PacketKind| #[trigger] k.spec_id() == id implies false by {
                assert(k.spec_id() == 0x00 || k.spec_id() == 0x01 || k.spec_id() == 0x03
                    || k.spec_id() == 0x07 || k.spec_id() == 0x0E || k.spec_id() == 0x1A
                    || k.spec_id() == 0x1C);
            }
        }
        Err(RegistryError::UnknownPacket)
    }
}

/// The state after handling one legal packet: the intention names Status
/// or Login, the login acknowledgement enters Configuration, finishing
/// configuration enters Play, and agreeing to reconfigure walks back from
/// Play to Configuration; every other packet leaves the state alone.
pub open spec fn spec_next_state(
    state: ConnectionState,
    kind: PacketKind,
    intent: HandshakeIntent,
) -> ConnectionState {
    match (state, kind) {
        (ConnectionState::Handshake, PacketKind::Intention) => match intent {
            HandshakeIntent::Status => ConnectionState::Status,
            HandshakeIntent::Login => ConnectionState::Login,
        },
        (ConnectionState::Login, PacketKind::LoginAcknowledged) => ConnectionState::Configuration,
        (ConnectionState::Configuration, PacketKind::FinishConfiguration) => ConnectionState::Play,
        (ConnectionState::Play, PacketKind::ConfigurationAcknowledged) => {
            ConnectionState::Configuration
        },
        _ => state,
    }
}

/// Applies one legal packet to the state machine. `intent` is read only
/// for the handshake intention.
pub fn next_state(state: ConnectionState, kind: PacketKind, intent: HandshakeIntent) -> (r:
    ConnectionState)
    requires
        kind.spec_state() == state,
    ensures
        r == spec_next_state(state, kind, intent),
{
    match (state, kind) {
        (ConnectionState::Handshake, PacketKind::Intention) => match intent {
            HandshakeIntent::Status => ConnectionState::Status,
            HandshakeIntent::Login => ConnectionState::Login,
        },
        (ConnectionState::Login, PacketKind::LoginAcknowledged) => ConnectionState::Configuration,
        (ConnectionState::Configuration, PacketKind::FinishConfiguration) => ConnectionState::Play,
        (ConnectionState::Play, PacketKind::ConfigurationAcknowledged) => {
            ConnectionState::Configuration
        },
        _ => state,
    }
}

/// Law: the login sequence never skips a state. Play is entered only from
/// Configuration (or kept from Play); one packet moves Login no further
/// than Configuration; and a state never moves backwards out of the
/// lifecycle except the one Play -> Configuration walk-back.
pub proof fn lemma_no_state_skipped(state: ConnectionState, kind: PacketKind, intent: HandshakeIntent)
    ensures
        spec_next_state(state, kind, intent) == ConnectionState::Play ==> (state
            == ConnectionState::Configuration || state == ConnectionState::Play),
        state == ConnectionState::Login ==> spec_next_state(state, kind, intent)
            != ConnectionState::Play,
        spec_next_state(state, kind, intent) == ConnectionState::Configuration ==> (state
            == ConnectionState::Login || state == ConnectionState::Configuration || state
            == ConnectionState::Play),
{
}

/// Law: the login sequence, taken in order, enters Configuration and then
/// Play, one step each.
pub proof fn lemma_login_sequence(intent: HandshakeIntent)
    ensures
        spec_next_state(ConnectionState::Handshake, PacketKind::Intention, HandshakeIntent::Login)
            == ConnectionState::Login,
        spec_next_state(ConnectionState::Login, PacketKind::LoginAcknowledged, intent)
            == ConnectionState::Configuration,
        spec_next_state(ConnectionState::Configuration, PacketKind::FinishConfiguration, intent)
            == ConnectionState::Play,
{
}

/// Connects a datagram session: the only transition of that family.
pub fn raknet_connect(state: RakNetState) -> (r: RakNetState)
    ensures
        r == RakNetState::Connected,
{
    RakNetState::Connected
}

} // verus!
