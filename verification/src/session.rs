//! The per-client session: it owns the connection state, the negotiated
//! compression setting, the cipher context of each direction, and the
//! outbound queue. Collaborators enqueue packets; the session's own write
//! loop drains them in FIFO order. A close signal stops the read side,
//! rejects every later enqueue, and leaves what was already queued to be
//! flushed, best-effort, before the transport is torn down.

use vstd::prelude::*;

verus! {

use crate::state::{
    ConnectionState, RakNetState, HandshakeIntent, PacketKind, RegistryError, id_known_somewhere,
    id_registered_in, raknet_connect, validate_inbound, next_state, spec_next_state,
};
use crate::frame::{
    read_frame, write_frame, append_bytes, frame_at, frame_bytes, frame_decode_spec, payload_of,
    CipherContext, CompressionConfig, FrameError,
};
use crate::net::DisconnectReason;
use crate::bedrock::UDPNetworkEncoder;

/// One not-yet-written outbound packet: its id and its encoded body.
#[derive(Debug, Clone)]
pub struct OutPacket {
    pub id: u32,
    pub body: Vec<u8>,
}

impl OutPacket {
    /// The packet as the queue's ghost view carries it.
    pub open spec fn view_pair(self) -> (u32, Seq<u8>) {
        (self.id, self.body@)
    }
}

/// Why an enqueue was refused.
#[derive(Debug, Clone, Copy, PartialEq, Eq, Structural)]
pub enum SessionError {
    /// The session observed its close signal; nothing is accepted after
    /// it.
    Closed,
}

/// One stream-transport session.
pub struct Session {
    state: ConnectionState,
    compression: Option<CompressionConfig>,
    cipher_out: CipherContext,
    cipher_in: CipherContext,
    queue: Vec<OutPacket>,
    closed: bool,
    close_reason: Option<DisconnectReason>,
}

impl Session {
    /// The session's current phase.
    pub closed spec fn spec_state(&self) -> ConnectionState {
        self.state
    }

    /// The negotiated compression setting, if any.
    pub closed spec fn spec_compression(&self) -> Option<CompressionConfig> {
        self.compression
    }

    /// The outbound queue, oldest first.
    pub closed spec fn queued(&self) -> Seq<(u32, Seq<u8>)> {
        self.queue@.map(|i: int, p: OutPacket| p.view_pair())
    }

    /// The session observed its close signal.
    pub closed spec fn is_closed(&self) -> bool {
        self.closed
    }

    /// The outbound cipher stage was enabled by a key exchange.
    pub closed spec fn out_cipher_enabled(&self) -> bool {
        self.cipher_out.is_enabled()
    }

    /// The inbound cipher stage was enabled by a key exchange.
    pub closed spec fn in_cipher_enabled(&self) -> bool {
        self.cipher_in.is_enabled()
    }

    /// Both directions' cipher stages were enabled by a key exchange.
    pub open spec fn encryption_enabled(&self) -> bool {
        self.out_cipher_enabled() && self.in_cipher_enabled()
    }

    /// The reason recorded when the session was closed.
    pub closed spec fn spec_close_reason(&self) -> Option<DisconnectReason> {
        self.close_reason
    }

    /// A fresh session: in Handshake, nothing negotiated, nothing queued,
    /// open.
    pub fn new() -> (r: Session)
        ensures
            r.spec_state() == ConnectionState::Handshake,
            r.spec_compression() is None,
            !r.out_cipher_enabled(),
            !r.in_cipher_enabled(),
            r.queued() == Seq::<(u32, Seq<u8>)>::empty(),
            !r.is_closed(),
            r.spec_close_reason() is None,
    {
        let r = Session {
            state: ConnectionState::Handshake,
            compression: None,
            cipher_out: CipherContext::new(),
            cipher_in: CipherContext::new(),
            queue: Vec::new(),
            closed: false,
            close_reason: None,
        };
        proof {
            assert(r.queued() =~= Seq::<(u32, Seq<u8>)>::empty());
        }
        r
    }

    /// The session's current phase, as collaborators read it.
    pub fn current_state(&self) -> (r: ConnectionState)
        ensures
            r == self.spec_state(),
    {
        self.state
    }

    /// Whether the close signal was observed.
    pub fn closed(&self) -> (r: bool)
        ensures
            r == self.is_closed(),
    {
        self.closed
    }

    /// Enables the cipher stage of both directions with the exchanged
    /// key. The stream can never go back to being unencrypted, and
    /// enabling encryption twice is a programming error, kept out by the
    /// precondition.
    pub fn set_encryption(&mut self, key: Vec<u8>)
        requires
            !old(self).out_cipher_enabled(),
            !old(self).in_cipher_enabled(),
            key@.len() == 16,
        ensures
            final(self).encryption_enabled(),
            final(self).spec_state() == old(self).spec_state(),
            final(self).spec_compression() == old(self).spec_compression(),
            final(self).queued() == old(self).queued(),
            final(self).is_closed() == old(self).is_closed(),
    {
        let mut key_in: Vec<u8> = Vec::new();
        append_bytes(key.as_slice(), &mut key_in);
        self.cipher_out.upgrade(key);
        self.cipher_in.upgrade(key_in);
    }

    /// Runs outbound frame bytes through this direction's cipher stage:
    /// its one continuous running position advances by their number and
    /// is never restarted between frames. The stage is the pass-through
    /// one, so the bytes come back unchanged.
    pub fn encrypt_outbound(&mut self, data: Vec<u8>) -> (r: Vec<u8>)
        ensures
            r@ == data@,
            final(self).spec_state() == old(self).spec_state(),
            final(self).spec_compression() == old(self).spec_compression(),
            final(self).queued() == old(self).queued(),
            final(self).is_closed() == old(self).is_closed(),
            final(self).out_cipher_enabled() == old(self).out_cipher_enabled(),
            final(self).in_cipher_enabled() == old(self).in_cipher_enabled(),
    {
        self.cipher_out.process(data)
    }

    /// Runs inbound wire bytes through this direction's cipher stage, the
    /// mirror of `encrypt_outbound`: what one side's outbound stage
    /// produced, the other side's inbound stage restores.
    pub fn decrypt_inbound(&mut self, data: Vec<u8>) -> (r: Vec<u8>)
        ensures
            r@ == data@,
            final(self).spec_state() == old(self).spec_state(),
            final(self).spec_compression() == old(self).spec_compression(),
            final(self).queued() == old(self).queued(),
            final(self).is_closed() == old(self).is_closed(),
            final(self).out_cipher_enabled() == old(self).out_cipher_enabled(),
            final(self).in_cipher_enabled() == old(self).in_cipher_enabled(),
    {
        self.cipher_in.process(data)
    }

    /// Records the negotiated compression threshold and level, once; the
    /// context can only be upgraded, and a second negotiation is a
    /// programming error, kept out by the precondition.
    pub fn set_compression(&mut self, config: CompressionConfig)
        requires
            old(self).spec_compression() is None,
        ensures
            final(self).spec_compression() == Some(config),
            final(self).spec_state() == old(self).spec_state(),
            final(self).queued() == old(self).queued(),
            final(self).is_closed() == old(self).is_closed(),
    {
        self.compression = Some(config);
    }

    /// Appends one packet to the outbound queue, in arrival order; a
    /// session that observed its close signal accepts nothing more and is
    /// left unchanged.
    pub fn enqueue(&mut self, packet: OutPacket) -> (r: Result<(), SessionError>)
        ensures
            old(self).is_closed() ==> r == Err::<(), SessionError>(SessionError::Closed) && final(self).queued() == old(self).queued(),
            !old(self).is_closed() ==> r == Ok::<(), SessionError>(()) && final(self).queued()
                == old(self).queued().push(packet.view_pair()),
            final(self).is_closed() == old(self).is_closed(),
            final(self).spec_state() == old(self).spec_state(),
            final(self).spec_compression() == old(self).spec_compression(),
    {
        if self.closed {
            return Err(SessionError::Closed);
        }
        let ghost before = self.queue@;
        self.queue.push(packet);
        proof {
            assert(self.queued() =~= before.map(|i: int, p: OutPacket| p.view_pair()).push(
                self.queue@.last().view_pair(),
            ));
        }
        Ok(())
    }

    /// Observes the close signal: the read side stops taking frames, every
    /// later enqueue is rejected, and what was already queued stays for
    /// the write loop to flush. Closing twice keeps the first reason.
    pub fn close(&mut self, reason: DisconnectReason)
        ensures
            final(self).is_closed(),
            final(self).queued() == old(self).queued(),
            final(self).spec_state() == old(self).spec_state(),
            final(self).spec_compression() == old(self).spec_compression(),
            old(self).is_closed() ==> final(self).spec_close_reason() == old(self).spec_close_reason(),
            !old(self).is_closed() ==> final(self).spec_close_reason() == Some(reason),
    {
        if !self.closed {
            self.close_reason = Some(reason);
        }
        self.closed = true;
    }

    /// Hands the write loop everything queued so far, oldest first, and
    /// empties the queue: what was enqueued before the close signal is
    /// exactly what a final flush writes.
    pub fn flush(&mut self) -> (r: Vec<OutPacket>)
        ensures
            r@.map(|i: int, p: OutPacket| p.view_pair()) == old(self).queued(),
            final(self).queued() == Seq::<(u32, Seq<u8>)>::empty(),
            final(self).is_closed() == old(self).is_closed(),
            final(self).spec_state() == old(self).spec_state(),
            final(self).spec_compression() == old(self).spec_compression(),
    {
        let mut drained: Vec<OutPacket> = Vec::new();
        core::mem::swap(&mut drained, &mut self.queue);
        proof {
            assert(self.queued() =~= Seq::<(u32, Seq<u8>)>::empty());
        }
        drained
    }

    /// The write loop's step for one packet body: wraps it in a frame
    /// under the session's negotiated compression setting and appends the
    /// frame to `out`.
    pub fn send_frame(&self, body: &[u8], out: &mut Vec<u8>)
        requires
            body@.len() <= 0x3FF_FFFF,
        ensures
            final(out)@ == old(out)@ + frame_bytes(body@, self.spec_compression()),
    {
        match &self.compression {
            Some(config) => write_frame(body, Some(config), out),
            None => write_frame(body, None, out),
        }
    }

    /// The read loop's step for one wire frame: reads it under the
    /// session's negotiated compression setting. A corrupt length prefix,
    /// an over-length chain, a frame over `max_frame`, a truncated frame
    /// and a payload contradicting its declared length all close the
    /// session on the spot; the pipeline never recovers mid-frame.
    /// Whatever `send_frame` put at `pos` under the same setting comes
    /// back as the body it was given.
    pub fn receive_frame(&mut self, data: &[u8], pos: usize, max_frame: u32) -> (r: Result<
        (Vec<u8>, usize),
        FrameError,
    >)
        requires
            !old(self).is_closed(),
            pos <= data@.len(),
        ensures
            final(self).spec_state() == old(self).spec_state(),
            final(self).spec_compression() == old(self).spec_compression(),
            final(self).queued() == old(self).queued(),
            match r {
                Ok(p) => frame_decode_spec(
                    data@.skip(pos as int),
                    old(self).spec_compression() is Some,
                    max_frame as nat,
                ) == Ok::<(Seq<u8>, nat), FrameError>((p.0@, (p.1 - pos) as nat)) && pos < p.1
                    <= data@.len() && !final(self).is_closed(),
                Err(e) => frame_decode_spec(
                    data@.skip(pos as int),
                    old(self).spec_compression() is Some,
                    max_frame as nat,
                ) == Err::<(Seq<u8>, nat), FrameError>(e) && final(self).is_closed() && final(self).spec_close_reason() == Some(DisconnectReason::BadPacket),
            },
            forall|body: Seq<u8>|
                body.len() <= 0x3FF_FFFF && #[trigger] frame_at(
                    data@,
                    pos as nat,
                    body,
                    old(self).spec_compression(),
                ) && payload_of(body, old(self).spec_compression()).len() <= max_frame as nat ==> (
                r matches Ok(p) && p.0@ == body && p.1 == pos + frame_bytes(
                    body,
                    old(self).spec_compression(),
                ).len()),
    {
        let compression_active = self.compression.is_some();
        match read_frame(data, pos, compression_active, max_frame) {
            Ok(p) => Ok(p),
            Err(e) => {
                self.close(DisconnectReason::BadPacket);
                Err(e)
            },
        }
    }

    /// The read loop's step for one decoded frame: the packet id is
    /// resolved against the current state; a packet registered for this
    /// state - exactly then - is accepted, advances the state machine by
    /// its transition and is handed on; a violation closes the session on
    /// the spot (an id no packet carries anywhere with the unknown-packet
    /// reason, an id registered only for another state as an unexpected
    /// packet) and changes no state. `intent` is read only when the
    /// packet is the handshake intention.
    pub fn handle_inbound(&mut self, id: u32, intent: HandshakeIntent) -> (r: Result<
        PacketKind,
        RegistryError,
    >)
        requires
            !old(self).is_closed(),
        ensures
            r is Ok <==> id_registered_in(id, old(self).spec_state()),
            match r {
                Ok(k) => k.spec_id() == id && k.spec_state() == old(self).spec_state() && final(self).spec_state() == spec_next_state(old(self).spec_state(), k, intent) && !final(self).is_closed() && final(self).spec_close_reason() == old(self).spec_close_reason(),
                Err(e) => final(self).is_closed() && final(self).spec_state() == old(self).spec_state() && (e == RegistryError::UnknownPacket <==> !id_known_somewhere(id)) && (e
                    == RegistryError::IllegalStateTransition <==> id_known_somewhere(id)) && (e == RegistryError::UnknownPacket ==> final(self).spec_close_reason() == Some(DisconnectReason::UnknownPacket)) && (e
                    == RegistryError::IllegalStateTransition ==> final(self).spec_close_reason()
                    == Some(DisconnectReason::UnexpectedPacket)),
            },
            final(self).queued() == old(self).queued(),
            final(self).spec_compression() == old(self).spec_compression(),
    {
        match validate_inbound(self.state, id) {
            Ok(kind) => {
                self.state = next_state(self.state, kind, intent);
                Ok(kind)
            },
            Err(RegistryError::UnknownPacket) => {
                self.close(DisconnectReason::UnknownPacket);
                Err(RegistryError::UnknownPacket)
            },
            Err(RegistryError::IllegalStateTransition) => {
                self.close(DisconnectReason::UnexpectedPacket);
                Err(RegistryError::IllegalStateTransition)
            },
        }
    }
}

/// One datagram-transport session: like the stream session it owns its
/// phase, its encoder with the negotiated settings, and a FIFO outbound
/// queue; a close signal stops intake and leaves what was queued to be
/// flushed.
pub struct BedrockSession {
    state: RakNetState,
    encoder: UDPNetworkEncoder,
    queue: Vec<OutPacket>,
    closed: bool,
}

impl BedrockSession {
    /// The session's phase.
    pub closed spec fn spec_state(&self) -> RakNetState {
        self.state
    }

    /// The negotiated compression setting, if any.
    pub closed spec fn spec_compression(&self) -> Option<(u32, u32)> {
        self.encoder.spec_compression()
    }

    /// The outbound queue, oldest first.
    pub closed spec fn queued(&self) -> Seq<(u32, Seq<u8>)> {
        self.queue@.map(|i: int, p: OutPacket| p.view_pair())
    }

    /// The session observed its close signal.
    pub closed spec fn is_closed(&self) -> bool {
        self.closed
    }

    /// A fresh datagram session: connection-less, nothing negotiated,
    /// nothing queued, open.
    pub fn new() -> (r: BedrockSession)
        ensures
            r.spec_state() == RakNetState::Unconnected,
            !r.is_closed(),
            r.spec_compression() is None,
            r.queued() == Seq::<(u32, Seq<u8>)>::empty(),
    {
        let r = BedrockSession {
            state: RakNetState::Unconnected,
            encoder: UDPNetworkEncoder::new(),
            queue: Vec::new(),
            closed: false,
        };
        proof {
            assert(r.queued() =~= Seq::<(u32, Seq<u8>)>::empty());
        }
        r
    }

    /// The session's phase, as collaborators read it.
    pub fn current_state(&self) -> (r: RakNetState)
        ensures
            r == self.spec_state(),
    {
        self.state
    }

    /// Finishes the open exchange: the one transition of this family.
    pub fn connect(&mut self)
        ensures
            final(self).spec_state() == RakNetState::Connected,
            final(self).spec_compression() == old(self).spec_compression(),
            final(self).queued() == old(self).queued(),
            final(self).is_closed() == old(self).is_closed(),
    {
        self.state = raknet_connect(self.state);
    }

    /// Records the negotiated compression threshold and level, once; a
    /// second negotiation is a programming error, kept out by the
    /// precondition.
    pub fn set_compression(&mut self, compression_info: (u32, u32))
        requires
            old(self).spec_compression() is None,
        ensures
            final(self).spec_compression() == Some(compression_info),
            final(self).spec_state() == old(self).spec_state(),
            final(self).queued() == old(self).queued(),
            final(self).is_closed() == old(self).is_closed(),
    {
        self.encoder.set_compression(compression_info);
    }

    /// Appends one whole game packet for this session to `out`, under its
    /// negotiated settings.
    pub fn write_game_packet(
        &self,
        packet_id: u16,
        sub_client_sender: crate::bedrock::SubClient,
        sub_client_target: crate::bedrock::SubClient,
        packet_payload: &[u8],
        out: &mut Vec<u8>,
    )
        requires
            packet_id < 1024,
            packet_payload@.len() <= 0x3F_FFFF,
        ensures
            final(out)@ == old(out)@ + crate::bedrock::game_packet_bytes(
                packet_id,
                sub_client_sender,
                sub_client_target,
                packet_payload@,
                self.spec_compression(),
            ),
    {
        self.encoder.write_game_packet(
            packet_id,
            sub_client_sender,
            sub_client_target,
            packet_payload,
            out,
        );
    }

    /// Appends one packet to the outbound queue, in arrival order; a
    /// session that observed its close signal accepts nothing more and is
    /// left unchanged.
    pub fn enqueue(&mut self, packet: OutPacket) -> (r: Result<(), SessionError>)
        ensures
            old(self).is_closed() ==> r == Err::<(), SessionError>(SessionError::Closed) && final(self).queued() == old(self).queued(),
            !old(self).is_closed() ==> r == Ok::<(), SessionError>(()) && final(self).queued()
                == old(self).queued().push(packet.view_pair()),
            final(self).is_closed() == old(self).is_closed(),
            final(self).spec_state() == old(self).spec_state(),
            final(self).spec_compression() == old(self).spec_compression(),
    {
        if self.closed {
            return Err(SessionError::Closed);
        }
        let ghost before = self.queue@;
        self.queue.push(packet);
        proof {
            assert(self.queued() =~= before.map(|i: int, p: OutPacket| p.view_pair()).push(
                self.queue@.last().view_pair(),
            ));
        }
        Ok(())
    }

    /// Hands the write loop everything queued so far, oldest first, and
    /// empties the queue.
    pub fn flush(&mut self) -> (r: Vec<OutPacket>)
        ensures
            r@.map(|i: int, p: OutPacket| p.view_pair()) == old(self).queued(),
            final(self).queued() == Seq::<(u32, Seq<u8>)>::empty(),
            final(self).is_closed() == old(self).is_closed(),
            final(self).spec_state() == old(self).spec_state(),
            final(self).spec_compression() == old(self).spec_compression(),
    {
        let mut drained: Vec<OutPacket> = Vec::new();
        core::mem::swap(&mut drained, &mut self.queue);
        proof {
            assert(self.queued() =~= Seq::<(u32, Seq<u8>)>::empty());
        }
        drained
    }

    /// Whether the close signal was observed.
    pub fn closed(&self) -> (r: bool)
        ensures
            r == self.is_closed(),
    {
        self.closed
    }

    /// Observes the close signal: every later enqueue is rejected, and
    /// what was already queued stays for a final flush.
    pub fn close(&mut self)
        ensures
            final(self).is_closed(),
            final(self).spec_state() == old(self).spec_state(),
            final(self).queued() == old(self).queued(),
            final(self).spec_compression() == old(self).spec_compression(),
    {
        self.closed = true;
    }
}

/// A wrapper over both transport families' sessions.
pub enum ClientPlatform {
    Java(Session),
    Bedrock(BedrockSession),
}

impl ClientPlatform {
    /// The datagram session. To be used only where the client is known to
    /// be of the datagram family; on the other family this is a
    /// programming error, kept out by the precondition.
    pub fn bedrock(&self) -> (r: &BedrockSession)
        requires
            self is Bedrock,
        ensures
            *self == ClientPlatform::Bedrock(*r),
    {
        match self {
            ClientPlatform::Bedrock(client) => client,
            ClientPlatform::Java(_) => vstd::pervasive::unreached(),
        }
    }

    /// The stream session. To be used only where the client is known to
    /// be of the stream family.
    pub fn java(&self) -> (r: &Session)
        requires
            self is Java,
        ensures
            *self == ClientPlatform::Java(*r),
    {
        match self {
            ClientPlatform::Java(client) => client,
            ClientPlatform::Bedrock(_) => vstd::pervasive::unreached(),
        }
    }

    /// Appends one packet to the owning session's FIFO outbound queue,
    /// whichever family it is of; a session that observed its close
    /// signal accepts nothing more.
    pub fn enqueue_packet(&mut self, packet: OutPacket) -> (r: Result<(), SessionError>)
        ensures
            (*old(self) matches ClientPlatform::Java(s) ==> (*final(self) matches ClientPlatform::Java(s2) && (s.is_closed() ==> r == Err::<(), SessionError>(SessionError::Closed)
                && s2.queued() == s.queued()) && (!s.is_closed() ==> r == Ok::<(), SessionError>(())
                && s2.queued() == s.queued().push(packet.view_pair())) && s2.is_closed()
                == s.is_closed() && s2.spec_state() == s.spec_state() && s2.spec_compression()
                == s.spec_compression())),
            (*old(self) matches ClientPlatform::Bedrock(b) ==> (*final(self) matches ClientPlatform::Bedrock(b2) && (b.is_closed() ==> r == Err::<(), SessionError>(SessionError::Closed)
                && b2.queued() == b.queued()) && (!b.is_closed() ==> r == Ok::<(), SessionError>(())
                && b2.queued() == b.queued().push(packet.view_pair())) && b2.is_closed()
                == b.is_closed() && b2.spec_state() == b.spec_state() && b2.spec_compression()
                == b.spec_compression())),
    {
        match self {
            ClientPlatform::Java(java) => java.enqueue(packet),
            ClientPlatform::Bedrock(bedrock) => bedrock.enqueue(packet),
        }
    }

    /// Whether the session, of either family, observed its close signal.
    pub fn closed(&self) -> (r: bool)
        ensures
            r == match self {
                ClientPlatform::Java(s) => s.is_closed(),
                ClientPlatform::Bedrock(s) => s.is_closed(),
            },
    {
        match self {
            ClientPlatform::Java(java) => java.closed(),
            ClientPlatform::Bedrock(bedrock) => bedrock.closed(),
        }
    }
}

} // verus!
