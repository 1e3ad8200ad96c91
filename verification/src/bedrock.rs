//! The datagram-transport frame: a one-byte game-packet marker, a
//! compression marker byte reserved whenever compression is negotiated
//! (the stage itself may be a no-op, the wire shape stays stable), the
//! frame length, a packed 14-bit header carrying the 10-bit packet id and
//! the two 2-bit sub-channels, and the payload; the lengths and the
//! header are VarUInts.

use vstd::prelude::*;

verus! {

use crate::codec::{VarUInt, vle_bytes};
use crate::frame::append_bytes;

/// A compression threshold, in bytes, as the configuration carries it.
pub type CompressionThreshold = u32;

/// A compression level, as the configuration carries it.
pub type CompressionLevel = u32;

/// The byte that opens every game packet on the datagram transport.
pub const GAME_PACKET_MARKER: u8 = 0xFE;

/// A secondary addressing dimension within one datagram connection,
/// letting up to four logical players share it.
#[derive(Debug, Clone, Copy, PartialEq, Eq, Structural)]
pub enum SubClient {
    Main,
    Second,
    Third,
    Fourth,
}

impl SubClient {
    /// The 2-bit value this sub-channel packs into the header.
    pub open spec fn spec_bits(self) -> u32 {
        match self {
            SubClient::Main => 0,
            SubClient::Second => 1,
            SubClient::Third => 2,
            SubClient::Fourth => 3,
        }
    }

    /// The 2-bit value this sub-channel packs into the header.
    pub fn bits(&self) -> (r: u32)
        ensures
            r == self.spec_bits(),
            r < 4,
    {
        match self {
            SubClient::Main => 0,
            SubClient::Second => 1,
            SubClient::Third => 2,
            SubClient::Fourth => 3,
        }
    }
}

/// The packed 14-bit header: the packet id in the low 10 bits, the
/// sender sub-channel above it, the target sub-channel above that.
pub open spec fn packed_header(packet_id: u16, sender: SubClient, target: SubClient) -> nat {
    packet_id as nat + 1024 * sender.spec_bits() as nat + 4096 * target.spec_bits() as nat
}

/// The bytes of one game packet on the wire: the marker, the reserved
/// compression marker when compression is negotiated, the length of the
/// header-plus-payload, the packed header, and the payload.
pub open spec fn game_packet_bytes(
    packet_id: u16,
    sender: SubClient,
    target: SubClient,
    payload: Seq<u8>,
    compression: Option<(CompressionThreshold, CompressionLevel)>,
) -> Seq<u8> {
    let header = packed_header(packet_id, sender, target);
    let marker: Seq<u8> = if compression is Some {
        seq![GAME_PACKET_MARKER, 0xFFu8]
    } else {
        seq![GAME_PACKET_MARKER]
    };
    marker + vle_bytes(vle_bytes(header).len() + payload.len()) + vle_bytes(header) + payload
}

/// The outbound encoder of one datagram session: holds the negotiated
/// compression setting; encryption on this transport can only ever be
/// set, never taken back.
pub struct UDPNetworkEncoder {
    compression: Option<(CompressionThreshold, CompressionLevel)>,
}

impl UDPNetworkEncoder {
    /// The negotiated compression setting.
    pub closed spec fn spec_compression(&self) -> Option<(CompressionThreshold, CompressionLevel)> {
        self.compression
    }

    /// A fresh encoder: nothing negotiated yet.
    pub fn new() -> (r: UDPNetworkEncoder)
        ensures
            r.spec_compression() is None,
    {
        UDPNetworkEncoder { compression: None }
    }

    /// Records the negotiated compression threshold and level, once; the
    /// context can only be upgraded, and a second negotiation is a
    /// programming error, kept out by the precondition.
    pub fn set_compression(
        &mut self,
        compression_info: (CompressionThreshold, CompressionLevel),
    )
        requires
            old(self).spec_compression() is None,
        ensures
            final(self).spec_compression() == Some(compression_info),
    {
        self.compression = Some(compression_info);
    }

    /// Records the encryption key handed over at the key exchange. The
    /// cipher stage of this transport is a no-op; the wire shape does not
    /// change, so nothing of the encoder does either.
    pub fn set_encryption(&mut self, key: &Vec<u8>)
        requires
            key@.len() == 16,
        ensures
            final(self).spec_compression() == old(self).spec_compression(),
    {
    }

    /// Appends one whole game packet to `out`: the marker, the reserved
    /// compression marker when compression is negotiated, the length
    /// prefix sized from the header's own encoded length, the packed
    /// header, and the payload.
    pub fn write_game_packet(
        &self,
        packet_id: u16,
        sub_client_sender: SubClient,
        sub_client_target: SubClient,
        packet_payload: &[u8],
        out: &mut Vec<u8>,
    )
        requires
            packet_id < 1024,
            packet_payload@.len() <= 0x3F_FFFF,
        ensures
            final(out)@ == old(out)@ + game_packet_bytes(
                packet_id,
                sub_client_sender,
                sub_client_target,
                packet_payload@,
                self.spec_compression(),
            ),
    {
        let ghost start = out@;
        out.push(GAME_PACKET_MARKER);
        if self.compression.is_some() {
            out.push(0xFFu8);
        }
        let header_value: u32 = (packet_id as u32) + 1024 * sub_client_sender.bits() + 4096
            * sub_client_target.bits();
        let header = VarUInt(header_value);
        let header_byte_len = header.written_size();
        let total_content_length = VarUInt((header_byte_len as u32) + (packet_payload.len() as u32));
        total_content_length.encode(out);
        header.encode(out);
        append_bytes(packet_payload, out);
        proof {
            assert(out@ =~= start + game_packet_bytes(
                packet_id,
                sub_client_sender,
                sub_client_target,
                packet_payload@,
                self.spec_compression(),
            ));
        }
    }
}

/// The server-list entry a datagram client is shown before it connects:
/// fixed edition and port facts beside the live player figures.
#[derive(Debug, Clone)]
pub struct ServerInfo {
    pub edition: String,
    pub motd_line_1: String,
    pub protocol_version: u32,
    pub version_name: String,
    pub player_count: u32,
    pub max_player_count: u32,
    pub server_unique_id: u64,
    pub motd_line_2: String,
    pub game_mode: String,
    pub game_mode_numeric: u8,
    pub port_ipv4: u16,
    pub port_ipv6: u16,
}

/// The answer to an unconnected ping: the ping's own timestamp and magic
/// echoed back, the server id, and the rendered server-list entry.
#[derive(Debug, Clone)]
pub struct CUnconnectedPong {
    pub time: u64,
    pub server_guid: u64,
    pub magic: [u8; 16],
    pub payload: String,
}

impl CUnconnectedPong {
    /// Builds the pong from the ping's echoes and the rendered entry.
    pub fn new(time: u64, server_guid: u64, magic: [u8; 16], payload: String) -> (r:
        CUnconnectedPong)
        ensures
            r.time == time,
            r.server_guid == server_guid,
            r.magic == magic,
            r.payload == payload,
    {
        CUnconnectedPong { time, server_guid, magic, payload }
    }
}

/// Assembles the server-list entry for an unconnected ping: the live
/// figures and names from the caller, the datagram edition name, its
/// protocol version, the survival game-mode number, and the two fixed
/// ports.
pub fn build_server_info(
    motd_line_1: String,
    version_name: String,
    player_count: u32,
    max_player_count: u32,
    server_unique_id: u64,
    motd_line_2: String,
    game_mode: String,
) -> (r: ServerInfo)
    ensures
        r.edition@ == "MCPE"@,
        r.motd_line_1 == motd_line_1,
        r.protocol_version == 819,
        r.version_name == version_name,
        r.player_count == player_count,
        r.max_player_count == max_player_count,
        r.server_unique_id == server_unique_id,
        r.motd_line_2 == motd_line_2,
        r.game_mode == game_mode,
        r.game_mode_numeric == 1,
        r.port_ipv4 == 19132,
        r.port_ipv6 == 19133,
{
    ServerInfo {
        edition: "MCPE".to_owned(),
        motd_line_1,
        protocol_version: 819,
        version_name,
        player_count,
        max_player_count,
        server_unique_id,
        motd_line_2,
        game_mode,
        game_mode_numeric: 1,
        port_ipv4: 19132,
        port_ipv6: 19133,
    }
}

/// The compression level asked of this transport was not a level the
/// stage accepts.
#[derive(Debug, Clone, Copy, PartialEq, Eq, Structural)]
pub struct CompressionLevelError;

impl CompressionLevelError {
    /// The human-readable description of this error.
    pub fn message(&self) -> (r: &'static str)
        ensures
            r@ == "Invalid compression Level"@,
    {
        "Invalid compression Level"
    }
}

} // verus!
