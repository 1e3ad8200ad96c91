//! Verified core of a voxel-world multiplayer game server's network
//! protocol: the variable-length integer codecs, the typed byte-cursor
//! helpers, packet framing with its optional compression and encryption
//! stages, the per-connection handshake state machine with its packet
//! registry, and the session manager with its FIFO outbound queue -
//! together with the plain-value decision cores of the moderation
//! tables, the command layer, the recipe normalizations and the block
//! and item handlers that consume decoded packets.

pub mod codec;
pub mod cursor;
pub mod frame;
pub mod state;
pub mod net;
pub mod bedrock;
pub mod session;
pub mod login;
pub mod data;
pub mod commands;
pub mod recipes;
pub mod motd;
pub mod blocks;
pub mod items;
pub mod rails;
