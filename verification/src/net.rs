//! Connection-facing types and decisions shared by both transport
//! families: the player profile and its name rule, the offline identity
//! derived from a name, the player's settings, and the join gate that
//! orders the ban, whitelist and ip-ban checks. Lookups into the shared
//! tables and clock formatting happen at the caller; the decisions here
//! work on the plain values handed in.

use vstd::prelude::*;

verus! {

use vstd::string::StringSliceAdditionalSpecFns;
use vstd::string::StrSliceExecFns;
use vstd::utf8::encode_utf8;
use crate::cursor::{Uuid, be_value, read_u64_be};

/// A signed property of a player profile, as the identity service hands
/// it over.
#[derive(Debug, Clone)]
pub struct Property {
    pub name: String,
    pub value: String,
    pub signature: Option<String>,
}

/// A moderation action attached to a profile.
#[derive(Debug, Clone, Copy, PartialEq, Eq, Structural)]
pub enum ProfileAction {
    ForcedNameChange,
    UsingBannedSkin,
}

/// A player's identity: id, name, and the signed properties that came
/// with it.
#[derive(Debug, Clone)]
pub struct GameProfile {
    pub id: Uuid,
    pub name: String,
    pub properties: Vec<Property>,
    pub profile_actions: Option<Vec<ProfileAction>>,
}

/// A player name is valid when its UTF-8 form is at most 16 bytes and
/// every character is printable ASCII (strictly between space and
/// delete).
pub open spec fn spec_valid_player_name(name: Seq<char>) -> bool {
    encode_utf8(name).len() <= 16 && forall|i: int|
        0 <= i < name.len() ==> 32 < (#[trigger] name[i]) as u32 && (name[i] as u32) < 127
}

/// Decides whether a player name is acceptable.
pub fn is_valid_player_name(name: &str) -> (r: bool)
    ensures
        r == spec_valid_player_name(name@),
{
    let byte_form = name.as_bytes();
    if byte_form.len() > 16 {
        return false;
    }
    let n = name.unicode_len();
    let mut i: usize = 0;
    while i < n
        invariant
            i <= n,
            n == name@.len(),
            encode_utf8(name@).len() <= 16,
            forall|j: int| 0 <= j < i ==> 32 < (#[trigger] name@[j]) as u32 && (name@[j] as u32) < 127,
        decreases n - i,
    {
        let c = name.get_char(i);
        let v = c as u32;
        if v <= 32 || v >= 127 {
            return false;
        }
        i = i + 1;
    }
    true
}

/// The digest that the offline identity is cut from.
pub uninterp spec fn sha256_of(data: Seq<u8>) -> Seq<u8>;

/// Relies on sha2's `Sha256::digest`: one 32-byte digest, a function of
/// the input bytes alone.
#[verifier::external_body]
fn sha256(data: &[u8]) -> (r: Vec<u8>)
    ensures
        r@ == sha256_of(data@),
        r@.len() == 32,
{
    <sha2::Sha256 as sha2::Digest>::digest(data).to_vec()
}

/// The identity of a player who never touched the identity service: the
/// first sixteen bytes of the digest of the name's UTF-8 form.
pub fn offline_uuid(username: &str) -> (r: Uuid)
    ensures
        r.hi as nat == be_value(sha256_of(encode_utf8(username@)).take(8)),
        r.lo as nat == be_value(sha256_of(encode_utf8(username@)).subrange(8, 16)),
{
    let digest = sha256(username.as_bytes());
    let hi = match read_u64_be(digest.as_slice(), 0) {
        Ok((v, _)) => v,
        Err(_) => 0,
    };
    let lo = match read_u64_be(digest.as_slice(), 8) {
        Ok((v, _)) => v,
        Err(_) => 0,
    };
    proof {
        assert(digest@.subrange(0, 8) =~= digest@.take(8));
    }
    Uuid { hi, lo }
}

/// The player's chat visibility setting.
#[derive(Debug, Clone, Copy, PartialEq, Eq, Structural)]
pub enum ChatMode {
    Enabled,
    CommandsOnly,
    Hidden,
}

/// The player's dominant hand.
#[derive(Debug, Clone, Copy, PartialEq, Eq, Structural)]
pub enum Hand {
    Left,
    Right,
}

/// A player's configuration settings, sent when the player joins or
/// changes them. The view distance is never zero.
#[derive(Debug, Clone)]
pub struct PlayerConfig {
    /// The player's preferred language.
    pub locale: String,
    /// The maximum distance at which chunks are rendered; at least 1.
    pub view_distance: u8,
    /// The player's chat mode settings.
    pub chat_mode: ChatMode,
    /// Whether chat colors are enabled.
    pub chat_colors: bool,
    /// The player's skin configuration options.
    pub skin_parts: u8,
    /// The player's dominant hand.
    pub main_hand: Hand,
    /// Whether text filtering is enabled.
    pub text_filtering: bool,
    /// Whether the player wants to appear in the server list.
    pub server_listing: bool,
}

impl PlayerConfig {
    /// The settings are well formed: the view distance is positive.
    pub open spec fn wf(self) -> bool {
        self.view_distance >= 1
    }
}

impl Default for PlayerConfig {
    /// The settings a session starts with before the client sends its
    /// own.
    fn default() -> (r: PlayerConfig)
        ensures
            r.wf(),
            r.locale@ == "en_us"@,
            r.view_distance == 16,
            r.chat_mode == ChatMode::Enabled,
            r.chat_colors == true,
            r.skin_parts == 0,
            r.main_hand == Hand::Right,
            r.text_filtering == false,
            r.server_listing == false,
    {
        PlayerConfig {
            locale: "en_us".to_owned(),
            view_distance: 16,
            chat_mode: ChatMode::Enabled,
            chat_colors: true,
            skin_parts: 0,
            main_hand: Hand::Right,
            text_filtering: false,
            server_listing: false,
        }
    }
}

/// The read loop's verdict on one poll: a packet is ready, or the
/// session is to stop.
#[derive(Debug, Clone, Copy, PartialEq, Eq, Structural)]
pub enum PacketHandlerState {
    PacketReady,
    Stop,
}

/// What went wrong while establishing encryption.
#[derive(Debug, Clone, Copy, PartialEq, Eq, Structural)]
pub enum EncryptionError {
    FailedDecrypt,
    SharedWrongLength,
}

impl EncryptionError {
    /// The human-readable description of this error.
    pub fn message(&self) -> (r: &'static str)
        ensures
            self is FailedDecrypt ==> r@ == "failed to decrypt shared secret"@,
            self is SharedWrongLength ==> r@ == "shared secret has the wrong length"@,
    {
        match self {
            EncryptionError::FailedDecrypt => "failed to decrypt shared secret",
            EncryptionError::SharedWrongLength => "shared secret has the wrong length",
        }
    }
}

/// One ban list entry, as the join gate reads it: the recorded reason and
/// the expiry already rendered by the caller's clock formatting.
#[derive(Debug, Clone)]
pub struct BanEntryView {
    pub reason: String,
    pub expires: Option<String>,
}

/// Why a profile may not join.
#[derive(Debug, Clone)]
pub enum JoinDenial {
    /// The profile is on the player ban list.
    Banned { reason: String, expires: Option<String> },
    /// The whitelist is enforced and the profile is neither an operator
    /// nor whitelisted.
    NotWhitelisted,
    /// The address is on the ip ban list.
    IpBanned { reason: String, expires: Option<String> },
}

/// The join gate, in the order the checks are made: the player ban list
/// first, then the whitelist (operators pass it), then the ip ban list;
/// a profile clearing all three may join.
pub fn can_not_join(
    player_ban: Option<BanEntryView>,
    white_list_enforced: bool,
    is_operator: bool,
    is_whitelisted: bool,
    ip_ban: Option<BanEntryView>,
) -> (r: Option<JoinDenial>)
    ensures
        match player_ban {
            Some(entry) => r matches Some(d) && (d matches JoinDenial::Banned { reason, expires }
                && reason == entry.reason && expires == entry.expires),
            None => {
                if white_list_enforced && !is_operator && !is_whitelisted {
                    r matches Some(d) && d is NotWhitelisted
                } else {
                    match ip_ban {
                        Some(entry) => r matches Some(d) && (d matches JoinDenial::IpBanned {
                            reason,
                            expires,
                        } && reason == entry.reason && expires == entry.expires),
                        None => r is None,
                    }
                }
            },
        },
{
    if let Some(entry) = player_ban {
        return Some(JoinDenial::Banned { reason: entry.reason, expires: entry.expires });
    }
    if white_list_enforced && !is_operator && !is_whitelisted {
        return Some(JoinDenial::NotWhitelisted);
    }
    if let Some(entry) = ip_ban {
        return Some(JoinDenial::IpBanned { reason: entry.reason, expires: entry.expires });
    }
    None
}

/// The reason codes a datagram-family client is shown when it is
/// disconnected; `code` gives the numeric value each carries on the wire.
#[derive(Debug, Clone, Copy, PartialEq, Eq, Structural)]
pub enum DisconnectReason {
    Unknown,
    CantConnectNoInternet,
    NoPermissions,
    UnrecoverableError,
    ThirdPartyBlocked,
    ThirdPartyNoInternet,
    ThirdPartyBadIP,
    ThirdPartyNoServerOrServerLocked,
    VersionMismatch,
    SkinIssue,
    InviteSessionNotFound,
    EduLevelSettingsMissing,
    LocalServerNotFound,
    LegacyDisconnect,
    UserLeaveGameAttempted,
    PlatformLockedSkinsError,
    RealmsWorldUnassigned,
    RealmsServerCantConnect,
    RealmsServerHidden,
    RealmsServerDisabledBeta,
    RealmsServerDisabled,
    CrossPlatformDisabled,
    CantConnect,
    SessionNotFound,
    ClientSettingsIncompatibleWithServer,
    ServerFull,
    InvalidPlatformSkin,
    EditionVersionMismatch,
    EditionMismatch,
    LevelNewerThanExeVersion,
    NoFailOccurred,
    BannedSkin,
    Timeout,
    ServerNotFound,
    OutdatedServer,
    OutdatedClient,
    NoPremiumPlatform,
    MultiplayerDisabled,
    NoWiFi,
    WorldCorruption,
    NoReason,
    Disconnected,
    InvalidPlayer,
    LoggedInOtherLocation,
    ServerIdConflict,
    NotAllowed,
    NotAuthenticated,
    InvalidTenant,
    UnknownPacket,
    UnexpectedPacket,
    InvalidCommandRequestPacket,
    HostSuspended,
    LoginPacketNoRequest,
    LoginPacketNoCert,
    MissingClient,
    Kicked,
    KickedForExploit,
    KickedForIdle,
    ResourcePackProblem,
    IncompatiblePack,
    OutOfStorage,
    InvalidLevel,
    DisconnectPacketDeprecated,
    BlockMismatch,
    InvalidHeights,
    InvalidWidths,
    ConnectionLostDeprecated,
    ZombieConnection,
    Shutdown,
    ReasonNotSetDeprecated,
    LoadingStateTimeout,
    ResourcePackLoadingFailed,
    SearchingForSessionLoadingScreenFailed,
    NetherNetProtocolVersion,
    SubsystemStatusError,
    EmptyAuthFromDiscovery,
    EmptyUrlFromDiscovery,
    ExpiredAuthFromDiscovery,
    UnknownSignalServiceSignInFailure,
    XBLJoinLobbyFailure,
    UnspecifiedClientInstanceDisconnection,
    NetherNetSessionNotFound,
    NetherNetCreatePeerConnection,
    NetherNetICE,
    NetherNetConnectRequest,
    NetherNetConnectResponse,
    NetherNetNegotiationTimeout,
    NetherNetInactivityTimeout,
    StaleConnectionBeingReplaced,
    RealmsSessionNotFoundDeprecated,
    BadPacket,
    NetherNetFailedToCreateOffer,
    NetherNetFailedToCreateAnswer,
    NetherNetFailedToSetLocalDescription,
    NetherNetFailedToSetRemoteDescription,
    NetherNetNegotiationTimeoutWaitingForResponse,
    NetherNetNegotiationTimeoutWaitingForAccept,
    NetherNetIncomingConnectionIgnored,
    NetherNetSignalingParsingFailure,
    NetherNetSignalingUnknownError,
    NetherNetSignalingUnicastDeliveryFailed,
    NetherNetSignalingBroadcastDeliveryFailed,
    NetherNetSignalingGenericDeliveryFailed,
    EditorMismatchEditorWorld,
    EditorMismatchVanillaWorld,
    WorldTransferNotPrimaryClient,
    RequestServerShutdown,
    ClientGameSetupCancelled,
    ClientGameSetupFailed,
    NoVenue,
    NetherNetSignalingSigninFailed,
    SessionAccessDenied,
    ServiceSigninIssue,
    NetherNetNoSignalingChannel,
    NetherNetNotLoggedIn,
    NetherNetClientSignalingError,
    SubClientLoginDisabled,
    DeepLinkTryingToOpenDemoWorldWhileSignedIn,
    AsyncJoinTaskDenied,
    RealmsTimelineRequired,
    GuestWithoutHost,
    FailedToJoinExperience,
}

impl DisconnectReason {
    /// The numeric wire value of this reason.
    pub open spec fn spec_code(self) -> u8 {
        match self {
            DisconnectReason::Unknown => 0,
            DisconnectReason::CantConnectNoInternet => 1,
            DisconnectReason::NoPermissions => 2,
            DisconnectReason::UnrecoverableError => 3,
            DisconnectReason::ThirdPartyBlocked => 4,
            DisconnectReason::ThirdPartyNoInternet => 5,
            DisconnectReason::ThirdPartyBadIP => 6,
            DisconnectReason::ThirdPartyNoServerOrServerLocked => 7,
            DisconnectReason::VersionMismatch => 8,
            DisconnectReason::SkinIssue => 9,
            DisconnectReason::InviteSessionNotFound => 10,
            DisconnectReason::EduLevelSettingsMissing => 11,
            DisconnectReason::LocalServerNotFound => 12,
            DisconnectReason::LegacyDisconnect => 13,
            DisconnectReason::UserLeaveGameAttempted => 14,
            DisconnectReason::PlatformLockedSkinsError => 15,
            DisconnectReason::RealmsWorldUnassigned => 16,
            DisconnectReason::RealmsServerCantConnect => 17,
            DisconnectReason::RealmsServerHidden => 18,
            DisconnectReason::RealmsServerDisabledBeta => 19,
            DisconnectReason::RealmsServerDisabled => 20,
            DisconnectReason::CrossPlatformDisabled => 21,
            DisconnectReason::CantConnect => 22,
            DisconnectReason::SessionNotFound => 23,
            DisconnectReason::ClientSettingsIncompatibleWithServer => 24,
            DisconnectReason::ServerFull => 25,
            DisconnectReason::InvalidPlatformSkin => 26,
            DisconnectReason::EditionVersionMismatch => 27,
            DisconnectReason::EditionMismatch => 28,
            DisconnectReason::LevelNewerThanExeVersion => 29,
            DisconnectReason::NoFailOccurred => 30,
            DisconnectReason::BannedSkin => 31,
            DisconnectReason::Timeout => 32,
            DisconnectReason::ServerNotFound => 33,
            DisconnectReason::OutdatedServer => 34,
            DisconnectReason::OutdatedClient => 35,
            DisconnectReason::NoPremiumPlatform => 36,
            DisconnectReason::MultiplayerDisabled => 37,
            DisconnectReason::NoWiFi => 38,
            DisconnectReason::WorldCorruption => 39,
            DisconnectReason::NoReason => 40,
            DisconnectReason::Disconnected => 41,
            DisconnectReason::InvalidPlayer => 42,
            DisconnectReason::LoggedInOtherLocation => 43,
            DisconnectReason::ServerIdConflict => 44,
            DisconnectReason::NotAllowed => 45,
            DisconnectReason::NotAuthenticated => 46,
            DisconnectReason::InvalidTenant => 47,
            DisconnectReason::UnknownPacket => 48,
            DisconnectReason::UnexpectedPacket => 49,
            DisconnectReason::InvalidCommandRequestPacket => 50,
            DisconnectReason::HostSuspended => 51,
            DisconnectReason::LoginPacketNoRequest => 52,
            DisconnectReason::LoginPacketNoCert => 53,
            DisconnectReason::MissingClient => 54,
            DisconnectReason::Kicked => 55,
            DisconnectReason::KickedForExploit => 56,
            DisconnectReason::KickedForIdle => 57,
            DisconnectReason::ResourcePackProblem => 58,
            DisconnectReason::IncompatiblePack => 59,
            DisconnectReason::OutOfStorage => 60,
            DisconnectReason::InvalidLevel => 61,
            DisconnectReason::DisconnectPacketDeprecated => 62,
            DisconnectReason::BlockMismatch => 63,
            DisconnectReason::InvalidHeights => 64,
            DisconnectReason::InvalidWidths => 65,
            DisconnectReason::ConnectionLostDeprecated => 66,
            DisconnectReason::ZombieConnection => 67,
            DisconnectReason::Shutdown => 68,
            DisconnectReason::ReasonNotSetDeprecated => 69,
            DisconnectReason::LoadingStateTimeout => 70,
            DisconnectReason::ResourcePackLoadingFailed => 71,
            DisconnectReason::SearchingForSessionLoadingScreenFailed => 72,
            DisconnectReason::NetherNetProtocolVersion => 73,
            DisconnectReason::SubsystemStatusError => 74,
            DisconnectReason::EmptyAuthFromDiscovery => 75,
            DisconnectReason::EmptyUrlFromDiscovery => 76,
            DisconnectReason::ExpiredAuthFromDiscovery => 77,
            DisconnectReason::UnknownSignalServiceSignInFailure => 78,
            DisconnectReason::XBLJoinLobbyFailure => 79,
            DisconnectReason::UnspecifiedClientInstanceDisconnection => 80,
            DisconnectReason::NetherNetSessionNotFound => 81,
            DisconnectReason::NetherNetCreatePeerConnection => 82,
            DisconnectReason::NetherNetICE => 83,
            DisconnectReason::NetherNetConnectRequest => 84,
            DisconnectReason::NetherNetConnectResponse => 85,
            DisconnectReason::NetherNetNegotiationTimeout => 86,
            DisconnectReason::NetherNetInactivityTimeout => 87,
            DisconnectReason::StaleConnectionBeingReplaced => 88,
            DisconnectReason::RealmsSessionNotFoundDeprecated => 89,
            DisconnectReason::BadPacket => 90,
            DisconnectReason::NetherNetFailedToCreateOffer => 91,
            DisconnectReason::NetherNetFailedToCreateAnswer => 92,
            DisconnectReason::NetherNetFailedToSetLocalDescription => 93,
            DisconnectReason::NetherNetFailedToSetRemoteDescription => 94,
            DisconnectReason::NetherNetNegotiationTimeoutWaitingForResponse => 95,
            DisconnectReason::NetherNetNegotiationTimeoutWaitingForAccept => 96,
            DisconnectReason::NetherNetIncomingConnectionIgnored => 97,
            DisconnectReason::NetherNetSignalingParsingFailure => 98,
            DisconnectReason::NetherNetSignalingUnknownError => 99,
            DisconnectReason::NetherNetSignalingUnicastDeliveryFailed => 100,
            DisconnectReason::NetherNetSignalingBroadcastDeliveryFailed => 101,
            DisconnectReason::NetherNetSignalingGenericDeliveryFailed => 102,
            DisconnectReason::EditorMismatchEditorWorld => 103,
            DisconnectReason::EditorMismatchVanillaWorld => 104,
            DisconnectReason::WorldTransferNotPrimaryClient => 105,
            DisconnectReason::RequestServerShutdown => 106,
            DisconnectReason::ClientGameSetupCancelled => 107,
            DisconnectReason::ClientGameSetupFailed => 108,
            DisconnectReason::NoVenue => 109,
            DisconnectReason::NetherNetSignalingSigninFailed => 110,
            DisconnectReason::SessionAccessDenied => 111,
            DisconnectReason::ServiceSigninIssue => 112,
            DisconnectReason::NetherNetNoSignalingChannel => 113,
            DisconnectReason::NetherNetNotLoggedIn => 114,
            DisconnectReason::NetherNetClientSignalingError => 115,
            DisconnectReason::SubClientLoginDisabled => 116,
            DisconnectReason::DeepLinkTryingToOpenDemoWorldWhileSignedIn => 117,
            DisconnectReason::AsyncJoinTaskDenied => 118,
            DisconnectReason::RealmsTimelineRequired => 119,
            DisconnectReason::GuestWithoutHost => 120,
            DisconnectReason::FailedToJoinExperience => 121,
        }
    }

    /// The numeric wire value of this reason.
    pub fn code(&self) -> (r: u8)
        ensures
            r == self.spec_code(),
    {
        match self {
            DisconnectReason::Unknown => 0,
            DisconnectReason::CantConnectNoInternet => 1,
            DisconnectReason::NoPermissions => 2,
            DisconnectReason::UnrecoverableError => 3,
            DisconnectReason::ThirdPartyBlocked => 4,
            DisconnectReason::ThirdPartyNoInternet => 5,
            DisconnectReason::ThirdPartyBadIP => 6,
            DisconnectReason::ThirdPartyNoServerOrServerLocked => 7,
            DisconnectReason::VersionMismatch => 8,
            DisconnectReason::SkinIssue => 9,
            DisconnectReason::InviteSessionNotFound => 10,
            DisconnectReason::EduLevelSettingsMissing => 11,
            DisconnectReason::LocalServerNotFound => 12,
            DisconnectReason::LegacyDisconnect => 13,
            DisconnectReason::UserLeaveGameAttempted => 14,
            DisconnectReason::PlatformLockedSkinsError => 15,
            DisconnectReason::RealmsWorldUnassigned => 16,
            DisconnectReason::RealmsServerCantConnect => 17,
            DisconnectReason::RealmsServerHidden => 18,
            DisconnectReason::RealmsServerDisabledBeta => 19,
            DisconnectReason::RealmsServerDisabled => 20,
            DisconnectReason::CrossPlatformDisabled => 21,
            DisconnectReason::CantConnect => 22,
            DisconnectReason::SessionNotFound => 23,
            DisconnectReason::ClientSettingsIncompatibleWithServer => 24,
            DisconnectReason::ServerFull => 25,
            DisconnectReason::InvalidPlatformSkin => 26,
            DisconnectReason::EditionVersionMismatch => 27,
            DisconnectReason::EditionMismatch => 28,
            DisconnectReason::LevelNewerThanExeVersion => 29,
            DisconnectReason::NoFailOccurred => 30,
            DisconnectReason::BannedSkin => 31,
            DisconnectReason::Timeout => 32,
            DisconnectReason::ServerNotFound => 33,
            DisconnectReason::OutdatedServer => 34,
            DisconnectReason::OutdatedClient => 35,
            DisconnectReason::NoPremiumPlatform => 36,
            DisconnectReason::MultiplayerDisabled => 37,
            DisconnectReason::NoWiFi => 38,
            DisconnectReason::WorldCorruption => 39,
            DisconnectReason::NoReason => 40,
            DisconnectReason::Disconnected => 41,
            DisconnectReason::InvalidPlayer => 42,
            DisconnectReason::LoggedInOtherLocation => 43,
            DisconnectReason::ServerIdConflict => 44,
            DisconnectReason::NotAllowed => 45,
            DisconnectReason::NotAuthenticated => 46,
            DisconnectReason::InvalidTenant => 47,
            DisconnectReason::UnknownPacket => 48,
            DisconnectReason::UnexpectedPacket => 49,
            DisconnectReason::InvalidCommandRequestPacket => 50,
            DisconnectReason::HostSuspended => 51,
            DisconnectReason::LoginPacketNoRequest => 52,
            DisconnectReason::LoginPacketNoCert => 53,
            DisconnectReason::MissingClient => 54,
            DisconnectReason::Kicked => 55,
            DisconnectReason::KickedForExploit => 56,
            DisconnectReason::KickedForIdle => 57,
            DisconnectReason::ResourcePackProblem => 58,
            DisconnectReason::IncompatiblePack => 59,
            DisconnectReason::OutOfStorage => 60,
            DisconnectReason::InvalidLevel => 61,
            DisconnectReason::DisconnectPacketDeprecated => 62,
            DisconnectReason::BlockMismatch => 63,
            DisconnectReason::InvalidHeights => 64,
            DisconnectReason::InvalidWidths => 65,
            DisconnectReason::ConnectionLostDeprecated => 66,
            DisconnectReason::ZombieConnection => 67,
            DisconnectReason::Shutdown => 68,
            DisconnectReason::ReasonNotSetDeprecated => 69,
            DisconnectReason::LoadingStateTimeout => 70,
            DisconnectReason::ResourcePackLoadingFailed => 71,
            DisconnectReason::SearchingForSessionLoadingScreenFailed => 72,
            DisconnectReason::NetherNetProtocolVersion => 73,
            DisconnectReason::SubsystemStatusError => 74,
            DisconnectReason::EmptyAuthFromDiscovery => 75,
            DisconnectReason::EmptyUrlFromDiscovery => 76,
            DisconnectReason::ExpiredAuthFromDiscovery => 77,
            DisconnectReason::UnknownSignalServiceSignInFailure => 78,
            DisconnectReason::XBLJoinLobbyFailure => 79,
            DisconnectReason::UnspecifiedClientInstanceDisconnection => 80,
            DisconnectReason::NetherNetSessionNotFound => 81,
            DisconnectReason::NetherNetCreatePeerConnection => 82,
            DisconnectReason::NetherNetICE => 83,
            DisconnectReason::NetherNetConnectRequest => 84,
            DisconnectReason::NetherNetConnectResponse => 85,
            DisconnectReason::NetherNetNegotiationTimeout => 86,
            DisconnectReason::NetherNetInactivityTimeout => 87,
            DisconnectReason::StaleConnectionBeingReplaced => 88,
            DisconnectReason::RealmsSessionNotFoundDeprecated => 89,
            DisconnectReason::BadPacket => 90,
            DisconnectReason::NetherNetFailedToCreateOffer => 91,
            DisconnectReason::NetherNetFailedToCreateAnswer => 92,
            DisconnectReason::NetherNetFailedToSetLocalDescription => 93,
            DisconnectReason::NetherNetFailedToSetRemoteDescription => 94,
            DisconnectReason::NetherNetNegotiationTimeoutWaitingForResponse => 95,
            DisconnectReason::NetherNetNegotiationTimeoutWaitingForAccept => 96,
            DisconnectReason::NetherNetIncomingConnectionIgnored => 97,
            DisconnectReason::NetherNetSignalingParsingFailure => 98,
            DisconnectReason::NetherNetSignalingUnknownError => 99,
            DisconnectReason::NetherNetSignalingUnicastDeliveryFailed => 100,
            DisconnectReason::NetherNetSignalingBroadcastDeliveryFailed => 101,
            DisconnectReason::NetherNetSignalingGenericDeliveryFailed => 102,
            DisconnectReason::EditorMismatchEditorWorld => 103,
            DisconnectReason::EditorMismatchVanillaWorld => 104,
            DisconnectReason::WorldTransferNotPrimaryClient => 105,
            DisconnectReason::RequestServerShutdown => 106,
            DisconnectReason::ClientGameSetupCancelled => 107,
            DisconnectReason::ClientGameSetupFailed => 108,
            DisconnectReason::NoVenue => 109,
            DisconnectReason::NetherNetSignalingSigninFailed => 110,
            DisconnectReason::SessionAccessDenied => 111,
            DisconnectReason::ServiceSigninIssue => 112,
            DisconnectReason::NetherNetNoSignalingChannel => 113,
            DisconnectReason::NetherNetNotLoggedIn => 114,
            DisconnectReason::NetherNetClientSignalingError => 115,
            DisconnectReason::SubClientLoginDisabled => 116,
            DisconnectReason::DeepLinkTryingToOpenDemoWorldWhileSignedIn => 117,
            DisconnectReason::AsyncJoinTaskDenied => 118,
            DisconnectReason::RealmsTimelineRequired => 119,
            DisconnectReason::GuestWithoutHost => 120,
            DisconnectReason::FailedToJoinExperience => 121,
        }
    }
}

} // verus!
