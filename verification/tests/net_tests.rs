use pumpkin_protocol::cursor::Uuid;
use pumpkin_protocol::data::{
    ban_player, str_eq, BanAttempt, BannedPlayerEntry, BannedPlayerList, Op, OperatorConfig,
};
use pumpkin_protocol::net::{
    can_not_join, is_valid_player_name, offline_uuid, BanEntryView, ChatMode, DisconnectReason,
    EncryptionError, Hand, JoinDenial, PlayerConfig,
};
use sha2::{Digest, Sha256};

#[test]
fn player_name_rule() {
    assert!(is_valid_player_name("Steve"));
    assert!(is_valid_player_name("a_b_c_123"));
    assert!(is_valid_player_name("exactly16chars__"));
    assert!(!is_valid_player_name("seventeen_chars__"));
    assert!(!is_valid_player_name("with space"));
    assert!(!is_valid_player_name("tab\there"));
    assert!(!is_valid_player_name("nul\u{0}"));
    assert!(!is_valid_player_name("d\u{7f}"));
    assert!(is_valid_player_name(""));
}

#[test]
fn offline_uuid_is_the_digest_head() {
    // The offline identity is the first sixteen bytes of the name's
    // SHA-256 digest; computed here independently.
    let digest = Sha256::digest("Notch");
    let uuid = offline_uuid("Notch");
    let hi = u64::from_be_bytes(digest[0..8].try_into().unwrap());
    let lo = u64::from_be_bytes(digest[8..16].try_into().unwrap());
    assert_eq!(uuid.hi, hi);
    assert_eq!(uuid.lo, lo);
    // Deterministic, and different names give different identities.
    assert_eq!(offline_uuid("Notch"), offline_uuid("Notch"));
    assert_ne!(offline_uuid("Notch"), offline_uuid("Herobrine"));
}

#[test]
fn join_gate_orders_its_checks() {
    let ban = BanEntryView { reason: "griefing".to_string(), expires: Some("soon".to_string()) };
    // The player ban wins over everything else.
    let denial = can_not_join(Some(ban.clone()), true, false, false, Some(ban.clone())).unwrap();
    match denial {
        JoinDenial::Banned { reason, expires } => {
            assert_eq!(reason, "griefing");
            assert_eq!(expires.as_deref(), Some("soon"));
        },
        _ => panic!("expected the player ban"),
    }
    // The whitelist gate fires next; operators pass it.
    let denial = can_not_join(None, true, false, false, None).unwrap();
    assert!(matches!(denial, JoinDenial::NotWhitelisted));
    assert!(can_not_join(None, true, true, false, None).is_none());
    assert!(can_not_join(None, true, false, true, None).is_none());
    // The ip ban comes last.
    let denial = can_not_join(None, false, false, false, Some(ban)).unwrap();
    assert!(matches!(denial, JoinDenial::IpBanned { .. }));
    // Clear of all three, the profile may join.
    assert!(can_not_join(None, false, false, false, None).is_none());
}

#[test]
fn player_config_defaults() {
    let config = PlayerConfig::default();
    assert_eq!(config.locale, "en_us");
    assert_eq!(config.view_distance, 16);
    assert!(matches!(config.chat_mode, ChatMode::Enabled));
    assert!(config.chat_colors);
    assert_eq!(config.skin_parts, 0);
    assert!(matches!(config.main_hand, Hand::Right));
    assert!(!config.text_filtering);
    assert!(!config.server_listing);
}

#[test]
fn encryption_error_messages() {
    assert_eq!(EncryptionError::FailedDecrypt.message(), "failed to decrypt shared secret");
    assert_eq!(
        EncryptionError::SharedWrongLength.message(),
        "shared secret has the wrong length"
    );
}

#[test]
fn disconnect_reason_codes() {
    assert_eq!(DisconnectReason::Unknown.code(), 0);
    assert_eq!(DisconnectReason::NoPermissions.code(), 2);
    assert_eq!(DisconnectReason::UnknownPacket.code(), 48);
    assert_eq!(DisconnectReason::UnexpectedPacket.code(), 49);
    assert_eq!(DisconnectReason::Kicked.code(), 55);
    assert_eq!(DisconnectReason::Shutdown.code(), 68);
    assert_eq!(DisconnectReason::FailedToJoinExperience.code(), 121);
}

#[test]
fn string_comparison_reads_characters() {
    assert!(str_eq("abc", "abc"));
    assert!(!str_eq("abc", "abd"));
    assert!(!str_eq("abc", "abcd"));
    assert!(str_eq("", ""));
    assert!(str_eq("\u{e9}t\u{e9}", "\u{e9}t\u{e9}"));
}

#[test]
fn lookups_return_the_first_match() {
    // Both tables are searched front to back: with two entries for one
    // identity the earlier one is returned.
    let ops = OperatorConfig {
        ops: vec![
            Op {
                uuid: Uuid { hi: 1, lo: 1 },
                name: "earlier".to_string(),
                level: 4,
                bypasses_player_limit: false,
            },
            Op {
                uuid: Uuid { hi: 1, lo: 1 },
                name: "later".to_string(),
                level: 2,
                bypasses_player_limit: false,
            },
        ],
    };
    assert_eq!(ops.get_entry(&Uuid { hi: 1, lo: 1 }).unwrap().name, "earlier");
    let list = BannedPlayerList {
        banned_players: vec![
            BannedPlayerEntry {
                name: "dup".to_string(),
                uuid: Uuid { hi: 2, lo: 2 },
                created: "first".to_string(),
                source: "s".to_string(),
                expires: None,
                reason: "first ban".to_string(),
            },
            BannedPlayerEntry {
                name: "dup".to_string(),
                uuid: Uuid { hi: 2, lo: 2 },
                created: "second".to_string(),
                source: "s".to_string(),
                expires: None,
                reason: "second ban".to_string(),
            },
        ],
    };
    assert_eq!(list.get_entry("dup", &Uuid { hi: 2, lo: 2 }).unwrap().reason, "first ban");
}

#[test]
fn operator_lookup_finds_by_identity() {
    let ops = OperatorConfig {
        ops: vec![
            Op {
                uuid: Uuid { hi: 1, lo: 2 },
                name: "alpha".to_string(),
                level: 4,
                bypasses_player_limit: false,
            },
            Op {
                uuid: Uuid { hi: 3, lo: 4 },
                name: "beta".to_string(),
                level: 2,
                bypasses_player_limit: true,
            },
        ],
    };
    let hit = ops.get_entry(&Uuid { hi: 3, lo: 4 }).unwrap();
    assert_eq!(hit.name, "beta");
    assert!(ops.get_entry(&Uuid { hi: 9, lo: 9 }).is_none());
}

#[test]
fn ban_appends_once_with_default_reason() {
    let mut list = BannedPlayerList::new();
    let uuid = Uuid { hi: 7, lo: 8 };
    let outcome = ban_player(
        &mut list,
        "target",
        &uuid,
        "console".to_string(),
        "today".to_string(),
        None,
    );
    assert_eq!(outcome, BanAttempt::Banned);
    assert_eq!(list.banned_players.len(), 1);
    let entry = &list.banned_players[0];
    assert_eq!(entry.name, "target");
    assert_eq!(entry.reason, "Banned by an operator.");
    assert_eq!(entry.source, "console");
    assert_eq!(entry.created, "today");
    assert!(entry.expires.is_none());
    // A second attempt changes nothing.
    let outcome = ban_player(
        &mut list,
        "target",
        &uuid,
        "console".to_string(),
        "later".to_string(),
        Some("again".to_string()),
    );
    assert_eq!(outcome, BanAttempt::AlreadyBanned);
    assert_eq!(list.banned_players.len(), 1);
    assert_eq!(list.banned_players[0].reason, "Banned by an operator.");
}

#[test]
fn ban_records_the_given_reason() {
    let mut list = BannedPlayerList::new();
    let uuid = Uuid { hi: 1, lo: 1 };
    ban_player(
        &mut list,
        "other",
        &uuid,
        "an admin".to_string(),
        "now".to_string(),
        Some("spamming".to_string()),
    );
    assert_eq!(list.banned_players[0].reason, "spamming");
    let found = list.get_entry("other", &uuid).unwrap();
    assert_eq!(found.reason, "spamming");
    // A different name under the same identity is a different profile.
    assert!(list.get_entry("Other", &uuid).is_none());
}

#[test]
fn ban_list_entry_shape() {
    let entry = BannedPlayerEntry {
        name: "n".to_string(),
        uuid: Uuid { hi: 0, lo: 0 },
        created: "c".to_string(),
        source: "s".to_string(),
        expires: None,
        reason: "r".to_string(),
    };
    assert_eq!(entry.name, "n");
}
