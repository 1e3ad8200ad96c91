//! The shared moderation tables as the sessions read them: the operator
//! list, the banned-player list, and the decision that bans a player.
//! Loading and saving these tables, and stamping the clock, happen at the
//! caller; the logic here works on the entries as plain values.

use vstd::prelude::*;

verus! {

use vstd::string::StringSliceAdditionalSpecFns;
use vstd::utf8::{encode_utf8, decode_utf8, encode_utf8_decode_utf8};
use crate::cursor::Uuid;

/// Whether two strings spell the same characters.
pub fn str_eq(a: &str, b: &str) -> (r: bool)
    ensures
        r == (a@ == b@),
{
    let ab = a.as_bytes();
    let bb = b.as_bytes();
    if ab.len() != bb.len() {
        proof {
            broadcast use encode_utf8_decode_utf8;

            assert(a@ != b@);
        }
        return false;
    }
    let n = ab.len();
    let mut i: usize = 0;
    while i < n
        invariant
            i <= n,
            n == ab@.len(),
            n == bb@.len(),
            ab@ == a.spec_bytes(),
            bb@ == b.spec_bytes(),
            forall|j: int| 0 <= j < i ==> ab@[j] == bb@[j],
        decreases n - i,
    {
        if ab[i] != bb[i] {
            proof {
                broadcast use encode_utf8_decode_utf8;

                assert(encode_utf8(a@) != encode_utf8(b@)) by {
                    assert(encode_utf8(a@)[i as int] != encode_utf8(b@)[i as int]);
                }
            }
            return false;
        }
        i = i + 1;
    }
    proof {
        broadcast use encode_utf8_decode_utf8;

        assert(encode_utf8(a@) =~= encode_utf8(b@));
        assert(decode_utf8(encode_utf8(a@)) == decode_utf8(encode_utf8(b@)));
    }
    true
}

/// One operator entry, as the operator file carries it.
#[derive(Debug, Clone)]
pub struct Op {
    pub uuid: Uuid,
    pub name: String,
    pub level: u8,
    pub bypasses_player_limit: bool,
}

/// The operator table.
#[derive(Debug, Clone)]
pub struct OperatorConfig {
    pub ops: Vec<Op>,
}

impl OperatorConfig {
    /// The first operator entry recorded for this identity, if any: the
    /// one at the least matching index, as the table is searched front to
    /// back.
    pub fn get_entry(&self, uuid: &Uuid) -> (r: Option<&Op>)
        ensures
            match r {
                Some(op) => exists|i: int|
                    0 <= i < self.ops@.len() && #[trigger] self.ops@[i].uuid == uuid && op
                        == self.ops@[i] && (forall|j: int|
                        0 <= j < i ==> #[trigger] self.ops@[j].uuid != uuid),
                None => forall|i: int|
                    0 <= i < self.ops@.len() ==> #[trigger] self.ops@[i].uuid != uuid,
            },
    {
        let n = self.ops.len();
        let mut i: usize = 0;
        while i < n
            invariant
                i <= n,
                n == self.ops@.len(),
                forall|j: int| 0 <= j < i ==> #[trigger] self.ops@[j].uuid != uuid,
            decreases n - i,
        {
            let op = &self.ops[i];
            if op.uuid.hi == uuid.hi && op.uuid.lo == uuid.lo {
                proof {
                    assert(self.ops@[i as int].uuid == uuid);
                }
                return Some(op);
            }
            i = i + 1;
        }
        None
    }
}

/// One ban entry, as the ban file carries it; the timestamps are already
/// rendered by the caller's clock formatting.
#[derive(Debug, Clone)]
pub struct BannedPlayerEntry {
    pub name: String,
    pub uuid: Uuid,
    pub created: String,
    pub source: String,
    pub expires: Option<String>,
    pub reason: String,
}

/// The banned-player table.
#[derive(Debug, Clone)]
pub struct BannedPlayerList {
    pub banned_players: Vec<BannedPlayerEntry>,
}

/// An entry covers a profile when it records the same identity and the
/// same name.
pub open spec fn entry_matches(entry: BannedPlayerEntry, name: Seq<char>, uuid: Uuid) -> bool {
    entry.uuid == uuid && entry.name@ == name
}

impl BannedPlayerList {
    /// The table with nothing in it.
    pub fn new() -> (r: BannedPlayerList)
        ensures
            r.banned_players@.len() == 0,
    {
        BannedPlayerList { banned_players: Vec::new() }
    }

    /// The first ban recorded for this profile, if any: the one at the
    /// least matching index, as the table is searched front to back.
    pub fn get_entry(&self, name: &str, uuid: &Uuid) -> (r: Option<&BannedPlayerEntry>)
        ensures
            match r {
                Some(entry) => exists|i: int|
                    0 <= i < self.banned_players@.len() && entry_matches(
                        #[trigger] self.banned_players@[i],
                        name@,
                        *uuid,
                    ) && entry == self.banned_players@[i] && (forall|j: int|
                        0 <= j < i ==> !entry_matches(
                            #[trigger] self.banned_players@[j],
                            name@,
                            *uuid,
                        )),
                None => forall|i: int|
                    0 <= i < self.banned_players@.len() ==> !entry_matches(
                        #[trigger] self.banned_players@[i],
                        name@,
                        *uuid,
                    ),
            },
    {
        let n = self.banned_players.len();
        let mut i: usize = 0;
        while i < n
            invariant
                i <= n,
                n == self.banned_players@.len(),
                forall|j: int|
                    0 <= j < i ==> !entry_matches(#[trigger] self.banned_players@[j], name@, *uuid),
            decreases n - i,
        {
            let entry = &self.banned_players[i];
            if entry.uuid.hi == uuid.hi && entry.uuid.lo == uuid.lo && str_eq(
                entry.name.as_str(),
                name,
            ) {
                proof {
                    assert(entry_matches(self.banned_players@[i as int], name@, *uuid));
                }
                return Some(entry);
            }
            i = i + 1;
        }
        None
    }
}

/// How a ban attempt ended.
#[derive(Debug, Clone, Copy, PartialEq, Eq, Structural)]
pub enum BanAttempt {
    /// The profile was banned already; the table is unchanged and the
    /// sender is told the command failed.
    AlreadyBanned,
    /// A new entry was appended; the sender is told, and the player is
    /// kicked.
    Banned,
}

/// The fallback reason recorded when the command gives none.
pub open spec fn default_ban_reason() -> Seq<char> {
    "Banned by an operator."@
}

/// Bans a profile: a profile already in the table leaves it unchanged;
/// otherwise one entry is appended, with the given reason or the default,
/// no expiry, and the caller's source and clock stamp. Saving the table
/// and sending the messages follow at the caller.
pub fn ban_player(
    list: &mut BannedPlayerList,
    name: &str,
    uuid: &Uuid,
    source: String,
    created: String,
    reason: Option<String>,
) -> (r: BanAttempt)
    ensures
        (exists|i: int|
            0 <= i < old(list).banned_players@.len() && entry_matches(
                #[trigger] old(list).banned_players@[i],
                name@,
                *uuid,
            )) ==> r == BanAttempt::AlreadyBanned && final(list).banned_players@ == old(
            list,
        ).banned_players@,
        (forall|i: int|
            0 <= i < old(list).banned_players@.len() ==> !entry_matches(
                #[trigger] old(list).banned_players@[i],
                name@,
                *uuid,
            )) ==> r == BanAttempt::Banned && final(list).banned_players@.len() == old(
            list,
        ).banned_players@.len() + 1 && final(list).banned_players@.drop_last() == old(
            list,
        ).banned_players@ && {
            let e = final(list).banned_players@.last();
            &&& e.name@ == name@
            &&& e.uuid == uuid
            &&& e.source == source
            &&& e.created == created
            &&& e.expires is None
            &&& e.reason@ == match reason {
                Some(given) => given@,
                None => default_ban_reason(),
            }
        },
{
    if list.get_entry(name, uuid).is_some() {
        return BanAttempt::AlreadyBanned;
    }
    let reason_text = match reason {
        Some(given) => given,
        None => "Banned by an operator.".to_owned(),
    };
    let entry = BannedPlayerEntry {
        name: name.to_owned(),
        uuid: Uuid { hi: uuid.hi, lo: uuid.lo },
        created,
        source,
        expires: None,
        reason: reason_text,
    };
    let ghost before = list.banned_players@;
    list.banned_players.push(entry);
    proof {
        assert(list.banned_players@.drop_last() =~= before);
    }
    BanAttempt::Banned
}

} // verus!
