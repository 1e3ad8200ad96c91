//! The packet that opens the login exchange: the claimed player name,
//! bounded at sixteen UTF-8 bytes, followed by the claimed identity.

use vstd::prelude::*;

verus! {

use vstd::utf8::{valid_utf8, decode_utf8, encode_utf8};
use crate::codec::ReadingError;
use crate::cursor::{
    Uuid, be_bytes, be_value, string_at, string_bytes, string_decode_spec,
    lemma_u64_be_round_trip, read_string_bounded, write_string_bounded,
};

/// What reading a login body from the front of `s` yields: the name, the
/// two identity halves, and the bytes consumed, or the first failure -
/// the bounded string's own classification, then a source too short for
/// the sixteen identity bytes as `Incomplete`.
pub open spec fn login_decode_spec(s: Seq<u8>) -> Result<(Seq<char>, nat, nat, nat), ReadingError> {
    match string_decode_spec(s, LOGIN_NAME_MAX_BYTES as nat) {
        Ok((name, k)) => {
            if s.len() < k + 16 {
                Err(ReadingError::Incomplete)
            } else {
                Ok(
                    (
                        name,
                        be_value(s.subrange(k as int, (k + 8) as int)),
                        be_value(s.subrange((k + 8) as int, (k + 16) as int)),
                        k + 16,
                    ),
                )
            }
        },
        Err(e) => Err(e),
    }
}

/// A login body with these contents stands at `pos` in `data`.
pub open spec fn login_body_at(data: Seq<u8>, pos: nat, name: Seq<char>, hi: u64, lo: u64) -> bool {
    let sb = string_bytes(name);
    &&& string_at(data, pos, name)
    &&& encode_utf8(name).len() <= LOGIN_NAME_MAX_BYTES as nat
    &&& pos + sb.len() + 16 <= data.len()
    &&& data.subrange((pos + sb.len()) as int, (pos + sb.len() + 8) as int) == be_bytes(
        hi as nat,
        8,
    )
    &&& data.subrange((pos + sb.len() + 8) as int, (pos + sb.len() + 16) as int) == be_bytes(
        lo as nat,
        8,
    )
}

/// The most UTF-8 bytes a login name may occupy on the wire.
pub const LOGIN_NAME_MAX_BYTES: usize = 16;

/// The first serverbound login packet: name and claimed identity.
#[derive(Debug, Clone)]
pub struct SLoginStart {
    pub name: String,
    pub uuid: Uuid,
}

impl SLoginStart {
    /// The packet body on the wire: the length-prefixed name, then the
    /// sixteen identity bytes.
    pub open spec fn body_bytes(self) -> Seq<u8> {
        string_bytes(self.name@) + self.uuid.bytes()
    }

    /// Reads one body at `pos`: a name of at most sixteen UTF-8 bytes,
    /// then the identity. Whatever `write_packet_data` put at `pos`, with
    /// anything after it, comes back as the packet it was given.
    pub fn read(data: &[u8], pos: usize) -> (r: Result<(SLoginStart, usize), ReadingError>)
        requires
            pos <= data@.len(),
        ensures
            match r {
                Ok((p, n)) => login_decode_spec(data@.skip(pos as int)) == Ok::<
                    (Seq<char>, nat, nat, nat),
                    ReadingError,
                >((p.name@, p.uuid.hi as nat, p.uuid.lo as nat, (n - pos) as nat)) && pos < n
                    <= data@.len(),
                Err(e) => login_decode_spec(data@.skip(pos as int)) == Err::<
                    (Seq<char>, nat, nat, nat),
                    ReadingError,
                >(e),
            },
            match r {
                Ok((p, n)) => {
                    &&& pos < n <= data@.len()
                    &&& encode_utf8(p.name@).len() <= LOGIN_NAME_MAX_BYTES as nat
                    &&& valid_utf8(data@.subrange(n - 16 - encode_utf8(p.name@).len(), n - 16))
                    &&& p.name@ == decode_utf8(
                        data@.subrange(n - 16 - encode_utf8(p.name@).len(), n - 16),
                    )
                    &&& p.uuid.hi as nat == be_value(data@.subrange(n - 16, n - 8))
                    &&& p.uuid.lo as nat == be_value(data@.subrange(n - 8, n as int))
                },
                Err(_) => true,
            },
            forall|name: Seq<char>, hi: u64, lo: u64|
                #[trigger] login_body_at(data@, pos as nat, name, hi, lo) ==> (r matches Ok(p)
                    && p.0.name@ == name && p.0.uuid == (Uuid { hi, lo }) && p.1 == pos
                    + string_bytes(name).len() + 16),
    {
        let (name, after_name) = match read_string_bounded(data, pos, LOGIN_NAME_MAX_BYTES) {
            Ok(v) => v,
            Err(e) => {
                return Err(e);
            },
        };
        let (uuid, end) = match Uuid::read(data, after_name) {
            Ok(v) => v,
            Err(e) => {
                proof {
                    assert forall|n2: Seq<char>, hi: u64, lo: u64|
                        #[trigger] login_body_at(data@, pos as nat, n2, hi, lo) implies false by {
                        assert(name@ == n2);
                        assert(after_name == pos + string_bytes(n2).len());
                    }
                }
                return Err(e);
            },
        };
        proof {
            assert(data@.skip(pos as int).subrange(
                (after_name - pos) as int,
                (after_name - pos + 8) as int,
            ) =~= data@.subrange(after_name as int, after_name + 8));
            assert(data@.skip(pos as int).subrange(
                (after_name - pos + 8) as int,
                (after_name - pos + 16) as int,
            ) =~= data@.subrange(after_name + 8, after_name + 16));
        }
        proof {
            assert forall|n2: Seq<char>, hi: u64, lo: u64|
                #[trigger] login_body_at(data@, pos as nat, n2, hi, lo) implies name@ == n2
                && uuid == (Uuid { hi, lo }) && end == pos + string_bytes(n2).len() + 16 by {
                assert(name@ == n2);
                assert(after_name == pos + string_bytes(n2).len());
                assert(data@.subrange(after_name as int, after_name + 8) =~= be_bytes(
                    hi as nat,
                    8,
                ));
                assert(data@.subrange(after_name + 8, after_name + 16) =~= be_bytes(lo as nat, 8));
                lemma_u64_be_round_trip(hi);
                lemma_u64_be_round_trip(lo);
            }
        }
        proof {
            assert(data@.subrange(
                after_name - encode_utf8(name@).len(),
                after_name as int,
            ) =~= data@.subrange(end - 16 - encode_utf8(name@).len(), end - 16));
            assert(data@.subrange(after_name as int, after_name + 8) =~= data@.subrange(
                end - 16,
                end - 8,
            ));
            assert(data@.subrange(after_name + 8, after_name + 16) =~= data@.subrange(
                end - 8,
                end as int,
            ));
        }
        Ok((SLoginStart { name, uuid }, end))
    }

    /// Appends the packet body: the bounded name, then the identity. A
    /// name over the bound is rejected and nothing is written.
    pub fn write_packet_data(&self, out: &mut Vec<u8>) -> (r: Result<(), ReadingError>)
        ensures
            match r {
                Ok(()) => encode_utf8(self.name@).len() <= LOGIN_NAME_MAX_BYTES as nat && final(out)@ == old(out)@ + self.body_bytes(),
                Err(_) => encode_utf8(self.name@).len() > LOGIN_NAME_MAX_BYTES as nat && final(out)@ == old(out)@,
            },
    {
        let ghost start = out@;
        match write_string_bounded(self.name.as_str(), LOGIN_NAME_MAX_BYTES, out) {
            Ok(()) => {},
            Err(e) => {
                return Err(e);
            },
        }
        self.uuid.write(out);
        proof {
            assert(out@ =~= start + self.body_bytes());
        }
        Ok(())
    }
}

} // verus!
