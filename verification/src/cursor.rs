//! Typed read/write helpers layered on the integer codec: fixed-width
//! integers in network (big-endian) byte order, length-bounded strings
//! prefixed by a VarUInt byte count, and 128-bit identifiers. Writers
//! append to a byte vector; readers take a byte slice and a position and
//! return the value with the position just past its bytes.

use vstd::prelude::*;

verus! {

use vstd::utf8::{valid_utf8, decode_utf8, encode_utf8};
use vstd::string::StringSliceAdditionalSpecFns;
use vstd::string::StrSliceExecFns;
use crate::codec::{VarUInt, ReadingError, vle_bytes, var_u32_decode_spec};

/// The `n`-byte big-endian representation of `v` (low byte last).
pub open spec fn be_bytes(v: nat, n: nat) -> Seq<u8>
    decreases n,
{
    if n == 0 {
        seq![]
    } else {
        be_bytes(v / 256, (n - 1) as nat) + seq![(v % 256) as u8]
    }
}

/// The value carried by a big-endian byte sequence.
pub open spec fn be_value(s: Seq<u8>) -> nat
    decreases s.len(),
{
    if s.len() == 0 {
        0
    } else {
        256 * be_value(s.drop_last()) + s.last() as nat
    }
}

/// 256 to the power k.
pub open spec fn p256(k: nat) -> nat
    decreases k,
{
    if k == 0 {
        1
    } else {
        256 * p256((k - 1) as nat)
    }
}

/// Round trip: reading back the big-endian bytes of a value below the
/// width's capacity yields the value.
pub proof fn lemma_be_round_trip(v: nat, n: nat)
    requires
        v < p256(n),
    ensures
        be_bytes(v, n).len() == n,
        be_value(be_bytes(v, n)) == v,
    decreases n,
{
    if n > 0 {
        assert(v / 256 < p256((n - 1) as nat)) by (nonlinear_arith)
            requires
                v < 256 * p256((n - 1) as nat),
        ;
        lemma_be_round_trip(v / 256, (n - 1) as nat);
        let s = be_bytes(v, n);
        assert(s.drop_last() =~= be_bytes(v / 256, (n - 1) as nat));
        vstd::arithmetic::div_mod::lemma_fundamental_div_mod(v as int, 256);
    }
}

/// Round trip at the 64-bit width: every value fits it.
pub proof fn lemma_u64_be_round_trip(v: u64)
    ensures
        be_bytes(v as nat, 8).len() == 8,
        be_value(be_bytes(v as nat, 8)) == v as nat,
{
    lemma_p256_small();
    lemma_be_round_trip(v as nat, 8);
}

/// Concrete capacities used for overflow bounds.
proof fn lemma_p256_small()
    ensures
        p256(2) == 0x1_0000,
        p256(4) == 0x1_0000_0000,
        p256(8) == 0x1_0000_0000_0000_0000,
{
    assert(p256(0) == 1);
    assert(p256(1) == 256 * p256(0));
    assert(p256(2) == 256 * p256(1));
    assert(p256(3) == 256 * p256(2));
    assert(p256(4) == 256 * p256(3));
    assert(p256(5) == 256 * p256(4));
    assert(p256(6) == 256 * p256(5));
    assert(p256(7) == 256 * p256(6));
    assert(p256(8) == 256 * p256(7));
}

/// Capacities are at least 1.
proof fn lemma_p256_pos(k: nat)
    ensures
        p256(k) >= 1,
    decreases k,
{
    if k > 0 {
        lemma_p256_pos((k - 1) as nat);
    }
}

/// Capacities do not decrease with the width.
proof fn lemma_p256_mono(j: nat, k: nat)
    requires
        j <= k,
    ensures
        p256(j) <= p256(k),
    decreases k,
{
    if j < k {
        lemma_p256_mono(j, (k - 1) as nat);
        lemma_p256_pos((k - 1) as nat);
    }
}

/// Appends one byte.
pub fn write_u8(v: u8, out: &mut Vec<u8>)
    ensures
        final(out)@ == old(out)@ + seq![v],
{
    let ghost start = out@;
    out.push(v);
    assert(out@ =~= start + seq![v]);
}

/// Reads one byte.
pub fn read_u8(data: &[u8], pos: usize) -> (r: Result<(u8, usize), ReadingError>)
    requires
        pos <= data@.len(),
    ensures
        match r {
            Ok((v, n)) => pos < data@.len() && v == data@[pos as int] && n == pos + 1,
            Err(e) => pos == data@.len() && e == ReadingError::Incomplete,
        },
{
    if pos == data.len() {
        return Err(ReadingError::Incomplete);
    }
    Ok((data[pos], pos + 1))
}

/// Appends a 16-bit value in big-endian order.
pub fn write_u16_be(v: u16, out: &mut Vec<u8>)
    ensures
        final(out)@ == old(out)@ + be_bytes(v as nat, 2),
{
    let ghost start = out@;
    out.push((v / 256) as u8);
    out.push((v % 256) as u8);
    proof {
        let b = be_bytes(v as nat, 2);
        assert(b == be_bytes(v as nat / 256, 1) + seq![(v as nat % 256) as u8]);
        assert(be_bytes(v as nat / 256, 1) == be_bytes(v as nat / 256 / 256, 0) + seq![
            (v as nat / 256 % 256) as u8,
        ]);
        assert(out@ =~= start + b);
    }
}

/// Reads a 16-bit big-endian value.
pub fn read_u16_be(data: &[u8], pos: usize) -> (r: Result<(u16, usize), ReadingError>)
    requires
        pos <= data@.len(),
    ensures
        match r {
            Ok((v, n)) => pos + 2 <= data@.len() && n == pos + 2 && v as nat == be_value(
                data@.subrange(pos as int, pos + 2),
            ),
            Err(e) => data@.len() < pos + 2 && e == ReadingError::Incomplete,
        },
{
    if data.len() - pos < 2 {
        return Err(ReadingError::Incomplete);
    }
    let b0 = data[pos];
    let b1 = data[pos + 1];
    let v: u16 = (b0 as u16) * 256 + (b1 as u16);
    proof {
        let s = data@.subrange(pos as int, pos + 2);
        assert(s.drop_last() =~= seq![b0]);
        assert(seq![b0].drop_last() =~= Seq::<u8>::empty());
        assert(s.last() == b1);
        assert(be_value(seq![b0]) == 256 * be_value(Seq::<u8>::empty()) + b0 as nat);
        assert(be_value(s) == 256 * be_value(seq![b0]) + b1 as nat);
    }
    Ok((v, pos + 2))
}

/// Appends a 64-bit value in big-endian order.
pub fn write_u64_be(v: u64, out: &mut Vec<u8>)
    ensures
        final(out)@ == old(out)@ + be_bytes(v as nat, 8),
{
    let ghost start = out@;
    let r1: u64 = v / 256;
    let r2: u64 = r1 / 256;
    let r3: u64 = r2 / 256;
    let r4: u64 = r3 / 256;
    let r5: u64 = r4 / 256;
    let r6: u64 = r5 / 256;
    let r7: u64 = r6 / 256;
    out.push((r7 % 256) as u8);
    out.push((r6 % 256) as u8);
    out.push((r5 % 256) as u8);
    out.push((r4 % 256) as u8);
    out.push((r3 % 256) as u8);
    out.push((r2 % 256) as u8);
    out.push((r1 % 256) as u8);
    out.push((v % 256) as u8);
    proof {
        assert(be_bytes(v as nat, 8) == be_bytes(r1 as nat, 7) + seq![(v % 256) as u8]);
        assert(be_bytes(r1 as nat, 7) == be_bytes(r2 as nat, 6) + seq![(r1 % 256) as u8]);
        assert(be_bytes(r2 as nat, 6) == be_bytes(r3 as nat, 5) + seq![(r2 % 256) as u8]);
        assert(be_bytes(r3 as nat, 5) == be_bytes(r4 as nat, 4) + seq![(r3 % 256) as u8]);
        assert(be_bytes(r4 as nat, 4) == be_bytes(r5 as nat, 3) + seq![(r4 % 256) as u8]);
        assert(be_bytes(r5 as nat, 3) == be_bytes(r6 as nat, 2) + seq![(r5 % 256) as u8]);
        assert(be_bytes(r6 as nat, 2) == be_bytes(r7 as nat, 1) + seq![(r6 % 256) as u8]);
        assert(be_bytes(r7 as nat, 1) == be_bytes(0, 0) + seq![(r7 % 256) as u8]);
        assert(be_bytes(0, 0) =~= Seq::<u8>::empty());
        assert(out@ =~= start + be_bytes(v as nat, 8));
    }
}

/// Reads a 64-bit big-endian value.
pub fn read_u64_be(data: &[u8], pos: usize) -> (r: Result<(u64, usize), ReadingError>)
    requires
        pos <= data@.len(),
    ensures
        match r {
            Ok((v, n)) => pos + 8 <= data@.len() && n == pos + 8 && v as nat == be_value(
                data@.subrange(pos as int, pos + 8),
            ),
            Err(e) => data@.len() < pos + 8 && e == ReadingError::Incomplete,
        },
{
    if data.len() - pos < 8 {
        return Err(ReadingError::Incomplete);
    }
    let mut v: u64 = 0;
    let mut i: usize = 0;
    while i < 8
        invariant
            i <= 8,
            pos + 8 <= data@.len(),
            data@.len() <= usize::MAX,
            v as nat == be_value(data@.subrange(pos as int, pos + i)),
            (v as nat) < p256(i as nat),
        decreases 8 - i,
    {
        proof {
            lemma_p256_small();
            lemma_p256_mono(i as nat, 7);
            let s = data@.subrange(pos as int, pos + i + 1);
            assert(s.drop_last() =~= data@.subrange(pos as int, pos + i));
            assert(s.last() == data@[pos + i]);
        }
        let b = data[pos + i];
        v = v * 256 + (b as u64);
        i = i + 1;
    }
    Ok((v, pos + 8))
}

/// A 128-bit identifier, held as its sixteen bytes split big-endian into
/// a high and a low 64-bit half.
#[derive(Debug, Clone, Copy, PartialEq, Eq, Structural)]
pub struct Uuid {
    pub hi: u64,
    pub lo: u64,
}

impl Uuid {
    /// The sixteen wire bytes of this identifier, in order.
    pub open spec fn bytes(self) -> Seq<u8> {
        be_bytes(self.hi as nat, 8) + be_bytes(self.lo as nat, 8)
    }

    /// Appends the sixteen bytes of this identifier.
    pub fn write(&self, out: &mut Vec<u8>)
        ensures
            final(out)@ == old(out)@ + self.bytes(),
    {
        let ghost start = out@;
        write_u64_be(self.hi, out);
        write_u64_be(self.lo, out);
        assert(out@ =~= start + self.bytes());
    }

    /// Reads sixteen bytes as an identifier.
    pub fn read(data: &[u8], pos: usize) -> (r: Result<(Uuid, usize), ReadingError>)
        requires
            pos <= data@.len(),
        ensures
            match r {
                Ok((u, n)) => pos + 16 <= data@.len() && n == pos + 16 && u.hi as nat == be_value(
                    data@.subrange(pos as int, pos + 8),
                ) && u.lo as nat == be_value(data@.subrange(pos + 8, pos + 16)),
                Err(e) => data@.len() < pos + 16 && e == ReadingError::Incomplete,
            },
    {
        if data.len() - pos < 16 {
            return Err(ReadingError::Incomplete);
        }
        let hi = match read_u64_be(data, pos) {
            Ok((v, _)) => v,
            Err(e) => {
                return Err(e);
            },
        };
        let lo = match read_u64_be(data, pos + 8) {
            Ok((v, _)) => v,
            Err(e) => {
                return Err(e);
            },
        };
        Ok((Uuid { hi, lo }, pos + 16))
    }
}

/// Turns bytes into a string exactly when they are valid UTF-8.
///
/// Relies on std's `String::from_utf8`: it succeeds if and only if the
/// bytes are valid UTF-8, and then returns the string those bytes spell.
#[verifier::external_body]
fn bytes_to_string(b: Vec<u8>) -> (r: Option<String>)
    ensures
        match r {
            Some(s) => valid_utf8(b@) && s@ == decode_utf8(b@),
            None => !valid_utf8(b@),
        },
{
    match String::from_utf8(b) {
        Ok(s) => Some(s),
        Err(_) => None,
    }
}

/// The wire form of a string: its UTF-8 byte count as a VarUInt, then the
/// bytes themselves.
pub open spec fn string_bytes(s: Seq<char>) -> Seq<u8> {
    vle_bytes(encode_utf8(s).len()) + encode_utf8(s)
}

/// Appends a string whose UTF-8 form is at most `max` bytes long.
pub fn write_string_bounded(s: &str, max: usize, out: &mut Vec<u8>) -> (r: Result<
    (),
    ReadingError,
>)
    requires
        max <= 0x7FFF_FFFF,
    ensures
        match r {
            Ok(()) => s.spec_bytes().len() <= max as nat && final(out)@ == old(out)@
                + string_bytes(s@),
            Err(e) => s.spec_bytes().len() > max as nat && e == ReadingError::TooLarge
                && final(out)@ == old(out)@,
        },
{
    let ghost start = out@;
    let bytes = s.as_bytes_vec();
    if bytes.len() > max {
        return Err(ReadingError::TooLarge);
    }
    let len = VarUInt(bytes.len() as u32);
    len.encode(out);
    proof {
        assert(out@ =~= start + vle_bytes(bytes@.len()) + bytes@.subrange(0, 0));
    }
    let mut i: usize = 0;
    while i < bytes.len()
        invariant
            i <= bytes@.len(),
            bytes@.len() <= 0x7FFF_FFFF,
            bytes@ == s.spec_bytes(),
            out@ == start + vle_bytes(bytes@.len()) + bytes@.subrange(0, i as int),
        decreases bytes@.len() - i,
    {
        let ghost before = out@;
        out.push(bytes[i]);
        proof {
            assert(bytes@.subrange(0, i + 1) =~= bytes@.subrange(0, i as int) + seq![
                bytes@[i as int],
            ]);
            assert(out@ =~= before + seq![bytes@[i as int]]);
        }
        i = i + 1;
    }
    proof {
        assert(bytes@.subrange(0, bytes@.len() as int) =~= bytes@);
        assert(out@ =~= start + string_bytes(s@));
    }
    Ok(())
}

/// What reading a length-prefixed string of at most `max` UTF-8 bytes
/// from the front of `s` yields: the string and the bytes consumed, or
/// the first failure - a bad length prefix as the codec classifies it,
/// a declared length over the bound as `TooLarge`, a source too short as
/// `Incomplete`, bytes that spell no UTF-8 as `Malformed`.
pub open spec fn string_decode_spec(s: Seq<u8>, max: nat) -> Result<
    (Seq<char>, nat),
    ReadingError,
> {
    match var_u32_decode_spec(s) {
        Ok((len, k)) => {
            if len > max {
                Err(ReadingError::TooLarge)
            } else if s.len() < k + len {
                Err(ReadingError::Incomplete)
            } else if !valid_utf8(s.subrange(k as int, (k + len) as int)) {
                Err(ReadingError::Malformed)
            } else {
                Ok((decode_utf8(s.subrange(k as int, (k + len) as int)), k + len))
            }
        },
        Err(e) => Err(e),
    }
}

/// A string's wire form stands at `pos` in `data`.
pub open spec fn string_at(data: Seq<u8>, pos: nat, s: Seq<char>) -> bool {
    let sb = string_bytes(s);
    pos + sb.len() <= data.len() && data.subrange(pos as int, (pos + sb.len()) as int) == sb
}

/// What decoding a string's wire form gives: its own byte count, then its
/// own bytes.
proof fn lemma_string_at_decodes(data: Seq<u8>, pos: nat, s: Seq<char>)
    requires
        pos <= data.len(),
        string_at(data, pos, s),
        encode_utf8(s).len() <= 0x7FFF_FFFF,
    ensures
        var_u32_decode_spec(data.skip(pos as int)) == Ok::<(nat, nat), ReadingError>(
            (encode_utf8(s).len(), vle_bytes(encode_utf8(s).len()).len()),
        ),
        data.subrange(
            (pos + vle_bytes(encode_utf8(s).len()).len()) as int,
            (pos + string_bytes(s).len()) as int,
        ) == encode_utf8(s),
{
    let sb = string_bytes(s);
    let blen = encode_utf8(s).len();
    let rest = data.skip((pos + sb.len()) as int);
    assert(data.skip(pos as int) =~= sb + rest);
    assert(sb + rest =~= vle_bytes(blen) + (encode_utf8(s) + rest));
    crate::codec::lemma_var_u32_round_trip(blen, encode_utf8(s) + rest);
    let vlen = vle_bytes(blen).len() as int;
    assert forall|j: int| 0 <= j < blen implies data[pos + vlen + j] == encode_utf8(s)[j] by {
        assert(data.skip(pos as int)[vlen + j] == data[pos + vlen + j]);
        assert((sb + rest)[vlen + j] == sb[vlen + j]);
    }
    assert(data.subrange(pos as int + vlen, (pos + sb.len()) as int) =~= encode_utf8(s));
}

/// Reads a length-prefixed string of at most `max` UTF-8 bytes: exactly
/// what `string_decode_spec` says stands at `pos`, value and failure
/// alike. Whatever `write_string_bounded` put at `pos`, with anything
/// after it, comes back as the string it was given.
pub fn read_string_bounded(data: &[u8], pos: usize, max: usize) -> (r: Result<
    (String, usize),
    ReadingError,
>)
    requires
        pos <= data@.len(),
        max <= 0x7FFF_FFFF,
    ensures
        match r {
            Ok((s, n)) => string_decode_spec(data@.skip(pos as int), max as nat) == Ok::<
                (Seq<char>, nat),
                ReadingError,
            >((s@, (n - pos) as nat)) && pos < n <= data@.len(),
            Err(e) => string_decode_spec(data@.skip(pos as int), max as nat) == Err::<
                (Seq<char>, nat),
                ReadingError,
            >(e),
        },
        match r {
            Ok((s, n)) => {
                let body = data@.subrange(n - encode_utf8(s@).len() as int, n as int);
                pos < n <= data@.len() && valid_utf8(body) && s@ == decode_utf8(body)
                    && encode_utf8(s@).len() <= max as nat
            },
            Err(_) => true,
        },
        forall|s: Seq<char>|
            #[trigger] string_at(data@, pos as nat, s) && encode_utf8(s).len() <= max as nat ==> (
            r matches Ok(p) && p.0@ == s && p.1 == pos + string_bytes(s).len()),
{
    proof {
        broadcast use vstd::utf8::encode_utf8_valid_utf8;
        broadcast use vstd::utf8::encode_utf8_decode_utf8;

        assert forall|s: Seq<char>|
            #[trigger] string_at(data@, pos as nat, s) && encode_utf8(s).len()
                <= max as nat implies var_u32_decode_spec(data@.skip(pos as int)) == Ok::<
            (nat, nat),
            ReadingError,
        >((encode_utf8(s).len(), vle_bytes(encode_utf8(s).len()).len())) by {
            lemma_string_at_decodes(data@, pos as nat, s);
        }
    }
    let (len, body_start) = match VarUInt::decode(data, pos) {
        Ok(v) => v,
        Err(e) => {
            proof {
                assert forall|s: Seq<char>|
                    #[trigger] string_at(data@, pos as nat, s) && encode_utf8(s).len()
                        <= max as nat implies false by {
                    lemma_string_at_decodes(data@, pos as nat, s);
                }
            }
            return Err(e);
        },
    };
    let len = len.0;
    if (len as usize) > max {
        proof {
            assert forall|s: Seq<char>|
                #[trigger] string_at(data@, pos as nat, s) && encode_utf8(s).len()
                    <= max as nat implies false by {
                lemma_string_at_decodes(data@, pos as nat, s);
            }
        }
        return Err(ReadingError::TooLarge);
    }
    if ((data.len() - body_start) as u64) < (len as u64) {
        proof {
            assert forall|s: Seq<char>|
                #[trigger] string_at(data@, pos as nat, s) && encode_utf8(s).len()
                    <= max as nat implies false by {
                lemma_string_at_decodes(data@, pos as nat, s);
            }
        }
        return Err(ReadingError::Incomplete);
    }
    let len = len as usize;
    let mut body: Vec<u8> = Vec::new();
    let mut i: usize = 0;
    while i < len
        invariant
            i <= len,
            body_start + len <= data@.len(),
            data@.len() <= usize::MAX,
            body@ == data@.subrange(body_start as int, body_start + i),
        decreases len - i,
    {
        let ghost before = body@;
        body.push(data[body_start + i]);
        proof {
            assert(data@.subrange(body_start as int, body_start + i + 1) =~= data@.subrange(
                body_start as int,
                body_start + i,
            ) + seq![data@[body_start + i]]);
            assert(body@ =~= before + seq![data@[body_start + i]]);
        }
        i = i + 1;
    }
    let ghost body_view = body@;
    proof {
        broadcast use vstd::utf8::encode_utf8_valid_utf8;
        broadcast use vstd::utf8::encode_utf8_decode_utf8;

        assert(data@.skip(pos as int).subrange(
            (body_start - pos) as int,
            (body_start - pos + len) as int,
        ) =~= data@.subrange(body_start as int, body_start + len));

        assert forall|s: Seq<char>|
            #[trigger] string_at(data@, pos as nat, s) && encode_utf8(s).len()
                <= max as nat implies body_view == encode_utf8(s) && valid_utf8(body_view)
            && decode_utf8(body_view) == s && body_start + len == pos + string_bytes(s).len() by {
            lemma_string_at_decodes(data@, pos as nat, s);
        }
    }
    match bytes_to_string(body) {
        Some(s) => {
            proof {
                vstd::utf8::decode_utf8_encode_utf8(body_view);
            }
            Ok((s, body_start + len))
        },
        None => Err(ReadingError::Malformed),
    }
}

} // verus!
