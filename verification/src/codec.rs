//! Variable-length integer codecs: the 32-bit-carrying VarInt / VarUInt
//! family (at most 5 bytes) and the 64-bit-carrying VarLong family (at
//! most 10 bytes). A value is encoded little-end-first in 7-bit groups,
//! the high bit of each byte marking that more bytes follow. Encoding is
//! canonical (minimal); decoding rejects an over-long continuation chain
//! and a chain whose value lies outside the carried integer's range.

use vstd::prelude::*;

verus! {

use vstd::arithmetic::div_mod::lemma_fundamental_div_mod;

/// Outcome of a failed read from a byte source.
#[derive(Debug, Clone, Copy, PartialEq, Eq, Structural)]
pub enum ReadingError {
    /// The source ended before the value was terminated.
    Incomplete,
    /// The continuation chain ran past the type's maximum length, or the
    /// carried value lies outside the type's range.
    TooLarge,
    /// The bytes do not spell a well-formed value of the expected shape.
    Malformed,
}

/// The minimal 7-bit little-end-first byte chain encoding a value.
pub open spec fn vle_bytes(v: nat) -> Seq<u8>
    decreases v,
{
    if v < 128 {
        seq![v as u8]
    } else {
        seq![(v % 128 + 128) as u8] + vle_bytes(v / 128)
    }
}

/// 128 to the power k: the place value of the k-th 7-bit group.
pub open spec fn p128(k: nat) -> nat
    decreases k,
{
    if k == 0 {
        1
    } else {
        128 * p128((k - 1) as nat)
    }
}

/// What decoding a 7-bit chain from the front of `s` yields, reading at
/// most `max_len` bytes: the carried value and the bytes consumed.
pub open spec fn vle_decode_spec(s: Seq<u8>, max_len: nat) -> Result<(nat, nat), ReadingError>
    decreases max_len,
{
    if max_len == 0 {
        Err(ReadingError::TooLarge)
    } else if s.len() == 0 {
        Err(ReadingError::Incomplete)
    } else if s[0] < 128 {
        Ok((s[0] as nat, 1))
    } else {
        match vle_decode_spec(s.drop_first(), (max_len - 1) as nat) {
            Ok((v, n)) => Ok(((s[0] - 128) as nat + 128 * v, n + 1)),
            Err(e) => Err(e),
        }
    }
}

/// Place values are at least 1.
pub proof fn lemma_p128_pos(k: nat)
    ensures
        p128(k) >= 1,
    decreases k,
{
    if k > 0 {
        lemma_p128_pos((k - 1) as nat);
    }
}

/// Place values do not decrease with the group index.
pub proof fn lemma_p128_mono(j: nat, k: nat)
    requires
        j <= k,
    ensures
        p128(j) <= p128(k),
    decreases k,
{
    if j < k {
        lemma_p128_mono(j, (k - 1) as nat);
        lemma_p128_pos((k - 1) as nat);
    }
}

/// A decoded value is below the place value of the last admissible group,
/// and consumes between 1 and `max_len` bytes of `s`.
pub proof fn lemma_vle_decode_bound(s: Seq<u8>, max_len: nat)
    ensures
        vle_decode_spec(s, max_len) matches Ok((v, n)) ==> v < p128(max_len) && 1 <= n <= max_len
            && n <= s.len(),
    decreases max_len,
{
    if max_len > 0 && s.len() > 0 && s[0] < 128 {
        lemma_p128_mono(1, max_len);
        assert(p128(1nat) == 128 * p128(0nat));
    }
    if max_len > 0 && s.len() > 0 && s[0] >= 128 {
        lemma_vle_decode_bound(s.drop_first(), (max_len - 1) as nat);
        match vle_decode_spec(s.drop_first(), (max_len - 1) as nat) {
            Ok((v, n)) => {
                assert((s[0] - 128) as nat + 128 * v < 128 * p128((max_len - 1) as nat)) by {
                    assert(128 * v <= 128 * (p128((max_len - 1) as nat) - 1)) by (nonlinear_arith)
                        requires
                            v <= p128((max_len - 1) as nat) - 1,
                    ;
                }
            },
            Err(_) => {},
        }
    }
}

/// The encoding of a value below the place value of group k is at most
/// k bytes long.
pub proof fn lemma_vle_bytes_len(v: nat, k: nat)
    requires
        1 <= k,
        v < p128(k),
    ensures
        vle_bytes(v).len() <= k,
    decreases v,
{
    if v >= 128 {
        assert(k >= 2) by {
            if k == 1 {
                assert(p128(0nat) == 1);
                assert(p128(1nat) == 128);
            }
        }
        assert(v / 128 < p128((k - 1) as nat)) by (nonlinear_arith)
            requires
                v < 128 * p128((k - 1) as nat),
        ;
        lemma_vle_bytes_len(v / 128, (k - 1) as nat);
    }
}

/// Round trip: decoding the encoding of `v`, with anything at all after
/// it, yields `v` back and consumes exactly the encoding.
pub proof fn lemma_vle_round_trip(v: nat, rest: Seq<u8>, max_len: nat)
    requires
        vle_bytes(v).len() <= max_len,
    ensures
        vle_decode_spec(vle_bytes(v) + rest, max_len) == Ok::<(nat, nat), ReadingError>(
            (v, vle_bytes(v).len()),
        ),
    decreases v,
{
    let s = vle_bytes(v) + rest;
    if v < 128 {
        assert(s[0] == v as u8);
    } else {
        assert(s[0] == (v % 128 + 128) as u8);
        assert(s.drop_first() =~= vle_bytes(v / 128) + rest);
        lemma_vle_round_trip(v / 128, rest, (max_len - 1) as nat);
        lemma_fundamental_div_mod(v as int, 128);
    }
}

/// Canonical form: a multi-byte encoding never ends in a byte that is
/// zero (which could be dropped) or that still carries a continuation
/// bit.
pub proof fn lemma_vle_canonical(v: nat)
    ensures
        vle_bytes(v).len() > 1 ==> 1 <= vle_bytes(v).last() < 128,
        vle_bytes(v).last() < 128,
    decreases v,
{
    if v >= 128 {
        lemma_vle_canonical(v / 128);
        assert(vle_bytes(v).last() == vle_bytes(v / 128).last());
        if vle_bytes(v / 128).len() == 1 {
            assert(vle_bytes(v / 128) =~= seq![(v / 128) as u8]);
        }
    }
}

/// The unsigned reading of a signed 64-bit value: its two's-complement
/// bit pattern as a number.
pub open spec fn u64_of_i64(v: i64) -> nat {
    if v >= 0 {
        v as nat
    } else {
        (v + 0x1_0000_0000_0000_0000) as nat
    }
}

/// The unsigned reading of a signed 32-bit value.
pub open spec fn u32_of_i32(v: i32) -> nat {
    if v >= 0 {
        v as nat
    } else {
        (v + 0x1_0000_0000) as nat
    }
}

fn i64_to_u64(v: i64) -> (r: u64)
    ensures
        r as nat == u64_of_i64(v),
{
    if v >= 0 {
        v as u64
    } else {
        ((v - i64::MIN) as u64) + 0x8000_0000_0000_0000u64
    }
}

fn u64_to_i64(r: u64) -> (v: i64)
    ensures
        u64_of_i64(v) == r as nat,
{
    if r < 0x8000_0000_0000_0000u64 {
        r as i64
    } else {
        ((r - 0x8000_0000_0000_0000u64) as i64) + i64::MIN
    }
}

fn i32_to_u32(v: i32) -> (r: u32)
    ensures
        r as nat == u32_of_i32(v),
{
    if v >= 0 {
        v as u32
    } else {
        ((v - i32::MIN) as u32) + 0x8000_0000u32
    }
}

fn u32_to_i32(r: u32) -> (v: i32)
    ensures
        u32_of_i32(v) == r as nat,
{
    if r < 0x8000_0000u32 {
        r as i32
    } else {
        ((r - 0x8000_0000u32) as i32) + i32::MIN
    }
}

/// Appends the 7-bit chain for `v` to `out`.
fn encode_vle_u64(v: u64, out: &mut Vec<u8>)
    ensures
        final(out)@ == old(out)@ + vle_bytes(v as nat),
{
    let mut x: u64 = v;
    while x >= 128
        invariant
            old(out)@ + vle_bytes(v as nat) == out@ + vle_bytes(x as nat),
        decreases x,
    {
        out.push((x % 128 + 128) as u8);
        x = x / 128;
    }
    out.push(x as u8);
    assert(vle_bytes(x as nat) =~= seq![x as u8]);
}

/// The number of bytes the 7-bit chain for `v` occupies.
fn vle_written_size_u64(v: u64) -> (n: usize)
    ensures
        n as nat == vle_bytes(v as nat).len(),
        1 <= n <= 10,
{
    proof {
        lemma_p128_small();
        lemma_vle_bytes_len(v as nat, 10);
    }
    let mut x: u64 = v;
    let mut n: usize = 1;
    while x >= 128
        invariant
            n as nat + vle_bytes(x as nat).len() == 1 + vle_bytes(v as nat).len(),
            n >= 1,
            vle_bytes(v as nat).len() <= 10,
        decreases x,
    {
        n = n + 1;
        x = x / 128;
    }
    assert(vle_bytes(x as nat).len() == 1);
    n
}

/// Concrete place values needed for overflow bounds.
proof fn lemma_p128_small()
    ensures
        p128(4) == 0x1000_0000,
        p128(5) == 0x8_0000_0000,
        p128(9) == 0x8000_0000_0000_0000,
        p128(10) == 0x40_0000_0000_0000_0000,
{
    assert(p128(0) == 1);
    assert(p128(1) == 128 * p128(0));
    assert(p128(2) == 128 * p128(1));
    assert(p128(3) == 128 * p128(2));
    assert(p128(4) == 128 * p128(3));
    assert(p128(5) == 128 * p128(4));
    assert(p128(6) == 128 * p128(5));
    assert(p128(7) == 128 * p128(6));
    assert(p128(8) == 128 * p128(7));
    assert(p128(9) == 128 * p128(8));
    assert(p128(10) == 128 * p128(9));
}

/// Reads one 7-bit chain of at most `max_len` bytes from `data` at `pos`.
fn decode_vle_raw(data: &[u8], pos: usize, max_len: usize) -> (r: Result<
    (u128, usize),
    ReadingError,
>)
    requires
        pos <= data@.len(),
        max_len <= 10,
    ensures
        match r {
            Ok((v, n)) => vle_decode_spec(data@.skip(pos as int), max_len as nat) == Ok::<
                (nat, nat),
                ReadingError,
            >((v as nat, (n - pos) as nat)) && pos < n <= data@.len(),
            Err(e) => vle_decode_spec(data@.skip(pos as int), max_len as nat) == Err::<
                (nat, nat),
                ReadingError,
            >(e),
        },
    decreases max_len,
{
    if max_len == 0 {
        return Err(ReadingError::TooLarge);
    }
    if pos == data.len() {
        return Err(ReadingError::Incomplete);
    }
    let b: u8 = data[pos];
    if b < 128 {
        return Ok((b as u128, pos + 1));
    }
    assert(data@.skip(pos as int).drop_first() =~= data@.skip(pos as int + 1));
    match decode_vle_raw(data, pos + 1, max_len - 1) {
        Ok((v, n)) => {
            proof {
                lemma_vle_decode_bound(data@.skip(pos as int + 1), (max_len - 1) as nat);
                lemma_p128_small();
                lemma_p128_mono((max_len - 1) as nat, 9);
                assert(128 * v < 128 * p128(9)) by (nonlinear_arith)
                    requires
                        v < p128(9nat),
                ;
            }
            Ok((((b - 128) as u128) + 128 * v, n))
        },
        Err(e) => Err(e),
    }
}

/// A variable-length unsigned 32-bit value, 1 to 5 bytes on the wire.
#[derive(Debug, Clone, Copy, PartialEq, Eq, Structural)]
pub struct VarUInt(pub u32);

/// A variable-length signed 32-bit value, carried as its two's-complement
/// bit pattern, 1 to 5 bytes on the wire.
#[derive(Debug, Clone, Copy, PartialEq, Eq, Structural)]
pub struct VarInt(pub i32);

/// A variable-length signed 64-bit value, carried as its two's-complement
/// bit pattern, 1 to 10 bytes on the wire.
#[derive(Debug, Clone, Copy, PartialEq, Eq, Structural)]
pub struct VarLong(pub i64);

/// What decoding a 32-bit-family chain yields: the chain value if it fits
/// 32 bits, `TooLarge` if the chain is over-long or the value does not.
pub open spec fn var_u32_decode_spec(s: Seq<u8>) -> Result<(nat, nat), ReadingError> {
    match vle_decode_spec(s, 5) {
        Ok((v, n)) => if v < 0x1_0000_0000 {
            Ok((v, n))
        } else {
            Err(ReadingError::TooLarge)
        },
        Err(e) => Err(e),
    }
}

/// What decoding a 64-bit-family chain yields.
pub open spec fn var_u64_decode_spec(s: Seq<u8>) -> Result<(nat, nat), ReadingError> {
    match vle_decode_spec(s, 10) {
        Ok((v, n)) => if v < 0x1_0000_0000_0000_0000 {
            Ok((v, n))
        } else {
            Err(ReadingError::TooLarge)
        },
        Err(e) => Err(e),
    }
}

impl VarUInt {
    /// The exact number of bytes `encode` appends for this value.
    pub fn written_size(&self) -> (n: usize)
        ensures
            n as nat == vle_bytes(self.0 as nat).len(),
            1 <= n <= 5,
    {
        proof {
            lemma_p128_small();
            lemma_vle_bytes_len(self.0 as nat, 5);
        }
        vle_written_size_u64(self.0 as u64)
    }

    /// Appends the minimal encoding of this value to `out`.
    pub fn encode(&self, out: &mut Vec<u8>)
        ensures
            final(out)@ == old(out)@ + vle_bytes(self.0 as nat),
    {
        encode_vle_u64(self.0 as u64, out);
    }

    /// Reads one value from `data` at `pos`; on success returns it with
    /// the position just past its bytes.
    pub fn decode(data: &[u8], pos: usize) -> (r: Result<(VarUInt, usize), ReadingError>)
        requires
            pos <= data@.len(),
        ensures
            match r {
                Ok((v, n)) => var_u32_decode_spec(data@.skip(pos as int)) == Ok::<
                    (nat, nat),
                    ReadingError,
                >((v.0 as nat, (n - pos) as nat)) && pos < n <= data@.len(),
                Err(e) => var_u32_decode_spec(data@.skip(pos as int)) == Err::<
                    (nat, nat),
                    ReadingError,
                >(e),
            },
    {
        match decode_vle_raw(data, pos, 5) {
            Ok((v, n)) => {
                if v < 0x1_0000_0000u128 {
                    Ok((VarUInt(v as u32), n))
                } else {
                    Err(ReadingError::TooLarge)
                }
            },
            Err(e) => Err(e),
        }
    }
}

impl VarInt {
    /// The exact number of bytes `encode` appends for this value.
    pub fn written_size(&self) -> (n: usize)
        ensures
            n as nat == vle_bytes(u32_of_i32(self.0)).len(),
            1 <= n <= 5,
    {
        proof {
            lemma_p128_small();
            lemma_vle_bytes_len(u32_of_i32(self.0), 5);
        }
        vle_written_size_u64(i32_to_u32(self.0) as u64)
    }

    /// Appends the minimal encoding of this value's bit pattern to `out`.
    pub fn encode(&self, out: &mut Vec<u8>)
        ensures
            final(out)@ == old(out)@ + vle_bytes(u32_of_i32(self.0)),
    {
        encode_vle_u64(i32_to_u32(self.0) as u64, out);
    }

    /// Reads one value from `data` at `pos`; on success returns it with
    /// the position just past its bytes.
    pub fn decode(data: &[u8], pos: usize) -> (r: Result<(VarInt, usize), ReadingError>)
        requires
            pos <= data@.len(),
        ensures
            match r {
                Ok((v, n)) => var_u32_decode_spec(data@.skip(pos as int)) == Ok::<
                    (nat, nat),
                    ReadingError,
                >((u32_of_i32(v.0), (n - pos) as nat)) && pos < n <= data@.len(),
                Err(e) => var_u32_decode_spec(data@.skip(pos as int)) == Err::<
                    (nat, nat),
                    ReadingError,
                >(e),
            },
    {
        match VarUInt::decode(data, pos) {
            Ok((v, n)) => Ok((VarInt(u32_to_i32(v.0)), n)),
            Err(e) => Err(e),
        }
    }
}

impl VarLong {
    /// The exact number of bytes `encode` appends for this value.
    pub fn written_size(&self) -> (n: usize)
        ensures
            n as nat == vle_bytes(u64_of_i64(self.0)).len(),
            1 <= n <= 10,
    {
        vle_written_size_u64(i64_to_u64(self.0))
    }

    /// Appends the minimal encoding of this value's bit pattern to `out`.
    pub fn encode(&self, out: &mut Vec<u8>)
        ensures
            final(out)@ == old(out)@ + vle_bytes(u64_of_i64(self.0)),
    {
        encode_vle_u64(i64_to_u64(self.0), out);
    }

    /// Reads one value from `data` at `pos`; on success returns it with
    /// the position just past its bytes.
    pub fn decode(data: &[u8], pos: usize) -> (r: Result<(VarLong, usize), ReadingError>)
        requires
            pos <= data@.len(),
        ensures
            match r {
                Ok((v, n)) => var_u64_decode_spec(data@.skip(pos as int)) == Ok::<
                    (nat, nat),
                    ReadingError,
                >((u64_of_i64(v.0), (n - pos) as nat)) && pos < n <= data@.len(),
                Err(e) => var_u64_decode_spec(data@.skip(pos as int)) == Err::<
                    (nat, nat),
                    ReadingError,
                >(e),
            },
    {
        match decode_vle_raw(data, pos, 10) {
            Ok((v, n)) => {
                if v < 0x1_0000_0000_0000_0000u128 {
                    Ok((VarLong(u64_to_i64(v as u64)), n))
                } else {
                    Err(ReadingError::TooLarge)
                }
            },
            Err(e) => Err(e),
        }
    }
}

/// Round trip at the 32-bit family: decoding what was encoded, with any
/// trailing bytes, yields the value back and consumes its encoding.
pub proof fn lemma_var_u32_round_trip(v: nat, rest: Seq<u8>)
    requires
        v < 0x1_0000_0000,
    ensures
        var_u32_decode_spec(vle_bytes(v) + rest) == Ok::<(nat, nat), ReadingError>(
            (v, vle_bytes(v).len()),
        ),
        vle_bytes(v).len() <= 5,
{
    lemma_p128_small();
    lemma_vle_bytes_len(v, 5);
    lemma_vle_round_trip(v, rest, 5);
}

/// Round trip at the 64-bit family.
pub proof fn lemma_var_u64_round_trip(v: nat, rest: Seq<u8>)
    requires
        v < 0x1_0000_0000_0000_0000,
    ensures
        var_u64_decode_spec(vle_bytes(v) + rest) == Ok::<(nat, nat), ReadingError>(
            (v, vle_bytes(v).len()),
        ),
        vle_bytes(v).len() <= 10,
{
    lemma_p128_small();
    lemma_vle_bytes_len(v, 10);
    lemma_vle_round_trip(v, rest, 10);
}

/// The two's-complement reading of a 32-bit value is one-to-one: with
/// the unsigned round trip, decoding an encoded signed value yields it
/// back.
pub proof fn lemma_u32_of_i32_injective(a: i32, b: i32)
    ensures
        u32_of_i32(a) == u32_of_i32(b) ==> a == b,
{
}

/// The two's-complement reading of a 64-bit value is one-to-one.
pub proof fn lemma_u64_of_i64_injective(a: i64, b: i64)
    ensures
        u64_of_i64(a) == u64_of_i64(b) ==> a == b,
{
}

/// An all-continuation run of the family's maximum length fails to decode
/// with `TooLarge`, whatever follows it.
pub proof fn lemma_vle_overlong_rejected(s: Seq<u8>, max_len: nat)
    requires
        s.len() >= max_len,
        forall|i: int| 0 <= i < max_len ==> s[i] >= 128,
    ensures
        vle_decode_spec(s, max_len) == Err::<(nat, nat), ReadingError>(ReadingError::TooLarge),
    decreases max_len,
{
    if max_len > 0 {
        lemma_vle_overlong_rejected(s.drop_first(), (max_len - 1) as nat);
    }
}

} // verus!
