//! The framing pipeline for the stream transport: a raw packet body is
//! wrapped, outbound, as `VarInt frameLength` followed by the frame
//! payload; with compression negotiated the payload itself starts with a
//! `VarInt uncompressedLength` that is 0 for a body sent verbatim below
//! the threshold and the true body length for a body at or above it. The
//! compression and encryption stages are pluggable per transport; the
//! stages provided here are the pass-through stages (the wire shape is
//! kept stable, the bytes are carried unchanged), and the cipher stage
//! keeps one continuous running position per direction that is never
//! restarted between frames.

use vstd::prelude::*;

verus! {

use crate::codec::{VarUInt, ReadingError, vle_bytes, var_u32_decode_spec, lemma_var_u32_round_trip};

/// Why a frame could not be read or written.
#[derive(Debug, Clone, Copy, PartialEq, Eq, Structural)]
pub enum FrameError {
    /// A length prefix was not a well-formed VarInt.
    MalformedVarint,
    /// A declared length exceeds the configured maximum frame size; the
    /// frame is rejected before its body is buffered.
    TooLarge,
    /// The source ended in the middle of a frame.
    Incomplete,
    /// The payload contradicts its declared uncompressed length.
    DecompressionError,
}

/// A negotiated compression setting: bodies of at least `threshold` bytes
/// go through the compression stage; `level` is handed to that stage.
#[derive(Debug, Clone, Copy, PartialEq, Eq, Structural)]
pub struct CompressionConfig {
    pub threshold: u32,
    pub level: u32,
}

/// The compression stage. The stage provided here is the pass-through
/// stage: the wire shape reserves its place while the bytes are carried
/// unchanged.
pub open spec fn compress_stage(body: Seq<u8>) -> Seq<u8> {
    body
}

/// The frame payload for a body under a negotiated compression setting:
/// `VarInt 0` then the body verbatim below the threshold, `VarInt
/// uncompressedLength` then the compressed body at or above it.
pub open spec fn payload_bytes(body: Seq<u8>, threshold: nat) -> Seq<u8> {
    if body.len() >= threshold {
        vle_bytes(body.len()) + compress_stage(body)
    } else {
        vle_bytes(0) + body
    }
}

/// The whole outbound frame for a body: `VarInt frameLength` then the
/// payload, which is the body itself when compression is off.
pub open spec fn frame_bytes(body: Seq<u8>, compression: Option<CompressionConfig>) -> Seq<u8> {
    let payload = match compression {
        Some(c) => payload_bytes(body, c.threshold as nat),
        None => body,
    };
    vle_bytes(payload.len()) + payload
}

/// Appends a copy of `data` to `out`.
pub fn append_bytes(data: &[u8], out: &mut Vec<u8>)
    ensures
        final(out)@ == old(out)@ + data@,
{
    let ghost start = out@;
    let n: usize = data.len();
    let mut i: usize = 0;
    while i < n
        invariant
            i <= n,
            n == data@.len(),
            out@ == start + data@.subrange(0, i as int),
        decreases n - i,
    {
        let ghost before = out@;
        out.push(data[i]);
        proof {
            assert(data@.subrange(0, i + 1) =~= data@.subrange(0, i as int) + seq![data@[i as int]]);
            assert(out@ =~= before + seq![data@[i as int]]);
        }
        i = i + 1;
    }
    proof {
        assert(data@.subrange(0, data@.len() as int) =~= data@);
    }
}

/// Builds the frame payload for `body` under `compression`.
pub fn write_payload(body: &[u8], compression: &CompressionConfig, out: &mut Vec<u8>)
    requires
        body@.len() <= 0x7FFF_FFFF,
    ensures
        final(out)@ == old(out)@ + payload_bytes(body@, compression.threshold as nat),
{
    let ghost start = out@;
    if body.len() >= compression.threshold as usize {
        let len = VarUInt(body.len() as u32);
        len.encode(out);
        append_bytes(body, out);
        assert(out@ =~= start + payload_bytes(body@, compression.threshold as nat));
    } else {
        let zero = VarUInt(0);
        zero.encode(out);
        append_bytes(body, out);
        assert(out@ =~= start + payload_bytes(body@, compression.threshold as nat));
    }
}

/// Appends the whole outbound frame for `body` to `out`.
pub fn write_frame(body: &[u8], compression: Option<&CompressionConfig>, out: &mut Vec<u8>)
    requires
        body@.len() <= 0x3FF_FFFF,
    ensures
        final(out)@ == old(out)@ + frame_bytes(
            body@,
            match compression {
                Some(c) => Some(*c),
                None => None,
            },
        ),
{
    let ghost start = out@;
    match compression {
        Some(c) => {
            let mut payload: Vec<u8> = Vec::new();
            write_payload(body, c, &mut payload);
            proof {
                lemma_small_vle_len(body@.len());
            }
            let len = VarUInt(payload.len() as u32);
            len.encode(out);
            append_bytes(payload.as_slice(), out);
            assert(out@ =~= start + frame_bytes(body@, Some(*c)));
        },
        None => {
            let len = VarUInt(body.len() as u32);
            len.encode(out);
            append_bytes(body, out);
            assert(out@ =~= start + frame_bytes(body@, None));
        },
    }
}

/// A value below 2^26 encodes in at most 5 bytes.
proof fn lemma_small_vle_len(v: nat)
    requires
        v <= 0x3FF_FFFF,
    ensures
        vle_bytes(v).len() <= 5,
        vle_bytes(0nat).len() == 1,
{
    assert(crate::codec::p128(5) > 0x3FF_FFFF) by {
        assert(crate::codec::p128(0nat) == 1);
        assert(crate::codec::p128(1nat) == 128 * crate::codec::p128(0nat));
        assert(crate::codec::p128(2nat) == 128 * crate::codec::p128(1nat));
        assert(crate::codec::p128(3nat) == 128 * crate::codec::p128(2nat));
        assert(crate::codec::p128(4nat) == 128 * crate::codec::p128(3nat));
        assert(crate::codec::p128(5nat) == 128 * crate::codec::p128(4nat));
    }
    crate::codec::lemma_vle_bytes_len(v, 5);
}

/// What reading a frame payload yields: the body it framed, or the first
/// failure - a bad uncompressed-length prefix as `MalformedVarint`, a
/// declared length contradicting the body as `DecompressionError`. A
/// declared length of 0 means the body travelled verbatim; any other
/// declared length must equal the body's own.
pub open spec fn payload_decode_spec(s: Seq<u8>) -> Result<Seq<u8>, FrameError> {
    match var_u32_decode_spec(s) {
        Ok((declared, k)) => {
            let body = s.skip(k as int);
            if declared == 0 || declared == body.len() {
                Ok(body)
            } else {
                Err(FrameError::DecompressionError)
            }
        },
        Err(_) => Err(FrameError::MalformedVarint),
    }
}

/// What reading a whole frame yields: the body and the bytes consumed,
/// or the first failure - a bad length prefix as `MalformedVarint`, a
/// declared frame length over the configured maximum as `TooLarge`, a
/// source too short as `Incomplete`, then the payload's own
/// classification when compression is active.
pub open spec fn frame_decode_spec(s: Seq<u8>, compression_active: bool, max_frame: nat) -> Result<
    (Seq<u8>, nat),
    FrameError,
> {
    match var_u32_decode_spec(s) {
        Ok((len, k)) => {
            if len > max_frame {
                Err(FrameError::TooLarge)
            } else if s.len() < k + len {
                Err(FrameError::Incomplete)
            } else {
                let payload = s.subrange(k as int, (k + len) as int);
                if compression_active {
                    match payload_decode_spec(payload) {
                        Ok(b) => Ok((b, k + len)),
                        Err(e) => Err(e),
                    }
                } else {
                    Ok((payload, k + len))
                }
            }
        },
        Err(_) => Err(FrameError::MalformedVarint),
    }
}

/// What decoding the front of a payload gives: the declared uncompressed
/// length and the bytes that follow it.
proof fn lemma_payload_decodes(body: Seq<u8>, t: nat)
    requires
        body.len() <= 0x7FFF_FFFF,
    ensures
        body.len() >= t ==> var_u32_decode_spec(payload_bytes(body, t)) == Ok::<
            (nat, nat),
            ReadingError,
        >((body.len(), vle_bytes(body.len()).len())) && payload_bytes(body, t).skip(
            vle_bytes(body.len()).len() as int,
        ) == body,
        body.len() < t ==> var_u32_decode_spec(payload_bytes(body, t)) == Ok::<
            (nat, nat),
            ReadingError,
        >((0, 1)) && payload_bytes(body, t).skip(1) == body,
{
    if body.len() >= t {
        lemma_var_u32_round_trip(body.len(), body);
        assert(payload_bytes(body, t).skip(vle_bytes(body.len()).len() as int) =~= body);
    } else {
        lemma_var_u32_round_trip(0, body);
        assert(vle_bytes(0nat) =~= seq![0u8]);
        assert(payload_bytes(body, t).skip(1) =~= body);
    }
}

/// Reads one frame payload back into the body it framed: the inverse of
/// `write_payload` for the pass-through stage. `data` is the payload, in
/// full, after the frame length was resolved. On success the declared
/// uncompressed length was 0 (body sent verbatim) or exactly the length
/// of what followed it (body through the stage); the two remain
/// distinguishable on the wire. Whatever `write_payload` produced, for
/// any threshold, is read back to the body it was given.
pub fn read_payload(data: &[u8]) -> (r: Result<Vec<u8>, FrameError>)
    ensures
        match r {
            Ok(body) => payload_decode_spec(data@) == Ok::<Seq<u8>, FrameError>(body@),
            Err(e) => payload_decode_spec(data@) == Err::<Seq<u8>, FrameError>(e),
        },
        forall|body: Seq<u8>, t: nat|
            data@ == #[trigger] payload_bytes(body, t) && body.len() <= 0x7FFF_FFFF ==> (r matches
            Ok(b) && b@ == body),
{
    let decoded = VarUInt::decode(data, 0);
    proof {
        assert(data@.skip(0) =~= data@);
    }
    match decoded {
        Ok((declared, body_start)) => {
            let mut body: Vec<u8> = Vec::new();
            append_bytes(slice_tail(data, body_start), &mut body);
            if declared.0 == 0 {
                proof {
                    lemma_read_payload_complete(data@, 0, body_start as nat, body@);
                }
                return Ok(body);
            }
            if (declared.0 as usize) == body.len() {
                proof {
                    lemma_read_payload_complete(data@, declared.0 as nat, body_start as nat, body@);
                }
                Ok(body)
            } else {
                proof {
                    lemma_read_payload_mismatch(
                        data@,
                        declared.0 as nat,
                        body_start as nat,
                        body@.len(),
                    );
                }
                Err(FrameError::DecompressionError)
            }
        },
        Err(_) => {
            proof {
                assert forall|body: Seq<u8>, t: nat|
                    data@ == #[trigger] payload_bytes(body, t) && body.len()
                        <= 0x7FFF_FFFF implies false by {
                    lemma_payload_decodes(body, t);
                }
            }
            Err(FrameError::MalformedVarint)
        },
    }
}

/// A well-formed declared length pins the decode: every payload whose
/// bytes equal `data` framed this same body.
proof fn lemma_read_payload_complete(data: Seq<u8>, declared: nat, body_start: nat, tail: Seq<u8>)
    requires
        var_u32_decode_spec(data) == Ok::<(nat, nat), ReadingError>((declared, body_start)),
        tail == data.skip(body_start as int),
        declared == 0 || declared == tail.len(),
    ensures
        forall|body: Seq<u8>, t: nat|
            data == #[trigger] payload_bytes(body, t) && body.len() <= 0x7FFF_FFFF ==> tail == body,
{
    assert forall|body: Seq<u8>, t: nat|
        data == #[trigger] payload_bytes(body, t) && body.len() <= 0x7FFF_FFFF implies tail
        == body by {
        lemma_payload_decodes(body, t);
    }
}

/// A declared length that is neither 0 nor the length of what follows is
/// no payload of any body that fits a frame.
proof fn lemma_read_payload_mismatch(data: Seq<u8>, declared: nat, body_start: nat, tail_len: nat)
    requires
        var_u32_decode_spec(data) == Ok::<(nat, nat), ReadingError>((declared, body_start)),
        tail_len == data.skip(body_start as int).len(),
        declared != 0,
        declared != tail_len,
    ensures
        forall|body: Seq<u8>, t: nat|
            body.len() <= 0x7FFF_FFFF ==> data != #[trigger] payload_bytes(body, t),
{
    assert forall|body: Seq<u8>, t: nat|
        body.len() <= 0x7FFF_FFFF implies data != #[trigger] payload_bytes(body, t) by {
        if data == payload_bytes(body, t) {
            lemma_payload_decodes(body, t);
        }
    }
}

/// The frame payload for a body: through the compression stage when a
/// setting is negotiated, the body itself otherwise.
pub open spec fn payload_of(body: Seq<u8>, compression: Option<CompressionConfig>) -> Seq<u8> {
    match compression {
        Some(c) => payload_bytes(body, c.threshold as nat),
        None => body,
    }
}

/// A frame for `body` stands at `pos` in `data`.
pub open spec fn frame_at(
    data: Seq<u8>,
    pos: nat,
    body: Seq<u8>,
    compression: Option<CompressionConfig>,
) -> bool {
    let fb = frame_bytes(body, compression);
    pos + fb.len() <= data.len() && data.subrange(pos as int, (pos + fb.len()) as int) == fb
}

/// Reads one whole frame at `pos`: the frame length prefix, checked
/// against `max_frame` before any of the body is buffered, then the
/// payload, inverted back to the body it framed. Whatever `write_frame`
/// put at `pos` - for any negotiated setting matching
/// `compression_active`, and any bytes after it - comes back as the body
/// it was given, with the position just past the frame.
pub fn read_frame(data: &[u8], pos: usize, compression_active: bool, max_frame: u32) -> (r: Result<
    (Vec<u8>, usize),
    FrameError,
>)
    requires
        pos <= data@.len(),
    ensures
        match r {
            Ok(p) => frame_decode_spec(data@.skip(pos as int), compression_active, max_frame as nat)
                == Ok::<(Seq<u8>, nat), FrameError>((p.0@, (p.1 - pos) as nat)) && pos < p.1
                <= data@.len(),
            Err(e) => frame_decode_spec(
                data@.skip(pos as int),
                compression_active,
                max_frame as nat,
            ) == Err::<(Seq<u8>, nat), FrameError>(e),
        },
        forall|body: Seq<u8>, compression: Option<CompressionConfig>|
            ((compression matches Some(c)) <==> compression_active) && body.len() <= 0x3FF_FFFF
                && #[trigger] frame_at(data@, pos as nat, body, compression) && payload_of(
                body,
                compression,
            ).len() <= max_frame as nat ==> (r matches Ok(p) && p.0@ == body && p.1 == pos
                + frame_bytes(body, compression).len()),
{
    let ghost whole = data@.skip(pos as int);
    let decoded = VarUInt::decode(data, pos);
    let (declared, payload_start) = match decoded {
        Ok(v) => v,
        Err(_) => {
            proof {
                lemma_frame_prefix_decodes(data@, pos as nat);
            }
            return Err(FrameError::MalformedVarint);
        },
    };
    if declared.0 > max_frame {
        proof {
            lemma_frame_prefix_decodes(data@, pos as nat);
        }
        return Err(FrameError::TooLarge);
    }
    let len = declared.0 as usize;
    if data.len() - payload_start < len {
        proof {
            lemma_frame_prefix_decodes(data@, pos as nat);
        }
        return Err(FrameError::Incomplete);
    }
    let payload_slice = vstd::slice::slice_subrange(data, payload_start, payload_start + len);
    proof {
        lemma_frame_prefix_decodes(data@, pos as nat);
        assert(payload_slice@ =~= data@.skip(pos as int).subrange(
            (payload_start - pos) as int,
            (payload_start - pos + len) as int,
        ));
    }
    if compression_active {
        match read_payload(payload_slice) {
            Ok(body) => {
                proof {
                    lemma_frame_read_matches(data@, pos as nat, declared.0 as nat, payload_start as nat);
                }
                Ok((body, payload_start + len))
            },
            Err(e) => {
                proof {
                    lemma_frame_read_matches(data@, pos as nat, declared.0 as nat, payload_start as nat);
                }
                Err(e)
            },
        }
    } else {
        let mut body: Vec<u8> = Vec::new();
        append_bytes(payload_slice, &mut body);
        proof {
            lemma_frame_read_matches(data@, pos as nat, declared.0 as nat, payload_start as nat);
        }
        Ok((body, payload_start + len))
    }
}

/// Any frame standing at `pos` decodes its own length prefix: connects
/// the frame shape to what the VarUInt decoder sees there.
proof fn lemma_frame_prefix_decodes(data: Seq<u8>, pos: nat)
    requires
        pos <= data.len(),
    ensures
        forall|body: Seq<u8>, compression: Option<CompressionConfig>|
            body.len() <= 0x3FF_FFFF && #[trigger] frame_at(data, pos, body, compression)
                && payload_of(body, compression).len() <= 0xFFFF_FFFF ==> var_u32_decode_spec(
                data.skip(pos as int),
            ) == Ok::<(nat, nat), ReadingError>(
                (
                    payload_of(body, compression).len(),
                    vle_bytes(payload_of(body, compression).len()).len(),
                ),
            ),
{
    assert forall|body: Seq<u8>, compression: Option<CompressionConfig>|
        body.len() <= 0x3FF_FFFF && #[trigger] frame_at(data, pos, body, compression)
            && payload_of(body, compression).len() <= 0xFFFF_FFFF implies var_u32_decode_spec(
        data.skip(pos as int),
    ) == Ok::<(nat, nat), ReadingError>(
        (
            payload_of(body, compression).len(),
            vle_bytes(payload_of(body, compression).len()).len(),
        ),
    ) by {
        let payload = payload_of(body, compression);
        let fb = frame_bytes(body, compression);
        let rest = data.skip((pos + fb.len()) as int);
        assert(data.skip(pos as int) =~= fb + rest);
        assert(fb + rest =~= vle_bytes(payload.len()) + (payload + rest));
        lemma_var_u32_round_trip(payload.len(), payload + rest);
    }
}

/// Once the length prefix at `pos` is resolved, the payload slice of any
/// frame standing there is exactly the framed payload.
proof fn lemma_frame_read_matches(data: Seq<u8>, pos: nat, declared: nat, payload_start: nat)
    requires
        pos <= data.len(),
        var_u32_decode_spec(data.skip(pos as int)) == Ok::<(nat, nat), ReadingError>(
            (declared, (payload_start - pos) as nat),
        ),
        pos < payload_start,
        payload_start + declared <= data.len(),
    ensures
        forall|body: Seq<u8>, compression: Option<CompressionConfig>|
            body.len() <= 0x3FF_FFFF && #[trigger] frame_at(data, pos, body, compression)
                && payload_of(body, compression).len() <= 0xFFFF_FFFF ==> declared == payload_of(
                body,
                compression,
            ).len() && data.subrange(payload_start as int, (payload_start + declared) as int) == payload_of(
                body,
                compression,
            ) && payload_start + declared == pos + frame_bytes(body, compression).len(),
{
    lemma_frame_prefix_decodes(data, pos);
    assert forall|body: Seq<u8>, compression: Option<CompressionConfig>|
        body.len() <= 0x3FF_FFFF && #[trigger] frame_at(data, pos, body, compression)
            && payload_of(body, compression).len() <= 0xFFFF_FFFF implies declared == payload_of(
        body,
        compression,
    ).len() && data.subrange(payload_start as int, (payload_start + declared) as int) == payload_of(
        body,
        compression,
    ) && payload_start + declared == pos + frame_bytes(body, compression).len() by {
        let payload = payload_of(body, compression);
        let fb = frame_bytes(body, compression);
        let rest = data.skip((pos + fb.len()) as int);
        assert(data.skip(pos as int) =~= fb + rest);
        let vlen = vle_bytes(payload.len()).len() as int;
        assert(fb == vle_bytes(payload.len()) + payload);
        assert(payload_start == pos + vlen && declared == payload.len());
        assert forall|j: int| 0 <= j < declared implies data[payload_start + j] == payload[j] by {
            assert(data.skip(pos as int)[vlen + j] == data[pos + vlen + j]);
            assert((fb + rest)[vlen + j] == fb[vlen + j]);
            assert(fb[vlen + j] == payload[j]);
        }
        assert(data.subrange(payload_start as int, (payload_start + declared) as int) =~= payload);
    }
}

/// The per-direction cipher stage of a session: starts disabled, can be
/// enabled exactly once (the stream can never go back to being
/// unencrypted, and enabling it twice is a programming error), and once
/// enabled keeps one continuous running position that is never restarted
/// between frames. The byte transformation provided here is the
/// pass-through stage.
pub struct CipherContext {
    /// The 16-byte key handed over at the upgrade, kept for the stage.
    key: Vec<u8>,
    /// Whether the stage is enabled.
    enabled: bool,
    /// How many bytes have run through the stage since it was enabled.
    processed: usize,
}

impl CipherContext {
    /// The stage is enabled.
    pub closed spec fn is_enabled(&self) -> bool {
        self.enabled
    }

    /// The running position of the stage.
    pub closed spec fn position(&self) -> usize {
        self.processed
    }

    /// A fresh direction: no cipher yet.
    pub fn new() -> (r: CipherContext)
        ensures
            !r.is_enabled(),
            r.position() == 0,
    {
        CipherContext { key: Vec::new(), enabled: false, processed: 0 }
    }

    /// Enables the stage with a 16-byte key. A second upgrade is a
    /// programming error, kept out by the precondition, as is enabling
    /// with a key of the wrong length.
    pub fn upgrade(&mut self, key: Vec<u8>)
        requires
            !old(self).is_enabled(),
            key@.len() == 16,
        ensures
            final(self).is_enabled(),
            final(self).position() == 0,
    {
        self.key = key;
        self.enabled = true;
        self.processed = 0;
    }

    /// Runs bytes through the stage, advancing the running position by
    /// their number (saturating at the counter's capacity) and never
    /// restarting it. The pass-through stage returns the bytes unchanged;
    /// with the stage disabled the bytes pass unchanged as well.
    pub fn process(&mut self, data: Vec<u8>) -> (r: Vec<u8>)
        ensures
            r@ == data@,
            final(self).is_enabled() == old(self).is_enabled(),
            !old(self).is_enabled() ==> final(self).position() == old(self).position(),
            old(self).is_enabled() ==> final(self).position() as nat == if old(
                self,
            ).position() as nat + data@.len() <= usize::MAX as nat {
                old(self).position() as nat + data@.len()
            } else {
                usize::MAX as nat
            },
    {
        if self.enabled {
            if data.len() <= usize::MAX - self.processed {
                self.processed = self.processed + data.len();
            } else {
                self.processed = usize::MAX;
            }
        }
        data
    }
}

/// The tail of a slice from `from` on.
fn slice_tail<'a>(data: &'a [u8], from: usize) -> (r: &'a [u8])
    requires
        from <= data@.len(),
    ensures
        r@ == data@.skip(from as int),
{
    let r = vstd::slice::slice_subrange(data, from, data.len());
    assert(r@ =~= data@.skip(from as int));
    r
}

} // verus!
