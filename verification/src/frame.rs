//! Serial framing of the wired split link.
//!
//! Wire format, one message per frame:
//! `cobs(ctrl ++ ack ++ credit ++ payload ++ crc32_le(ctrl ++ ack ++ credit ++ payload)) ++ 0x00`.
//! The CRC lets a receiver drop truncated or corrupted frames; the zero
//! sentinel (which COBS keeps out of the encoded bytes) gives it a resync point.
use vstd::prelude::*;

verus! {

/// Frame delimiter: COBS guarantees no zero bytes inside an encoded frame.
pub const SENTINEL: u8 = 0x00;
/// Length of the link header in front of the payload.
pub const LINK_HEADER: usize = 3;
/// Longest payload a frame is built for.
pub const MAX_PAYLOAD: usize = 4096;

/// The CRC-32 polynomial, bit-reversed.
pub const CRC32_POLY: u32 = 0xEDB8_8320;

/// One bit step of the reflected CRC-32 register.
pub open spec fn crc_bit(c: u32) -> u32 {
    if c & 1 == 1 {
        (c >> 1) ^ 0xEDB8_8320u32
    } else {
        c >> 1
    }
}

/// `n` bit steps of the register.
pub open spec fn crc_bits(c: u32, n: nat) -> u32
    decreases n,
{
    if n == 0 {
        c
    } else {
        crc_bit(crc_bits(c, (n - 1) as nat))
    }
}

/// The register after absorbing `data`, starting from `init`.
pub open spec fn crc_register(init: u32, data: Seq<u8>) -> u32
    decreases data.len(),
{
    if data.len() == 0 {
        init
    } else {
        crc_bits(crc_register(init, data.drop_last()) ^ (data.last() as u32), 8)
    }
}

/// CRC-32 (IEEE 802.3): reflected, initial value and final xor all ones.
pub open spec fn spec_crc32(data: Seq<u8>) -> u32 {
    !crc_register(0xFFFF_FFFFu32, data)
}

/// CRC-32 of `data`.
pub fn crc32(data: &[u8]) -> (r: u32)
    ensures
        r == spec_crc32(data@),
{
    let mut crc: u32 = 0xFFFF_FFFF;
    let mut i: usize = 0;
    while i < data.len()
        invariant
            i <= data@.len(),
            crc == crc_register(0xFFFF_FFFFu32, data@.take(i as int)),
        decreases data@.len() - i,
    {
        let ghost c0 = crc ^ (data@[i as int] as u32);
        crc = crc ^ (data[i] as u32);
        let mut j: u32 = 0;
        while j < 8
            invariant
                j <= 8,
                crc == crc_bits(c0, j as nat),
            decreases 8 - j,
        {
            if crc & 1 == 1 {
                crc = (crc >> 1) ^ CRC32_POLY;
            } else {
                crc = crc >> 1;
            }
            j = j + 1;
        }
        assert(data@.take(i + 1).drop_last() =~= data@.take(i as int));
        i = i + 1;
    }
    assert(data@.take(i as int) =~= data@);
    !crc
}

/// Little-endian bytes of a `u32`.
pub open spec fn le_bytes(x: u32) -> Seq<u8> {
    seq![(x & 0xff) as u8, ((x >> 8) & 0xff) as u8, ((x >> 16) & 0xff) as u8, ((x >> 24) & 0xff) as u8]
}

/// The `u32` whose little-endian bytes are `b[0..4]`.
pub open spec fn from_le(b: Seq<u8>) -> u32 {
    (b[0] as u32) | ((b[1] as u32) << 8) | ((b[2] as u32) << 16) | ((b[3] as u32) << 24)
}

proof fn lemma_le_roundtrip(x: u32)
    ensures
        from_le(le_bytes(x)) == x,
{
    let b0 = (x & 0xff) as u8;
    let b1 = ((x >> 8) & 0xff) as u8;
    let b2 = ((x >> 16) & 0xff) as u8;
    let b3 = ((x >> 24) & 0xff) as u8;
    assert((b0 as u32) | ((b1 as u32) << 8) | ((b2 as u32) << 16) | ((b3 as u32) << 24) == x)
        by (bit_vector)
        requires
            b0 == (x & 0xff) as u8,
            b1 == ((x >> 8) & 0xff) as u8,
            b2 == ((x >> 16) & 0xff) as u8,
            b3 == ((x >> 24) & 0xff) as u8,
    ;
}

/// The COBS encoding of a byte string, as the `cobs` crate produces it
/// (without the terminating sentinel).
pub uninterp spec fn cobs_encoding(source: Seq<u8>) -> Seq<u8>;

/// What the `cobs` crate decodes a byte string (read up to its first zero) to;
/// `None` when it is not a valid encoding.
pub uninterp spec fn cobs_decoding(encoded: Seq<u8>) -> Option<Seq<u8>>;

/// Encode with `cobs::encode` into a buffer of `cobs::max_encoding_length` bytes.
///
/// Trusted: the result is the crate's encoding of `source`, contains no zero
/// byte (the sentinel COBS exists to keep out), and is at most
/// `source.len() + source.len() / 254 + 1` bytes long, as the crate documents.
#[verifier::external_body]
fn cobs_encode(source: &[u8]) -> (r: Vec<u8>)
    requires
        source@.len() <= MAX_PAYLOAD + LINK_HEADER + 4,
    ensures
        r@ == cobs_encoding(source@),
        forall|i: int| 0 <= i < r@.len() ==> r@[i] != SENTINEL,
        r@.len() <= source@.len() + source@.len() / 254 + 1,
{
    let mut dest = vec![0u8; cobs::max_encoding_length(source.len())];
    let n = cobs::encode(source, &mut dest);
    dest.truncate(n);
    dest
}

/// Decode with `cobs::decode_in_place` on a copy of `encoded`.
///
/// Trusted: the result is the crate's decoding, and an encoding produced by
/// `cobs::encode` decodes back to its source (the crate's round trip).
#[verifier::external_body]
fn cobs_decode(encoded: &[u8]) -> (r: Option<Vec<u8>>)
    ensures
        (match r {
            Some(v) => cobs_decoding(encoded@) == Some(v@) && forall|s: Seq<u8>|
                encoded@ == #[trigger] cobs_encoding(s) ==> v@ == s,
            None => cobs_decoding(encoded@) is None && forall|s: Seq<u8>|
                encoded@ != #[trigger] cobs_encoding(s),
        }),
{
    let mut buf = encoded.to_vec();
    match cobs::decode_in_place(&mut buf) {
        Ok(n) => {
            buf.truncate(n);
            Some(buf)
        },
        Err(_) => None,
    }
}

/// The bytes a frame carries before COBS: header, payload, CRC.
pub open spec fn frame_raw(ctrl: u8, ack: u8, credit: u8, payload: Seq<u8>) -> Seq<u8> {
    let body = seq![ctrl, ack, credit] + payload;
    body + le_bytes(spec_crc32(body))
}

/// A whole frame on the wire, sentinel included.
pub open spec fn frame_bytes(ctrl: u8, ack: u8, credit: u8, payload: Seq<u8>) -> Seq<u8> {
    cobs_encoding(frame_raw(ctrl, ack, credit, payload)).push(SENTINEL)
}

/// Why a frame was dropped.
#[derive(Clone, Copy, Debug, PartialEq, Eq, Structural)]
pub enum FrameError {
    /// Not a valid COBS encoding.
    Cobs,
    /// Fewer bytes than a CRC.
    Truncated,
    /// The CRC does not match the bytes.
    Crc,
    /// No room for the link header.
    NoHeader,
}

/// Decoded frame: header fields and payload.
pub struct Frame {
    pub ctrl: u8,
    pub ack: u8,
    pub credit: u8,
    pub payload: Vec<u8>,
}

/// What decoding the bytes of one frame (sentinel excluded) gives.
pub open spec fn spec_decode_frame(encoded: Seq<u8>) -> Result<(u8, u8, u8, Seq<u8>), FrameError> {
    match cobs_decoding(encoded) {
        None => Err(FrameError::Cobs),
        Some(raw) => if raw.len() < 4 {
            Err(FrameError::Truncated)
        } else {
            let body = raw.take(raw.len() - 4);
            if spec_crc32(body) != from_le(raw.skip(raw.len() - 4)) {
                Err(FrameError::Crc)
            } else if body.len() < LINK_HEADER {
                Err(FrameError::NoHeader)
            } else {
                Ok((body[0], body[1], body[2], body.skip(3)))
            }
        },
    }
}

/// Build one frame: header and payload, CRC, COBS, sentinel.
pub fn encode_frame(ctrl: u8, ack: u8, credit: u8, payload: &[u8]) -> (r: Vec<u8>)
    requires
        payload@.len() <= MAX_PAYLOAD,
    ensures
        r@ == frame_bytes(ctrl, ack, credit, payload@),
        r@.len() > 0,
        r@.last() == SENTINEL,
        forall|i: int| 0 <= i < r@.len() - 1 ==> r@[i] != SENTINEL,
{
    let mut raw: Vec<u8> = Vec::new();
    raw.push(ctrl);
    raw.push(ack);
    raw.push(credit);
    let mut i: usize = 0;
    while i < payload.len()
        invariant
            i <= payload@.len(),
            raw@ == seq![ctrl, ack, credit] + payload@.take(i as int),
        decreases payload@.len() - i,
    {
        raw.push(payload[i]);
        assert(raw@ =~= seq![ctrl, ack, credit] + payload@.take(i + 1));
        i = i + 1;
    }
    assert(payload@.take(i as int) =~= payload@);
    let ghost body = raw@;
    let crc = crc32(raw.as_slice());
    raw.push((crc & 0xff) as u8);
    raw.push(((crc >> 8) & 0xff) as u8);
    raw.push(((crc >> 16) & 0xff) as u8);
    raw.push(((crc >> 24) & 0xff) as u8);
    assert(raw@ =~= frame_raw(ctrl, ack, credit, payload@));
    let mut out = cobs_encode(raw.as_slice());
    out.push(SENTINEL);
    out
}

/// Decode the bytes of one sentinel-delimited frame: COBS-decode, verify the
/// trailing CRC-32, then split the link header off the payload.
///
/// Every frame built by [`encode_frame`] decodes back to its header and payload.
pub fn decode_frame(encoded: &[u8]) -> (r: Result<Frame, FrameError>)
    ensures
        (match r {
            Ok(f) => spec_decode_frame(encoded@) == Ok::<_, FrameError>(
                (f.ctrl, f.ack, f.credit, f.payload@),
            ),
            Err(e) => spec_decode_frame(encoded@) == Err::<(u8, u8, u8, Seq<u8>), _>(e),
        }),
        forall|ctrl: u8, ack: u8, credit: u8, payload: Seq<u8>|
            encoded@ == #[trigger] frame_bytes(ctrl, ack, credit, payload).drop_last() ==> (
            r matches Ok(f) && f.ctrl == ctrl && f.ack == ack && f.credit == credit && f.payload@
                == payload),
{
    proof {
        assert forall|ctrl: u8, ack: u8, credit: u8, payload: Seq<u8>|
            encoded@ == #[trigger] frame_bytes(ctrl, ack, credit, payload).drop_last() implies (
        encoded@ == cobs_encoding(frame_raw(ctrl, ack, credit, payload))) by {
            assert(frame_bytes(ctrl, ack, credit, payload).drop_last() =~= cobs_encoding(
                frame_raw(ctrl, ack, credit, payload),
            ));
        }
    }
    let raw = match cobs_decode(encoded) {
        Some(raw) => raw,
        None => {
            return Err(FrameError::Cobs);
        },
    };
    if raw.len() < 4 {
        return Err(FrameError::Truncated);
    }
    let n = raw.len() - 4;
    let mut body: Vec<u8> = Vec::new();
    let mut i: usize = 0;
    while i < n
        invariant
            n == raw@.len() - 4,
            i <= n,
            body@ == raw@.take(i as int),
        decreases n - i,
    {
        body.push(raw[i]);
        assert(body@ =~= raw@.take(i + 1));
        i = i + 1;
    }
    let expected = (raw[n] as u32) | ((raw[n + 1] as u32) << 8) | ((raw[n + 2] as u32) << 16)
        | ((raw[n + 3] as u32) << 24);
    proof {
        assert(raw@.skip(n as int)[0] == raw@[n as int]);
        assert(raw@.skip(n as int)[1] == raw@[n + 1]);
        assert(raw@.skip(n as int)[2] == raw@[n + 2]);
        assert(raw@.skip(n as int)[3] == raw@[n + 3]);
        assert(expected == from_le(raw@.skip(n as int)));
        assert forall|ctrl: u8, ack: u8, credit: u8, payload: Seq<u8>|
            raw@ == #[trigger] frame_raw(ctrl, ack, credit, payload) implies body@ == seq![
            ctrl,
            ack,
            credit,
        ] + payload && expected == spec_crc32(body@) by {
            let b = seq![ctrl, ack, credit] + payload;
            assert(raw@.take(n as int) =~= b);
            assert(raw@.skip(n as int) =~= le_bytes(spec_crc32(b)));
            lemma_le_roundtrip(spec_crc32(b));
        }
    }
    if crc32(body.as_slice()) != expected {
        return Err(FrameError::Crc);
    }
    if body.len() < LINK_HEADER {
        return Err(FrameError::NoHeader);
    }
    let mut payload: Vec<u8> = Vec::new();
    let mut j: usize = LINK_HEADER;
    while j < body.len()
        invariant
            LINK_HEADER <= j <= body@.len(),
            payload@ == body@.subrange(3, j as int),
        decreases body@.len() - j,
    {
        payload.push(body[j]);
        assert(payload@ =~= body@.subrange(3, j + 1));
        j = j + 1;
    }
    assert(payload@ =~= body@.skip(3));
    proof {
        assert forall|ctrl: u8, ack: u8, credit: u8, payload2: Seq<u8>|
            encoded@ == #[trigger] frame_bytes(ctrl, ack, credit, payload2).drop_last() implies (
        body@[0] == ctrl && body@[1] == ack && body@[2] == credit && body@.skip(3) == payload2) by {
            assert(raw@ == frame_raw(ctrl, ack, credit, payload2));
            assert(body@ == seq![ctrl, ack, credit] + payload2);
            assert(body@.skip(3) =~= payload2);
        }
    }
    Ok(Frame { ctrl: body[0], ack: body[1], credit: body[2], payload })
}

/// Reassembly buffer of a frame reader: bytes received but not yet framed.
pub struct FrameBuffer {
    pub bytes: Vec<u8>,
    /// Bytes the buffer may hold before sentinel-free garbage is dropped.
    pub capacity: usize,
}

/// Outcome of looking for the next complete frame in the buffer.
pub enum FrameStep {
    /// The bytes of one frame, sentinel excluded, now consumed from the buffer.
    Frame(Vec<u8>),
    /// No sentinel yet; read more bytes.
    NeedMore,
    /// The buffer filled without a sentinel and was emptied.
    Overflow,
}

/// Position of the first sentinel in `s`, if any.
pub open spec fn first_sentinel(s: Seq<u8>) -> Option<int>
    decreases s.len(),
{
    if s.len() == 0 {
        None
    } else if s[0] == SENTINEL {
        Some(0)
    } else {
        match first_sentinel(s.drop_first()) {
            Some(i) => Some(i + 1),
            None => None,
        }
    }
}

proof fn lemma_first_sentinel(s: Seq<u8>, i: int)
    requires
        0 <= i <= s.len(),
        forall|j: int| 0 <= j < i ==> s[j] != SENTINEL,
    ensures
        i < s.len() && s[i] == SENTINEL ==> first_sentinel(s) == Some(i),
        i == s.len() ==> first_sentinel(s) is None,
    decreases i,
{
    if i > 0 {
        lemma_first_sentinel(s.drop_first(), i - 1);
    } else if s.len() > 0 {
    }
}

impl FrameBuffer {
    pub fn new(capacity: usize) -> (r: Self)
        requires
            capacity > 0,
        ensures
            r.bytes@.len() == 0,
            r.capacity == capacity,
    {
        FrameBuffer { bytes: Vec::new(), capacity }
    }

    /// Room left for received bytes.
    pub fn room(&self) -> (r: usize)
        requires
            self.bytes@.len() <= self.capacity,
        ensures
            r == self.capacity - self.bytes@.len(),
    {
        self.capacity - self.bytes.len()
    }

    /// Append received bytes.
    pub fn extend(&mut self, data: &[u8])
        requires
            old(self).bytes@.len() + data@.len() <= old(self).capacity,
        ensures
            final(self).bytes@ == old(self).bytes@ + data@,
            final(self).capacity == old(self).capacity,
    {
        let mut i: usize = 0;
        let ghost start = self.bytes@;
        while i < data.len()
            invariant
                i <= data@.len(),
                self.bytes@ == start + data@.take(i as int),
                self.capacity == old(self).capacity,
            decreases data@.len() - i,
        {
            self.bytes.push(data[i]);
            assert(self.bytes@ =~= start + data@.take(i + 1));
            i = i + 1;
        }
        assert(data@.take(i as int) =~= data@);
    }

    /// Drop everything buffered (after a transport error).
    pub fn clear(&mut self)
        ensures
            final(self).bytes@.len() == 0,
            final(self).capacity == old(self).capacity,
    {
        self.bytes.clear();
    }

    /// Take the next complete frame if a sentinel is buffered; a prior read
    /// may have pulled in more than one frame, and the rest stays buffered.
    pub fn next_frame(&mut self) -> (r: FrameStep)
        requires
            old(self).bytes@.len() <= old(self).capacity,
        ensures
            final(self).capacity == old(self).capacity,
            final(self).bytes@.len() <= final(self).capacity,
            (match first_sentinel(old(self).bytes@) {
                Some(i) => r matches FrameStep::Frame(f) && f@ == old(self).bytes@.take(i)
                    && final(self).bytes@ == old(self).bytes@.skip(i + 1),
                None => if old(self).bytes@.len() >= old(self).capacity {
                    r is Overflow && final(self).bytes@.len() == 0
                } else {
                    r is NeedMore && final(self).bytes@ == old(self).bytes@
                },
            }),
    {
        let mut i: usize = 0;
        while i < self.bytes.len()
            invariant
                i <= self.bytes@.len(),
                self.bytes@ == old(self).bytes@,
                self.capacity == old(self).capacity,
                self.bytes@.len() <= self.capacity,
                forall|j: int| 0 <= j < i ==> self.bytes@[j] != SENTINEL,
            decreases self.bytes@.len() - i,
        {
            if self.bytes[i] == SENTINEL {
                proof {
                    lemma_first_sentinel(self.bytes@, i as int);
                }
                let mut frame: Vec<u8> = Vec::new();
                let mut k: usize = 0;
                while k < i
                    invariant
                        k <= i < self.bytes@.len(),
                        self.bytes@ == old(self).bytes@,
                        frame@ == self.bytes@.take(k as int),
                    decreases i - k,
                {
                    frame.push(self.bytes[k]);
                    assert(frame@ =~= self.bytes@.take(k + 1));
                    k = k + 1;
                }
                let mut rest: Vec<u8> = Vec::new();
                let mut m: usize = i + 1;
                while m < self.bytes.len()
                    invariant
                        i < m <= self.bytes@.len(),
                        self.bytes@ == old(self).bytes@,
                        rest@ == self.bytes@.subrange(i + 1, m as int),
                    decreases self.bytes@.len() - m,
                {
                    rest.push(self.bytes[m]);
                    assert(rest@ =~= self.bytes@.subrange(i + 1, m + 1));
                    m = m + 1;
                }
                assert(rest@ =~= self.bytes@.skip(i + 1));
                assert(rest@.len() == old(self).bytes@.len() - i - 1);
                self.bytes = rest;
                return FrameStep::Frame(frame);
            }
            i = i + 1;
        }
        proof {
            lemma_first_sentinel(self.bytes@, i as int);
        }
        if self.bytes.len() >= self.capacity {
            self.bytes.clear();
            return FrameStep::Overflow;
        }
        FrameStep::NeedMore
    }
}

} // verus!
