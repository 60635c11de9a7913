//! Wired-link traffic counters, so a half that goes quiet can be told apart
//! from one that never saw the bus at all. Every counter wraps, as an
//! atomic add does.
use vstd::prelude::*;

verus! {

/// The counters of one wired link.
#[derive(Debug, Clone, Copy, PartialEq, Eq, Structural)]
pub struct Counters {
    /// Bytes delivered by the serial transport.
    pub rx_bytes: u32,
    /// Frames that decoded and passed CRC.
    pub frames_ok: u32,
    /// Frames dropped by COBS, CRC, or the message decoder.
    pub frames_bad: u32,
    /// Frames handed to the transport for transmission.
    pub tx_frames: u32,
    /// Frames whose bytes all reached the transport.
    pub tx_done: u32,
    /// Writes dropped before the bus was released normally.
    pub write_cancelled: u32,
    /// Reads that returned a transport error.
    pub rx_errors: u32,
    /// Sequenced frames retransmitted by the link layer.
    pub retransmits: u32,
    /// Messages refused at enqueue because their lane was full.
    pub lane_drops: u32,
}

impl Counters {
    /// All counters at zero.
    pub fn new() -> (r: Self)
        ensures
            r == (Counters {
                rx_bytes: 0,
                frames_ok: 0,
                frames_bad: 0,
                tx_frames: 0,
                tx_done: 0,
                write_cancelled: 0,
                rx_errors: 0,
                retransmits: 0,
                lane_drops: 0,
            }),
    {
        Counters {
            rx_bytes: 0,
            frames_ok: 0,
            frames_bad: 0,
            tx_frames: 0,
            tx_done: 0,
            write_cancelled: 0,
            rx_errors: 0,
            retransmits: 0,
            lane_drops: 0,
        }
    }
}

/// `c + n` modulo 2^32.
pub open spec fn wrap_add(c: u32, n: int) -> u32 {
    ((c + n) % 0x1_0000_0000) as u32
}

/// Count `n` received bytes (the count is taken modulo 2^32).
pub fn add_rx(counters: &mut Counters, n: usize)
    ensures
        *final(counters) == (Counters {
            rx_bytes: wrap_add(old(counters).rx_bytes, (n as int) % 0x1_0000_0000),
            ..*old(counters)
        }),
{
    let low = (n & 0xffff_ffff) as u32;
    assert((n & 0xffff_ffff) as int == (n as int) % 0x1_0000_0000) by (bit_vector);
    counters.rx_bytes = counters.rx_bytes.wrapping_add(low);
}

/// Count one event.
pub fn bump(c: &mut u32)
    ensures
        *final(c) == wrap_add(*old(c), 1),
{
    *c = c.wrapping_add(1);
}

pub open spec fn min_u32(a: u32, b: u32) -> u32 {
    if a < b { a } else { b }
}

/// Retransmits in the high half and cancelled writes in the low half, each
/// saturated at 0xffff.
pub open spec fn packed(retransmits: u32, write_cancelled: u32) -> u32 {
    (min_u32(retransmits, 0xffff) * 0x10000 + min_u32(write_cancelled, 0xffff)) as u32
}

/// `(rx_bytes, frames_ok, frames_bad, tx_frames, tx_done, packed)`, where
/// `packed` holds retransmits in the high half and cancelled writes in the
/// low half.
pub fn snapshot(counters: &Counters) -> (r: (u32, u32, u32, u32, u32, u32))
    ensures
        r == (
            counters.rx_bytes,
            counters.frames_ok,
            counters.frames_bad,
            counters.tx_frames,
            counters.tx_done,
            packed(counters.retransmits, counters.write_cancelled),
        ),
{
    let hi: u32 = if counters.retransmits < 0xffff { counters.retransmits } else { 0xffff };
    let lo: u32 = if counters.write_cancelled < 0xffff { counters.write_cancelled } else { 0xffff };
    assert((hi << 16u32) | lo == hi * 0x10000 + lo) by (bit_vector)
        requires
            hi <= 0xffff,
            lo <= 0xffff,
    ;
    (
        counters.rx_bytes,
        counters.frames_ok,
        counters.frames_bad,
        counters.tx_frames,
        counters.tx_done,
        (hi << 16u32) | lo,
    )
}

/// The packed half-words read back as the saturated counters.
pub proof fn lemma_packed_halves(retransmits: u32, write_cancelled: u32)
    ensures
        packed(retransmits, write_cancelled) / 0x10000 == min_u32(retransmits, 0xffff),
        packed(retransmits, write_cancelled) % 0x10000 == min_u32(write_cancelled, 0xffff),
{
    let hi = min_u32(retransmits, 0xffff) as int;
    let lo = min_u32(write_cancelled, 0xffff) as int;
    assert(hi * 0x10000 + lo <= u32::MAX);
    assert((hi * 0x10000 + lo) / 0x10000 == hi) by (nonlinear_arith)
        requires 0 <= lo < 0x10000, 0 <= hi;
    assert((hi * 0x10000 + lo) % 0x10000 == lo) by (nonlinear_arith)
        requires 0 <= lo < 0x10000, 0 <= hi;
}

} // verus!
