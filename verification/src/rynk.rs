//! The Rynk host protocol: frame headers, reassembly of the device-to-host
//! byte stream, the best-effort topic queue, and the client's request
//! sequencing and response matching.
//!
//! A frame is a five-byte header — command (`u16`, little-endian), sequence
//! number, payload length (`u16`, little-endian) — followed by the payload.
//! Topics (server pushes) carry sequence 0; requests count from 1 and wrap
//! back to 1, so a reply never looks like a topic.
use vstd::prelude::*;
use std::collections::VecDeque;

verus! {

/// Bytes in a frame header.
pub const RYNK_HEADER_SIZE: usize = 5;
/// Default maximum complete frame size, header included.
pub const DEFAULT_FRAME_SIZE: usize = 4096;
/// Default number of queued topic frames.
pub const DEFAULT_EVENT_CAPACITY: usize = 64;
/// Maximum raw payload retained for one queued topic.
pub const TOPIC_PAYLOAD_SIZE: usize = 256;

/// A protocol command, by its wire number.
#[derive(Clone, Copy, Debug, Eq, PartialEq, Structural)]
pub struct Cmd(pub u16);

/// A protocol version: majors must match, a newer minor is informational.
#[derive(Clone, Copy, Debug, Eq, PartialEq, Structural)]
pub struct ProtocolVersion {
    pub major: u8,
    pub minor: u8,
}

/// Why the lighting service rejected a request.
#[derive(Clone, Copy, Debug, Eq, PartialEq, Structural)]
pub enum LightingError {
    /// The pinned state revision is no longer current.
    StateRevisionConflict,
    /// Any other lighting rejection, by its code.
    Other(u8),
}

/// Errors of the protocol client.
#[derive(Clone, Debug)]
pub enum RynkHostError {
    Disconnected,
    Io(String),
    DeviceNotFound(String),
    VersionMismatch { firmware_major: u8, firmware_minor: u8, host_major: u8, host_max_minor: u8 },
    /// The device rejected the request, with its error code.
    Rejected(u8),
    /// The request does not fit the frame or the device's payload limit.
    Encode(Cmd),
    /// The response did not decode.
    Deserialize { cmd: Cmd },
    Layout(String),
    FrameTooLarge { len: usize, max: usize },
    TrailingBytes { cmd: Cmd },
    CmdMismatch { sent: Cmd, got: Cmd },
    TopicCmd(Cmd),
    Unsupported(Cmd, &'static str),
    LightingRejected(LightingError),
    InconsistentResponse { cmd: Cmd, reason: &'static str },
}

/// A frame header.
#[derive(Clone, Copy, Debug, Eq, PartialEq, Structural)]
pub struct RynkHeader {
    pub cmd: Cmd,
    pub seq: u8,
    pub payload_len: u16,
}

pub open spec fn spec_parse_header(b: Seq<u8>) -> RynkHeader {
    RynkHeader {
        cmd: Cmd((b[0] + b[1] * 256) as u16),
        seq: b[2],
        payload_len: (b[3] + b[4] * 256) as u16,
    }
}

pub open spec fn spec_encode_header(h: RynkHeader) -> Seq<u8> {
    seq![
        (h.cmd.0 % 256) as u8,
        (h.cmd.0 / 256) as u8,
        h.seq,
        (h.payload_len % 256) as u8,
        (h.payload_len / 256) as u8,
    ]
}

impl RynkHeader {
    /// Read the header at the start of `bytes`.
    pub fn parse(bytes: &[u8]) -> (r: Self)
        requires
            bytes@.len() >= RYNK_HEADER_SIZE,
        ensures
            r == spec_parse_header(bytes@),
    {
        RynkHeader {
            cmd: Cmd(bytes[0] as u16 + (bytes[1] as u16) * 256),
            seq: bytes[2],
            payload_len: bytes[3] as u16 + (bytes[4] as u16) * 256,
        }
    }

    /// The five header bytes.
    pub fn encode(&self) -> (r: Vec<u8>)
        ensures
            r@ == spec_encode_header(*self),
    {
        let mut out: Vec<u8> = Vec::new();
        out.push((self.cmd.0 % 256) as u8);
        out.push((self.cmd.0 / 256) as u8);
        out.push(self.seq);
        out.push((self.payload_len % 256) as u8);
        out.push((self.payload_len / 256) as u8);
        assert(out@ =~= spec_encode_header(*self));
        out
    }

    /// Header plus payload.
    pub fn frame_len(&self) -> (r: usize)
        ensures
            r == RYNK_HEADER_SIZE + self.payload_len,
    {
        RYNK_HEADER_SIZE + self.payload_len as usize
    }
}

/// A header reads back as it was written.
pub proof fn lemma_header_round_trip(h: RynkHeader)
    ensures
        spec_encode_header(h).len() == RYNK_HEADER_SIZE,
        spec_parse_header(spec_encode_header(h)) == h,
{
}

/// A server-to-host topic frame with a bounded payload.
#[derive(Clone, Debug)]
pub struct TopicFrame {
    pub cmd: Cmd,
    payload: [u8; TOPIC_PAYLOAD_SIZE],
    payload_len: usize,
}

impl TopicFrame {
    pub closed spec fn spec_payload(&self) -> Seq<u8> {
        self.payload@.take(self.payload_len as int)
    }

    pub closed spec fn wf(&self) -> bool {
        self.payload_len <= TOPIC_PAYLOAD_SIZE
    }

    pub closed spec fn spec_cmd(&self) -> Cmd {
        self.cmd
    }

    /// Keep a topic payload; one longer than [`TOPIC_PAYLOAD_SIZE`] is refused.
    pub fn new(cmd: Cmd, payload: &[u8]) -> (r: Result<Self, RynkHostError>)
        ensures
            payload@.len() <= TOPIC_PAYLOAD_SIZE <==> r is Ok,
            r matches Ok(t) ==> t.wf() && t.spec_cmd() == cmd && t.spec_payload() == payload@,
            r matches Err(e) ==> e matches RynkHostError::FrameTooLarge { len, max }
                && len == payload@.len() && max == TOPIC_PAYLOAD_SIZE,
    {
        if payload.len() > TOPIC_PAYLOAD_SIZE {
            return Err(RynkHostError::FrameTooLarge { len: payload.len(), max: TOPIC_PAYLOAD_SIZE });
        }
        let mut bytes = [0u8; TOPIC_PAYLOAD_SIZE];
        let mut i: usize = 0;
        while i < payload.len()
            invariant
                payload@.len() <= TOPIC_PAYLOAD_SIZE,
                i <= payload@.len(),
                bytes@.len() == TOPIC_PAYLOAD_SIZE,
                forall|j: int| 0 <= j < i ==> bytes@[j] == payload@[j],
            decreases payload@.len() - i,
        {
            bytes[i] = payload[i];
            i = i + 1;
        }
        assert(bytes@.take(payload@.len() as int) =~= payload@);
        Ok(TopicFrame { cmd, payload: bytes, payload_len: payload.len() })
    }

    /// The topic's payload.
    pub fn payload(&self) -> (r: &[u8])
        requires
            self.wf(),
        ensures
            r@ == self.spec_payload(),
    {
        let all: &[u8] = self.payload.as_slice();
        let r = vstd::slice::slice_subrange(all, 0, self.payload_len);
        assert(r@ =~= self.spec_payload());
        r
    }
}

/// The best-effort topic queue: it never blocks the reader; when full, the
/// oldest topic gives way and the drop is counted (saturating).
pub struct TopicQueue {
    frames: VecDeque<TopicFrame>,
    capacity: usize,
    dropped: u64,
}

impl TopicQueue {
    pub closed spec fn spec_frames(&self) -> Seq<TopicFrame> {
        self.frames@
    }

    pub closed spec fn spec_capacity(&self) -> usize {
        self.capacity
    }

    pub closed spec fn spec_dropped(&self) -> u64 {
        self.dropped
    }

    pub closed spec fn wf(&self) -> bool {
        self.capacity > 0 && self.frames@.len() <= self.capacity
    }

    /// An empty queue of `capacity` topics.
    pub fn new(capacity: usize) -> (r: Self)
        requires
            capacity > 0,
        ensures
            r.wf(),
            r.spec_frames() == Seq::<TopicFrame>::empty(),
            r.spec_capacity() == capacity,
            r.spec_dropped() == 0,
    {
        TopicQueue { frames: VecDeque::new(), capacity, dropped: 0 }
    }

    /// Topics dropped so far.
    pub fn events_dropped(&self) -> (r: u64)
        ensures
            r == self.spec_dropped(),
    {
        self.dropped
    }

    /// Count one topic dropped (saturating).
    pub fn record_dropped_topic(&mut self)
        ensures
            final(self).spec_dropped() == if old(self).spec_dropped() == u64::MAX {
                u64::MAX
            } else {
                (old(self).spec_dropped() + 1) as u64
            },
            final(self).spec_frames() == old(self).spec_frames(),
            final(self).spec_capacity() == old(self).spec_capacity(),
            old(self).wf() ==> final(self).wf(),
    {
        self.dropped = self.dropped.saturating_add(1);
    }

    /// Queue a topic; when full, the oldest one is dropped and counted.
    pub fn queue_topic(&mut self, topic: TopicFrame)
        requires
            old(self).wf(),
        ensures
            final(self).wf(),
            final(self).spec_capacity() == old(self).spec_capacity(),
            old(self).spec_frames().len() < old(self).spec_capacity() ==> {
                &&& final(self).spec_frames() == old(self).spec_frames().push(topic)
                &&& final(self).spec_dropped() == old(self).spec_dropped()
            },
            old(self).spec_frames().len() == old(self).spec_capacity() ==> {
                &&& final(self).spec_frames() == old(self).spec_frames().skip(1).push(topic)
                &&& final(self).spec_dropped() == if old(self).spec_dropped() == u64::MAX {
                    u64::MAX
                } else {
                    (old(self).spec_dropped() + 1) as u64
                }
            },
    {
        if self.frames.len() < self.capacity {
            self.frames.push_back(topic);
        } else {
            let ghost before = self.frames@;
            let _ = self.frames.pop_front();
            self.frames.push_back(topic);
            assert(self.frames@ =~= before.skip(1).push(topic));
            self.dropped = self.dropped.saturating_add(1);
        }
    }

    /// The oldest queued topic, if any.
    pub fn pop(&mut self) -> (r: Option<TopicFrame>)
        requires
            old(self).wf(),
        ensures
            final(self).wf(),
            final(self).spec_capacity() == old(self).spec_capacity(),
            final(self).spec_dropped() == old(self).spec_dropped(),
            old(self).spec_frames().len() == 0 ==> r is None && final(self).spec_frames() == old(self).spec_frames(),
            old(self).spec_frames().len() > 0 ==> r == Some(old(self).spec_frames()[0])
                && final(self).spec_frames() == old(self).spec_frames().skip(1),
    {
        let r = self.frames.pop_front();
        r
    }
}

/// What reassembly of the device-to-host stream yields next.
pub enum ReadStep {
    /// A complete frame (header and payload), removed from the buffer.
    Frame(Vec<u8>),
    /// No complete frame yet: read more bytes.
    NeedMore,
    /// A frame can never fit the buffer; the link must end.
    TooLarge { len: usize, max: usize },
}

/// Reassembly buffer for the device-to-host byte stream, which may arrive
/// in arbitrary chunks.
pub struct FrameReader {
    buf: Vec<u8>,
    capacity: usize,
}

impl FrameReader {
    pub closed spec fn spec_buffered(&self) -> Seq<u8> {
        self.buf@
    }

    pub closed spec fn spec_capacity(&self) -> usize {
        self.capacity
    }

    pub closed spec fn wf(&self) -> bool {
        self.capacity >= RYNK_HEADER_SIZE && self.buf@.len() <= self.capacity
    }

    /// An empty reader for frames of at most `capacity` bytes.
    pub fn new(capacity: usize) -> (r: Self)
        requires
            capacity >= RYNK_HEADER_SIZE,
        ensures
            r.wf(),
            r.spec_buffered() == Seq::<u8>::empty(),
            r.spec_capacity() == capacity,
    {
        FrameReader { buf: Vec::new(), capacity }
    }

    /// Free buffer space for the next transport read.
    pub fn room(&self) -> (r: usize)
        requires
            self.wf(),
        ensures
            r == self.spec_capacity() - self.spec_buffered().len(),
    {
        self.capacity - self.buf.len()
    }

    /// Append bytes delivered by the transport.
    pub fn append(&mut self, bytes: &[u8])
        requires
            old(self).wf(),
            old(self).spec_buffered().len() + bytes@.len() <= old(self).spec_capacity(),
        ensures
            final(self).wf(),
            final(self).spec_buffered() == old(self).spec_buffered() + bytes@,
            final(self).spec_capacity() == old(self).spec_capacity(),
    {
        let mut i: usize = 0;
        let ghost start = self.buf@;
        while i < bytes.len()
            invariant
                i <= bytes@.len(),
                self.buf@ == start + bytes@.take(i as int),
                self.capacity == old(self).spec_capacity(),
                start == old(self).spec_buffered(),
                start.len() + bytes@.len() <= self.capacity,
            decreases bytes@.len() - i,
        {
            self.buf.push(bytes[i]);
            assert(self.buf@ =~= start + bytes@.take(i + 1));
            i = i + 1;
        }
        assert(bytes@.take(i as int) =~= bytes@);
    }

    /// Take the next complete frame off the buffer. A header announcing a
    /// frame longer than the capacity ends the link; so does a full buffer
    /// without a complete frame.
    pub fn take_frame(&mut self) -> (r: ReadStep)
        requires
            old(self).wf(),
        ensures
            final(self).wf(),
            final(self).spec_capacity() == old(self).spec_capacity(),
            ({
                let b = old(self).spec_buffered();
                let cap = old(self).spec_capacity();
                if b.len() >= RYNK_HEADER_SIZE {
                    let fl = RYNK_HEADER_SIZE + spec_parse_header(b).payload_len;
                    if fl > cap {
                        r matches ReadStep::TooLarge { len, max } && len == fl && max == cap
                            && final(self).spec_buffered() == b
                    } else if b.len() >= fl {
                        r matches ReadStep::Frame(f) && f@ == b.take(fl) && final(self).spec_buffered() == b.skip(fl)
                    } else {
                        r is NeedMore && final(self).spec_buffered() == b
                    }
                } else {
                    r is NeedMore && final(self).spec_buffered() == b
                }
            }),
    {
        let used = self.buf.len();
        if used >= RYNK_HEADER_SIZE {
            let header = RynkHeader::parse(self.buf.as_slice());
            let frame_len = header.frame_len();
            if frame_len > self.capacity {
                return ReadStep::TooLarge { len: frame_len, max: self.capacity };
            }
            if used >= frame_len {
                let ghost b = self.buf@;
                let mut frame: Vec<u8> = Vec::new();
                let mut rest: Vec<u8> = Vec::new();
                let mut i: usize = 0;
                while i < used
                    invariant
                        used == b.len(),
                        b == self.buf@,
                        frame_len <= used,
                        i <= used,
                        i <= frame_len ==> frame@ == b.take(i as int) && rest@.len() == 0,
                        i > frame_len ==> frame@ == b.take(frame_len as int) && rest@ == b.subrange(
                            frame_len as int,
                            i as int,
                        ),
                    decreases used - i,
                {
                    if i < frame_len {
                        frame.push(self.buf[i]);
                        assert(frame@ =~= b.take(i + 1));
                    } else {
                        rest.push(self.buf[i]);
                        assert(rest@ =~= b.subrange(frame_len as int, i + 1));
                    }
                    i = i + 1;
                }
                assert(rest@ =~= b.skip(frame_len as int));
                assert(frame@ =~= b.take(frame_len as int));
                self.buf = rest;
                return ReadStep::Frame(frame);
            }
        }
        if used == self.capacity {
            return ReadStep::TooLarge { len: used + 1, max: self.capacity };
        }
        ReadStep::NeedMore
    }
}

/// The sequence number after `seq`: counting up, wrapping to 1 (0 marks topics).
pub open spec fn spec_next_seq(seq: u8) -> u8 {
    if seq == u8::MAX { 1 } else { (seq + 1) as u8 }
}

/// Advance the request sequence number.
pub fn next_seq(seq: u8) -> (r: u8)
    ensures
        r == spec_next_seq(seq),
        r != 0,
{
    match seq.checked_add(1) {
        Some(n) => n,
        None => 1,
    }
}

/// Device capabilities announced at the handshake.
#[derive(Clone, Copy, Debug, Eq, PartialEq, Structural)]
pub struct DeviceCapabilities {
    pub num_layers: u8,
    pub num_rows: u8,
    pub num_cols: u8,
    pub num_encoders: u8,
    pub max_combos: u8,
    pub max_combo_keys: u8,
    pub macro_space_size: u16,
    pub max_morse: u8,
    pub max_patterns_per_key: u8,
    pub max_forks: u8,
    pub storage_enabled: bool,
    pub max_payload_size: u16,
    pub macro_chunk_size: u16,
    pub bulk_transfer_supported: bool,
    pub max_bulk_keys: u8,
    pub max_bulk_configs: u8,
    pub ble_enabled: bool,
    pub lighting_enabled: bool,
    pub is_split: bool,
    pub num_split_peripherals: u8,
    pub num_ble_profiles: u8,
}

impl Default for DeviceCapabilities {
    fn default() -> (r: Self)
        ensures
            r == spec_default_capabilities(),
    {
        DeviceCapabilities {
            num_layers: 0,
            num_rows: 0,
            num_cols: 0,
            num_encoders: 0,
            max_combos: 0,
            max_combo_keys: 0,
            macro_space_size: 0,
            max_morse: 0,
            max_patterns_per_key: 0,
            max_forks: 0,
            storage_enabled: false,
            max_payload_size: 0,
            macro_chunk_size: 0,
            bulk_transfer_supported: false,
            max_bulk_keys: 0,
            max_bulk_configs: 0,
            ble_enabled: false,
            lighting_enabled: false,
            is_split: false,
            num_split_peripherals: 0,
            num_ble_profiles: 0,
        }
    }
}

/// Everything zero and disabled.
pub open spec fn spec_default_capabilities() -> DeviceCapabilities {
    DeviceCapabilities {
        num_layers: 0,
        num_rows: 0,
        num_cols: 0,
        num_encoders: 0,
        max_combos: 0,
        max_combo_keys: 0,
        macro_space_size: 0,
        max_morse: 0,
        max_patterns_per_key: 0,
        max_forks: 0,
        storage_enabled: false,
        max_payload_size: 0,
        macro_chunk_size: 0,
        bulk_transfer_supported: false,
        max_bulk_keys: 0,
        max_bulk_configs: 0,
        ble_enabled: false,
        lighting_enabled: false,
        is_split: false,
        num_split_peripherals: 0,
        num_ble_profiles: 0,
    }
}

/// The handshake's version check: a different major is refused; a newer
/// minor is accepted. `Ok(true)` reports that the firmware's minor is newer.
pub fn check_version(firmware: ProtocolVersion, supported: ProtocolVersion) -> (r: Result<bool, RynkHostError>)
    ensures
        r is Ok <==> firmware.major == supported.major,
        r matches Ok(newer) ==> newer == (firmware.minor > supported.minor),
        r matches Err(e) ==> e matches RynkHostError::VersionMismatch {
            firmware_major,
            firmware_minor,
            host_major,
            host_max_minor,
        } && firmware_major == firmware.major && firmware_minor == firmware.minor && host_major
            == supported.major && host_max_minor == supported.minor,
{
    if firmware.major != supported.major {
        return Err(
            RynkHostError::VersionMismatch {
                firmware_major: firmware.major,
                firmware_minor: firmware.minor,
                host_major: supported.major,
                host_max_minor: supported.minor,
            },
        );
    }
    Ok(firmware.minor > supported.minor)
}

/// Local checks before a request goes on the wire: a topic command is not
/// a request; the encoded payload (`None` when it did not fit the frame)
/// must fit, and stay within the device's payload limit once known.
pub fn check_request(cmd: Cmd, cmd_is_topic: bool, payload_len: Option<u16>, capabilities: Option<DeviceCapabilities>) -> (r: Result<(), RynkHostError>)
    ensures
        cmd_is_topic ==> (r matches Err(RynkHostError::TopicCmd(c)) && c == cmd),
        !cmd_is_topic ==> (r is Ok <==> (payload_len matches Some(n) && (capabilities matches Some(c) ==> n
            <= c.max_payload_size))),
        !cmd_is_topic && r is Err ==> (r matches Err(RynkHostError::Encode(c)) && c == cmd),
{
    if cmd_is_topic {
        return Err(RynkHostError::TopicCmd(cmd));
    }
    match payload_len {
        None => Err(RynkHostError::Encode(cmd)),
        Some(n) => match capabilities {
            Some(c) => if n > c.max_payload_size {
                Err(RynkHostError::Encode(cmd))
            } else {
                Ok(())
            },
            None => Ok(()),
        },
    }
}

/// How a response frame relates to the request in flight.
#[derive(Clone, Copy, Debug, Eq, PartialEq, Structural)]
pub enum ResponseMatch {
    /// A reply to an earlier (cancelled) request: skip it.
    Stale,
    /// Our sequence number but another command: the link is confused.
    Mismatch { sent: Cmd, got: Cmd },
    /// The reply to this request.
    Accept,
}

/// Match a response header against the request `(seq, cmd)` in flight.
pub fn match_response(seq: u8, cmd: Cmd, header: &RynkHeader) -> (r: ResponseMatch)
    ensures
        r == if header.seq != seq {
            ResponseMatch::Stale
        } else if header.cmd != cmd {
            ResponseMatch::Mismatch { sent: cmd, got: header.cmd }
        } else {
            ResponseMatch::Accept
        },
{
    if header.seq != seq {
        ResponseMatch::Stale
    } else if header.cmd.0 != cmd.0 {
        ResponseMatch::Mismatch { sent: cmd, got: header.cmd }
    } else {
        ResponseMatch::Accept
    }
}

/// A capability a command depends on.
#[derive(Clone, Copy, Debug, Eq, PartialEq, Structural)]
pub enum Gate {
    BulkTransfer,
    Ble,
    Lighting,
    Split,
    Storage,
}

pub open spec fn gate_open(caps: DeviceCapabilities, gate: Gate) -> bool {
    match gate {
        Gate::BulkTransfer => caps.bulk_transfer_supported,
        Gate::Ble => caps.ble_enabled,
        Gate::Lighting => caps.lighting_enabled,
        Gate::Split => caps.is_split,
        Gate::Storage => caps.storage_enabled,
    }
}

/// Refuse a command locally, without a wire send, when the handshake says
/// the firmware lacks what it needs.
pub fn require(caps: &DeviceCapabilities, gate: Gate, cmd: Cmd) -> (r: Result<(), RynkHostError>)
    ensures
        r is Ok <==> gate_open(*caps, gate),
        r matches Err(e) ==> e matches RynkHostError::Unsupported(c, _) && c == cmd,
{
    let (open, reason) = match gate {
        Gate::BulkTransfer => (caps.bulk_transfer_supported, "bulk transfer not supported"),
        Gate::Ble => (caps.ble_enabled, "BLE not enabled"),
        Gate::Lighting => (caps.lighting_enabled, "lighting not enabled"),
        Gate::Split => (caps.is_split, "not a split keyboard"),
        Gate::Storage => (caps.storage_enabled, "storage not enabled"),
    };
    if open {
        Ok(())
    } else {
        Err(RynkHostError::Unsupported(cmd, reason))
    }
}

/// Each gate opens exactly on the capability flag that names it, whatever
/// the others say: lighting commands go out exactly when the firmware
/// reports lighting (BLE or not), BLE commands exactly when it reports BLE,
/// and so on; two capability sets that agree on a gate's flag agree on it.
pub proof fn lemma_gate_follows_its_capability(caps: DeviceCapabilities, other: DeviceCapabilities)
    ensures
        gate_open(caps, Gate::Lighting) == caps.lighting_enabled,
        gate_open(caps, Gate::Ble) == caps.ble_enabled,
        gate_open(caps, Gate::BulkTransfer) == caps.bulk_transfer_supported,
        gate_open(caps, Gate::Split) == caps.is_split,
        gate_open(caps, Gate::Storage) == caps.storage_enabled,
        caps.lighting_enabled == other.lighting_enabled ==> gate_open(caps, Gate::Lighting) == gate_open(other, Gate::Lighting),
        caps.ble_enabled == other.ble_enabled ==> gate_open(caps, Gate::Ble) == gate_open(other, Gate::Ble),
        caps.bulk_transfer_supported == other.bulk_transfer_supported ==> gate_open(caps, Gate::BulkTransfer)
            == gate_open(other, Gate::BulkTransfer),
        caps.is_split == other.is_split ==> gate_open(caps, Gate::Split) == gate_open(other, Gate::Split),
        caps.storage_enabled == other.storage_enabled ==> gate_open(caps, Gate::Storage) == gate_open(other, Gate::Storage),
{
}

} // verus!
