use std::collections::VecDeque;

use rmk::counters::{add_rx, bump, snapshot, Counters};
use rmk::frame::{decode_frame, encode_frame, crc32, FrameBuffer, FrameError, FrameStep, SENTINEL};
use rmk::half_duplex::{HalfDuplexCentral, HalfDuplexPeripheral, WireBody, WireFrame};
use rmk::link::{seq_before, lane_of, Lane, LinkMessage, MessageKind, LANE_CAPACITY, RESET_FLAG, SEQ_FLAG};

/// The split messages these tests exchange.
#[derive(Clone, Copy, Debug, PartialEq)]
enum Msg {
    LedState(bool),
    ConnectionStatus,
    Idle,
    Key,
}

fn msg(m: Msg) -> LinkMessage<Msg> {
    let kind = match m {
        Msg::LedState(_) => MessageKind::LedState,
        Msg::ConnectionStatus => MessageKind::ConnectionStatus,
        Msg::Idle => MessageKind::HalfDuplexIdle,
        Msg::Key => MessageKind::Key,
    };
    LinkMessage { kind, body: m }
}

fn frame(ctrl: u8, ack: u8, credit: u8, m: Msg) -> WireFrame<Msg> {
    WireFrame { ctrl, ack, credit, body: WireBody::Message(msg(m)) }
}

fn poll(ctrl: u8, ack: u8, credit: u8) -> WireFrame<Msg> {
    WireFrame { ctrl, ack, credit, body: WireBody::Poll }
}

fn idle(ctrl: u8, ack: u8, credit: u8) -> WireFrame<Msg> {
    WireFrame { ctrl, ack, credit, body: WireBody::Idle }
}

fn seq_frame(seq: u8, ack: u8, m: Msg) -> WireFrame<Msg> {
    frame(SEQ_FLAG | seq, ack, u8::MAX, m)
}

fn reset_echo() -> WireFrame<Msg> {
    idle(RESET_FLAG, 0, 8)
}

fn is_poll(f: &WireFrame<Msg>) -> bool {
    matches!(f.body, WireBody::Poll)
}

fn is_idle(f: &WireFrame<Msg>) -> bool {
    matches!(f.body, WireBody::Idle)
}

fn body(f: &WireFrame<Msg>) -> Option<Msg> {
    match f.body {
        WireBody::Message(m) => Some(m.body),
        _ => None,
    }
}

/// Scripted wire: each exchange's response window reads the next chunk.
struct Central {
    link: HalfDuplexCentral<Msg>,
    script: VecDeque<Vec<WireFrame<Msg>>>,
    writes: Vec<WireFrame<Msg>>,
}

impl Central {
    fn new(script: Vec<Vec<WireFrame<Msg>>>) -> Self {
        Central { link: HalfDuplexCentral::new(), script: script.into(), writes: Vec::new() }
    }

    /// One exchange: transmit, then listen out the response window.
    fn exchange(&mut self) -> bool {
        let reply = self.link.begin_exchange();
        self.writes.extend(reply.frames);
        let mut heard = false;
        while self.link.listening {
            match self.script.pop_front() {
                Some(chunk) => {
                    for f in chunk {
                        heard = true;
                        self.link.on_frame(f);
                    }
                }
                None => self.link.close_window(),
            }
        }
        heard
    }

    fn read(&mut self) -> Msg {
        loop {
            if let Some(m) = self.link.take_received() {
                return m.body;
            }
            assert!(self.exchange() || !self.script.is_empty(), "the link went silent");
        }
    }

    fn write(&mut self, m: Msg) {
        while self.link.enqueue(msg(m)).is_err() {
            self.exchange();
        }
    }
}

struct Peripheral {
    link: HalfDuplexPeripheral<Msg>,
    script: VecDeque<WireFrame<Msg>>,
    writes: Vec<WireFrame<Msg>>,
    counters: Counters,
}

impl Peripheral {
    fn new(script: Vec<WireFrame<Msg>>) -> Self {
        Peripheral { link: HalfDuplexPeripheral::new(), script: script.into(), writes: Vec::new(), counters: Counters::new() }
    }

    fn read(&mut self) -> Msg {
        loop {
            if let Some(m) = self.link.take_received() {
                return m.body;
            }
            let f = self.script.pop_front().expect("unexpected read");
            let reply = self.link.on_frame(f);
            if reply.retransmitted {
                bump(&mut self.counters.retransmits);
            }
            self.writes.extend(reply.frames);
        }
    }

    fn write(&mut self, m: Msg) -> Result<(), ()> {
        let r = self.link.write(msg(m));
        if r.is_err() {
            bump(&mut self.counters.lane_drops);
        }
        r
    }
}

#[test]
fn central_exchange_polls_and_delivers_reply() {
    // Exchange 1 is the session handshake; exchange 2 carries data.
    let reply = vec![seq_frame(0, 0, Msg::LedState(true)), idle(0, 0, 8)];
    let mut driver = Central::new(vec![vec![reset_echo()], reply]);

    let message = driver.read();

    assert_eq!(message, Msg::LedState(true));
    let writes = &driver.writes;
    assert_eq!(writes[0].ctrl, RESET_FLAG, "session opens with a reset poll");
    assert!(is_poll(&writes[0]));
    assert!(is_poll(&writes[1]));
    assert_eq!(writes[1].ack, 0, "first data poll expects seq 0");
}

#[test]
fn central_acks_received_frames_on_next_poll() {
    let reply = vec![seq_frame(0, 0, Msg::LedState(true)), idle(0, 0, 8)];
    let second = vec![seq_frame(1, 0, Msg::LedState(false)), idle(0, 0, 8)];
    let mut driver = Central::new(vec![vec![reset_echo()], reply, second]);

    assert_eq!(driver.read(), Msg::LedState(true));
    assert_eq!(driver.read(), Msg::LedState(false));

    let writes = &driver.writes;
    assert_eq!(writes[1].ack, 0, "first data poll expects seq 0");
    assert_eq!(writes[2].ack, 1, "next poll acknowledges seq 0");
}

#[test]
fn peripheral_replies_only_to_polls_and_sequences_frames() {
    let data = seq_frame(0, 0, Msg::ConnectionStatus);
    let mut driver = Peripheral::new(vec![poll(0, 0, 8), data]);

    driver.write(Msg::LedState(true)).unwrap();
    assert!(driver.writes.is_empty(), "no unprompted transmissions");

    assert_eq!(driver.read(), Msg::ConnectionStatus);

    let writes = &driver.writes;
    assert_eq!(writes[0].ctrl, SEQ_FLAG, "reply carries seq 0");
    assert_eq!(body(&writes[0]), Some(Msg::LedState(true)));
    assert!(is_idle(&writes[1]));
}

#[test]
fn unacked_frames_are_retransmitted() {
    // Polls that never acknowledge: after the retransmit threshold the
    // frame is sent again with the same sequence number.
    let stop = seq_frame(0, 0, Msg::ConnectionStatus);
    let mut driver = Peripheral::new(vec![poll(0, 0, 8), poll(0, 0, 8), poll(0, 0, 8), poll(0, 0, 8), stop]);

    driver.write(Msg::LedState(true)).unwrap();
    let _ = driver.read();

    let data_frames: Vec<_> =
        driver.writes.iter().filter(|w| body(w) == Some(Msg::LedState(true))).collect();
    assert!(
        data_frames.len() >= 2,
        "unacked frame must be retransmitted, saw {} transmissions",
        data_frames.len()
    );
    for frame in &data_frames {
        assert_eq!(frame.ctrl, SEQ_FLAG, "retransmissions reuse the same sequence");
    }
    assert!(driver.counters.retransmits >= 1);
}

#[test]
fn acknowledged_frames_are_not_retransmitted() {
    let stop = seq_frame(0, 1, Msg::ConnectionStatus);
    let mut driver = Peripheral::new(vec![poll(0, 0, 8), poll(0, 1, 8), poll(0, 1, 8), poll(0, 1, 8), stop]);

    driver.write(Msg::LedState(true)).unwrap();
    let _ = driver.read();

    let data_frames = driver.writes.iter().filter(|w| body(w) == Some(Msg::LedState(true))).count();
    assert_eq!(data_frames, 1, "acked frame must not be retransmitted");
}

#[test]
fn receiver_drops_out_of_order_and_duplicate_frames() {
    // seq 1 before seq 0: dropped. Then seq 0 delivered, then a
    // duplicate seq 0 dropped, then seq 1 delivered.
    let f1 = seq_frame(1, 0, Msg::ConnectionStatus);
    let f0 = seq_frame(0, 0, Msg::LedState(true));
    let f0_dup = seq_frame(0, 0, Msg::LedState(true));
    let tail = seq_frame(1, 0, Msg::ConnectionStatus);
    let mut driver = Peripheral::new(vec![f1, f0, f0_dup, tail]);

    assert_eq!(driver.read(), Msg::LedState(true));
    assert_eq!(driver.read(), Msg::ConnectionStatus);
}

#[test]
fn bulk_traffic_respects_peer_credit() {
    // HalfDuplexIdle classifies to the bulk lane, which makes it a
    // convenient stand-in for application traffic.
    assert_eq!(lane_of(MessageKind::HalfDuplexIdle), Lane::Bulk);
    let stop = seq_frame(0, 1, Msg::ConnectionStatus);
    let mut driver = Peripheral::new(vec![poll(0, 0, 0), poll(0, 0, 4), stop]);

    driver.write(Msg::Idle).unwrap();
    let _ = driver.read();

    let writes = &driver.writes;
    // First burst under zero credit: terminator only, nothing sequenced.
    assert_eq!(writes[0].ctrl & SEQ_FLAG, 0, "no bulk data under zero credit");
    assert!(is_idle(&writes[0]));
    // Once credit arrives, the bulk frame goes out sequenced.
    assert!(writes.iter().any(|w| w.ctrl & SEQ_FLAG != 0), "bulk frame flows once credit arrives");
}

#[test]
fn central_write_backpressures_bulk_instead_of_dropping() {
    // Overfill the bulk lane: the ninth write must drive exchanges until
    // space frees rather than refuse (and thereby lose) the message.
    let credit_grant = idle(0, 0, 8);
    let window_ack = idle(0, 4, 8);
    let mut driver = Central::new(vec![vec![reset_echo()], vec![credit_grant], vec![window_ack]]);

    for _ in 0..LANE_CAPACITY {
        driver.write(Msg::Idle);
    }
    driver.write(Msg::Idle);

    let sequenced = driver.writes.iter().filter(|w| w.ctrl & SEQ_FLAG != 0).count();
    assert_eq!(sequenced, 4, "one window of bulk frames reached the wire");
    assert_eq!(
        driver.link.link.bulk.len(),
        LANE_CAPACITY - 4 + 1,
        "the overflow message waited for lane space instead of vanishing"
    );
}

#[test]
fn peripheral_counts_refused_lane_overflow() {
    let mut driver = Peripheral::new(vec![]);
    for _ in 0..LANE_CAPACITY {
        driver.write(Msg::Key).unwrap();
    }

    let before = driver.counters.lane_drops;
    driver.write(Msg::Key).expect_err("a full input lane refuses the write");

    assert_eq!(
        driver.counters.lane_drops - before,
        1,
        "the refusal must be counted — it is the only trace of the loss"
    );
}

/// Reassemble sentinel-delimited frames out of a byte stream.
fn read_frame(buf: &mut FrameBuffer) -> Result<(u8, u8, u8, Vec<u8>), FrameError> {
    match buf.next_frame() {
        FrameStep::Frame(bytes) => decode_frame(&bytes).map(|f| (f.ctrl, f.ack, f.credit, f.payload)),
        FrameStep::NeedMore => panic!("no complete frame buffered"),
        FrameStep::Overflow => panic!("buffer overflowed"),
    }
}

const LED_OFF: [u8; 2] = [4, 0];
const LED_ON: [u8; 2] = [4, 1];

#[test]
fn corrupt_frame_is_dropped_and_stream_resyncs() {
    let mut bad = encode_frame(0, 0, u8::MAX, &LED_OFF);
    let idx = bad.len() / 2;
    // Corrupt one mid-frame byte without creating a spurious sentinel.
    bad[idx] = if bad[idx] == 0xFF { 0xFE } else { 0xFF };
    let mut stream = bad;
    stream.extend_from_slice(&encode_frame(0, 0, u8::MAX, &LED_ON));

    let mut buf = FrameBuffer::new(1024);
    buf.extend(&stream);
    let mut counters = Counters::new();
    add_rx(&mut counters, stream.len());

    let err = read_frame(&mut buf).expect_err("corrupt frame must not decode");
    assert!(matches!(err, FrameError::Crc | FrameError::Cobs));
    bump(&mut counters.frames_bad);

    let msg = read_frame(&mut buf).expect("healthy frame after resync");
    assert_eq!(msg.3, LED_ON.to_vec());
    bump(&mut counters.frames_ok);
    let snap = snapshot(&counters);
    assert_eq!((snap.0, snap.1, snap.2), (stream.len() as u32, 1, 1));
}

#[test]
fn writer_reader_round_trip() {
    let status = [5u8, 1, 0, 2, 1, 0];
    let frames = encode_frame(0, 0, u8::MAX, &status);
    let mut buf = FrameBuffer::new(256);
    buf.extend(&frames);
    let (ctrl, ack, credit, payload) = read_frame(&mut buf).unwrap();
    assert_eq!((ctrl, ack, credit), (0, 0, u8::MAX));
    assert_eq!(payload, status.to_vec());
}

#[test]
fn seq_ordering_wraps() {
    assert!(seq_before(0, 1));
    assert!(seq_before(62, 63));
    assert!(seq_before(63, 0));
    assert!(!seq_before(1, 0));
    assert!(!seq_before(0, 0));
    assert!(!seq_before(0, 40));
}

/// A peripheral with stale sequence state (its peer rebooted) zeroes on
/// a reset poll and the link recovers.
#[test]
fn reset_poll_zeroes_peripheral_state() {
    let mut chunks: Vec<WireFrame<Msg>> = (0..3).map(|i| seq_frame(i, 0, Msg::LedState(true))).collect();
    chunks.push(poll(RESET_FLAG, 0, 8));
    chunks.push(seq_frame(0, 0, Msg::ConnectionStatus));
    let mut driver = Peripheral::new(chunks);

    for _ in 0..3 {
        assert_eq!(driver.read(), Msg::LedState(true));
    }
    assert_eq!(driver.read(), Msg::ConnectionStatus, "post-reset seq 0 accepted");

    let echo = driver.writes.iter().find(|w| w.ctrl & RESET_FLAG != 0).expect("reset echoed");
    assert!(is_idle(echo));
}

#[test]
fn encoded_frames_end_in_the_only_sentinel() {
    let f = encode_frame(0x81, 3, 8, &[0, 0, 1, 0]);
    assert_eq!(*f.last().unwrap(), SENTINEL);
    assert!(f[..f.len() - 1].iter().all(|&b| b != SENTINEL));
    let d = decode_frame(&f[..f.len() - 1]).unwrap();
    assert_eq!((d.ctrl, d.ack, d.credit), (0x81, 3, 8));
    assert_eq!(d.payload, vec![0, 0, 1, 0]);
}

#[test]
fn short_and_invalid_frames_are_refused() {
    // A valid COBS block of two bytes is too short for a CRC.
    assert_eq!(decode_frame(&[3, 1, 2]).err(), Some(FrameError::Truncated));
    // A code byte that points past the end is not COBS.
    assert_eq!(decode_frame(&[9, 1]).err(), Some(FrameError::Cobs));
}

#[test]
fn crc32_matches_the_ieee_check_value() {
    assert_eq!(crc32(b"123456789"), 0xCBF4_3926);
    assert_eq!(crc32(&[]), 0);
}

#[test]
fn sentinel_free_garbage_overflows_the_buffer() {
    let mut buf = FrameBuffer::new(4);
    buf.extend(&[1, 2, 3, 4]);
    assert!(matches!(buf.next_frame(), FrameStep::Overflow));
    assert_eq!(buf.room(), 4);
    buf.extend(&[1, 2]);
    assert!(matches!(buf.next_frame(), FrameStep::NeedMore));
}
