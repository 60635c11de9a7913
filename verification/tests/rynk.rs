use rmk::rynk::{
    check_request, check_version, match_response, next_seq, require, Cmd, DeviceCapabilities, FrameReader, Gate,
    ProtocolVersion, ReadStep, ResponseMatch, RynkHeader, RynkHostError, TopicFrame, TopicQueue,
    DEFAULT_EVENT_CAPACITY, RYNK_HEADER_SIZE, TOPIC_PAYLOAD_SIZE,
};
use rmk::rynk_pages::{
    keymap_pos, write_chunks, LayoutRead, PageFault, PagedRead, PinnedRead, SnapshotAttempts, SnapshotStep,
    MAX_LAYOUT_BLOB_LEN, SNAPSHOT_ATTEMPTS,
};
use rmk::rynk_service::{
    bulk_page, bulk_write_start, capability_u16, capability_u8, device_capabilities, take_seq_len, take_u8,
    truncated, BuildConfig, RynkError,
};

const GET_WPM: Cmd = Cmd(0x0010);
const GET_SLEEP_STATE: Cmd = Cmd(0x0011);
const LAYER_CHANGE: Cmd = Cmd(0x8001);
const CURRENT: ProtocolVersion = ProtocolVersion { major: 1, minor: 2 };

fn header(cmd: u16, seq: u8, len: u16) -> Vec<u8> {
    RynkHeader { cmd: Cmd(cmd), seq, payload_len: len }.encode()
}

fn caps() -> DeviceCapabilities {
    DeviceCapabilities { num_cols: 14, max_payload_size: 4096, ..DeviceCapabilities::default() }
}

#[test]
fn stale_seq_reply_dropped() {
    // A reply with another sequence number belongs to an earlier request.
    let stale = RynkHeader { cmd: GET_WPM, seq: 0xEE, payload_len: 2 };
    assert_eq!(match_response(1, GET_WPM, &stale), ResponseMatch::Stale);
    let ours = RynkHeader { cmd: GET_WPM, seq: 1, payload_len: 2 };
    assert_eq!(match_response(1, GET_WPM, &ours), ResponseMatch::Accept);
}

#[test]
fn cmd_mismatch_detected() {
    let h = RynkHeader { cmd: GET_SLEEP_STATE, seq: 1, payload_len: 1 };
    assert_eq!(match_response(1, GET_WPM, &h), ResponseMatch::Mismatch { sent: GET_WPM, got: GET_SLEEP_STATE });
}

#[test]
fn unknown_response_cmd_mismatch_detected() {
    let h = RynkHeader { cmd: Cmd(0x7fff), seq: 1, payload_len: 2 };
    assert_eq!(match_response(1, GET_WPM, &h), ResponseMatch::Mismatch { sent: GET_WPM, got: Cmd(0x7fff) });
}

#[test]
fn topic_cmd_to_request_rejected() {
    let r = check_request(LAYER_CHANGE, true, Some(0), None);
    assert!(matches!(r, Err(RynkHostError::TopicCmd(c)) if c == LAYER_CHANGE));
}

#[test]
fn oversized_request_rejected_locally() {
    let mut tiny = caps();
    tiny.max_payload_size = 4;
    let set_key = Cmd(0x0101);
    assert!(matches!(check_request(set_key, false, Some(6), Some(tiny)), Err(RynkHostError::Encode(c)) if c == set_key));
    assert!(check_request(set_key, false, Some(4), Some(tiny)).is_ok());
    // A payload that did not even fit the frame.
    assert!(matches!(check_request(set_key, false, None, None), Err(RynkHostError::Encode(_))));
}

#[test]
fn capability_gate_rejects_without_wire_send() {
    let c = caps();
    assert!(!c.ble_enabled);
    let get_battery_status = Cmd(0x0301);
    let r = require(&c, Gate::Ble, get_battery_status);
    assert!(matches!(r, Err(RynkHostError::Unsupported(cmd, _)) if cmd == get_battery_status));
}

#[test]
fn bulk_methods_gate_without_wire_send() {
    let c = caps();
    assert!(!c.bulk_transfer_supported);
    for raw in [0x0401u16, 0x0402, 0x0403, 0x0404, 0x0405, 0x0406] {
        assert!(matches!(require(&c, Gate::BulkTransfer, Cmd(raw)), Err(RynkHostError::Unsupported(cmd, _)) if cmd == Cmd(raw)));
    }
    let mut supported = caps();
    supported.bulk_transfer_supported = true;
    assert!(require(&supported, Gate::BulkTransfer, Cmd(0x0401)).is_ok());
}

#[test]
fn wired_split_peripheral_status_is_supported() {
    let mut c = caps();
    c.is_split = true;
    c.ble_enabled = false;
    assert!(require(&c, Gate::Split, Cmd(0x0501)).is_ok());
}

#[test]
fn connect_rejects_newer_major() {
    let newer = ProtocolVersion { major: CURRENT.major + 1, minor: 0 };
    let err = check_version(newer, CURRENT).err().expect("connect must fail");
    assert!(matches!(err, RynkHostError::VersionMismatch { .. }));
}

#[test]
fn connect_accepts_newer_minor() {
    // Minor version is informational within the same major.
    let newer = ProtocolVersion { major: CURRENT.major, minor: CURRENT.minor + 1 };
    assert_eq!(check_version(newer, CURRENT).expect("same-major newer-minor must connect"), true);
    assert_eq!(check_version(CURRENT, CURRENT).unwrap(), false);
}

#[test]
fn topic_queue_overflow_drops_oldest() {
    // 65 topics into a 64-slot queue: the first is evicted, the rest arrive.
    let mut q = TopicQueue::new(DEFAULT_EVENT_CAPACITY);
    for i in 0u8..=64 {
        q.queue_topic(TopicFrame::new(LAYER_CHANGE, &[i]).unwrap());
    }
    let first = q.pop().unwrap();
    assert_eq!(first.payload(), &[1], "oldest topic evicted");
    assert_eq!(q.events_dropped(), 1);
}

#[test]
fn oversized_inbound_topic_is_not_fatal() {
    // 300 bytes overflows the topic slot; the link must stay healthy.
    let big = vec![0xAB; 300];
    let err = TopicFrame::new(Cmd(0x80ff), &big).err().unwrap();
    assert!(matches!(err, RynkHostError::FrameTooLarge { len: 300, max: TOPIC_PAYLOAD_SIZE }));
    let mut q = TopicQueue::new(4);
    q.record_dropped_topic();
    assert_eq!(q.events_dropped(), 1);
    assert!(q.pop().is_none());
}

#[test]
fn unknown_cmd_drained_by_len() {
    // An unknown command's frame is framed by its declared length, so the
    // reply after it is read intact.
    let mut stream = header(0x7fff, 0xEE, 5);
    stream.extend_from_slice(&[1, 2, 3, 4, 5]);
    stream.extend_from_slice(&header(GET_WPM.0, 1, 1));
    stream.push(42);
    let mut reader = FrameReader::new(128);
    reader.append(&stream);
    match reader.take_frame() {
        ReadStep::Frame(f) => assert_eq!(f.len(), RYNK_HEADER_SIZE + 5),
        _ => panic!("expected a frame"),
    }
    match reader.take_frame() {
        ReadStep::Frame(f) => {
            let h = RynkHeader::parse(&f);
            assert_eq!(h, RynkHeader { cmd: GET_WPM, seq: 1, payload_len: 1 });
            assert_eq!(f[RYNK_HEADER_SIZE], 42);
        }
        _ => panic!("expected a frame"),
    }
    assert!(matches!(reader.take_frame(), ReadStep::NeedMore));
}

#[test]
fn frames_larger_than_the_reader_are_reported() {
    let mut reader = FrameReader::new(64);
    reader.append(&header(1, 1, 59));
    assert!(matches!(reader.take_frame(), ReadStep::NeedMore));
    let mut reader = FrameReader::new(64);
    reader.append(&header(1, 1, 60));
    assert!(matches!(reader.take_frame(), ReadStep::TooLarge { len: 65, max: 64 }));
    assert_eq!(reader.room(), 64 - RYNK_HEADER_SIZE);
}

#[test]
fn header_round_trips() {
    let h = RynkHeader { cmd: Cmd(0xA1B2), seq: 7, payload_len: 0x0304 };
    let bytes = h.encode();
    assert_eq!(bytes, vec![0xB2, 0xA1, 7, 0x04, 0x03]);
    assert_eq!(RynkHeader::parse(&bytes), h);
    assert_eq!(h.frame_len(), RYNK_HEADER_SIZE + 0x0304);
}

#[test]
fn sequence_numbers_skip_zero() {
    assert_eq!(next_seq(1), 2);
    assert_eq!(next_seq(255), 1);
}

#[test]
fn read_all_keymap_concatenates_pages() {
    // Ten keys at four per page yields 4, 4, then 2.
    let mut read = PagedRead::new(10);
    let mut fetched = 0;
    while let Some(cursor) = read.next_cursor() {
        let n = std::cmp::min(4, 10 - cursor);
        read.on_page((cursor..cursor + n).collect::<Vec<u16>>());
        fetched += 1;
    }
    assert_eq!(read.finish(), (0u16..10).collect::<Vec<u16>>());
    assert_eq!(fetched, 3, "the pager stopped after three fetches");
}

#[test]
fn read_all_stops_on_clamped_empty_page() {
    let mut read = PagedRead::new(10);
    let pages = vec![vec![0u16, 1, 2, 3], vec![]];
    let mut pages = pages.into_iter();
    while read.next_cursor().is_some() {
        read.on_page(pages.next().expect("the empty page halted the loop"));
    }
    assert_eq!(read.finish().len(), 4);
}

#[test]
fn write_all_keymap_chunks_by_page_size() {
    // Five actions at two per page should send 2, 2, then 1.
    assert_eq!(write_chunks(5, 2), vec![(0, 0, 2), (2, 2, 4), (4, 4, 5)]);
    assert_eq!(write_chunks(0, 2), vec![]);
    // A zero page size still makes progress, one item at a time.
    assert_eq!(write_chunks(2, 0), vec![(0, 0, 1), (1, 1, 2)]);
}

#[test]
fn keymap_cursor_walks_layers_rows_and_columns() {
    assert_eq!(keymap_pos(0, 1, 10), (0, 0, 0));
    assert_eq!(keymap_pos(9, 1, 10), (0, 0, 9));
    assert_eq!(keymap_pos(23, 2, 5), (2, 0, 3));
    assert_eq!(keymap_pos(17, 2, 5), (1, 1, 2));
}

#[test]
fn pinned_reads_refuse_a_changed_revision() {
    let mut read: PinnedRead<u8> = PinnedRead::new(7, 5, Some(3));
    assert_eq!(read.next_offset(), Some(0));
    assert_eq!(read.on_page(7, 5, vec![1, 2, 3]), Ok(()));
    assert_eq!(read.next_offset(), Some(3));
    assert_eq!(read.on_page(8, 5, vec![4, 5]), Err(PageFault::RevisionMismatch));
    assert_eq!(read.on_page(7, 5, vec![4, 5]), Ok(()));
    assert_eq!(read.next_offset(), None);
    assert_eq!(read.finish(), Ok((7, vec![1, 2, 3, 4, 5])));
}

#[test]
fn pinned_reads_need_every_item() {
    let mut read: PinnedRead<u8> = PinnedRead::new(1, 4, Some(2));
    assert_eq!(read.on_page(1, 4, vec![1, 2, 3]), Err(PageFault::BadPage));
    assert_eq!(read.on_page(1, 4, vec![1]), Ok(()));
    assert_eq!(read.finish(), Err(PageFault::Short));
    let mut empty: PinnedRead<u8> = PinnedRead::new(1, 0, None);
    assert_eq!(empty.next_offset(), Some(0));
    assert_eq!(empty.on_page(1, 0, vec![9]), Err(PageFault::UnexpectedItems));
    assert_eq!(empty.on_page(1, 0, vec![]), Ok(()));
    assert_eq!(empty.next_offset(), None);
    assert_eq!(empty.finish(), Ok((1, vec![])));
}

#[test]
fn layout_blob_pages_in_by_offset() {
    assert_eq!(LayoutRead::start(MAX_LAYOUT_BLOB_LEN as u32 + 1, vec![1]).err(), Some(MAX_LAYOUT_BLOB_LEN + 1));
    let mut read = LayoutRead::start(5, vec![1, 2]).ok().unwrap();
    assert_eq!(read.next_offset(), Some(2));
    read.on_chunk(vec![3, 4, 5, 6]);
    assert_eq!(read.next_offset(), None);
    assert_eq!(read.finish(), vec![1, 2, 3, 4, 5]);
    let mut stalled = LayoutRead::start(5, vec![1]).ok().unwrap();
    stalled.on_chunk(vec![]);
    assert_eq!(stalled.next_offset(), None);
    assert_eq!(stalled.finish(), vec![1]);
}

fn build() -> BuildConfig {
    BuildConfig {
        rows: 5,
        cols: 14,
        num_layers: 4,
        num_encoders: 1,
        combo_max_num: 8,
        combo_max_length: 4,
        macro_space_size: 256,
        morse_max_num: 8,
        max_patterns_per_key: 8,
        fork_max_num: 8,
        storage: true,
        split: false,
        split_peripherals_num: 0,
        ble: true,
        num_ble_profile: 3,
        buffer_size: 512,
        macro_data_size: 64,
        bulk: true,
        bulk_keymap_size: 32,
        bulk_size: 4,
    }
}

#[test]
fn capability_report_of_a_build() {
    let d = device_capabilities(&build()).unwrap();
    assert_eq!((d.num_rows, d.num_cols, d.num_layers), (5, 14, 4));
    assert_eq!(d.max_payload_size, 512 - RYNK_HEADER_SIZE as u16);
    assert_eq!((d.max_bulk_keys, d.max_bulk_configs), (32, 4));
    assert!(d.storage_enabled && d.ble_enabled && !d.lighting_enabled);
    let no_bulk = device_capabilities(&BuildConfig { bulk: false, ..build() }).unwrap();
    assert_eq!((no_bulk.max_bulk_keys, no_bulk.max_bulk_configs), (0, 0));
    assert_eq!(device_capabilities(&BuildConfig { cols: 300, ..build() }), Err(RynkError::Invalid));
    assert_eq!(device_capabilities(&BuildConfig { buffer_size: 4, ..build() }), Err(RynkError::Invalid));
    assert_eq!(capability_u8(255), Ok(255));
    assert_eq!(capability_u8(256), Err(RynkError::Invalid));
    assert_eq!(capability_u16(65536), Err(RynkError::Invalid));
}

#[test]
fn identity_strings_cut_at_character_boundaries() {
    assert_eq!(truncated("keyboard", 4), b"keyb".to_vec());
    assert_eq!(truncated("aé", 2), b"a".to_vec());
    assert_eq!(truncated("aé", 3), "aé".as_bytes().to_vec());
}

#[test]
fn bulk_ranges_are_clamped_and_validated() {
    assert_eq!(bulk_page(8, 4, 10), (8, 10));
    assert_eq!(bulk_page(2, 4, 10), (2, 6));
    assert_eq!(bulk_page(12, 4, 10), (12, 10));
    assert_eq!(bulk_write_start(6, 4, 10), Ok(6));
    assert_eq!(bulk_write_start(7, 4, 10), Err(RynkError::Invalid));
    assert_eq!(bulk_write_start(0, 0, 10), Err(RynkError::Invalid));
}

#[test]
fn bulk_payload_prefixes_decode_as_postcard_does() {
    assert_eq!(take_seq_len(&[3, 9, 9]), Ok((3, 1)));
    assert_eq!(take_seq_len(&[0x80, 0x01]), Ok((128, 2)));
    assert_eq!(take_seq_len(&[0xFF, 0xFF, 0x03]), Ok((65535, 3)));
    assert_eq!(take_seq_len(&[0xFF, 0xFF, 0x04]), Err(RynkError::Malformed));
    assert_eq!(take_seq_len(&[0x80]), Err(RynkError::Malformed));
    assert_eq!(take_seq_len(&[]), Err(RynkError::Malformed));
    assert_eq!(take_u8(&[7, 1]), Ok(7));
    assert_eq!(take_u8(&[]), Err(RynkError::Malformed));
}

#[test]
fn pinned_snapshot_restarts_on_conflict_at_most_four_times() {
    let mut attempts = SnapshotAttempts::new();
    assert_eq!(attempts.on_page_outcome(false), SnapshotStep::Continue);
    for _ in 1..SNAPSHOT_ATTEMPTS {
        assert_eq!(attempts.on_page_outcome(true), SnapshotStep::Restart);
        assert_eq!(attempts.on_page_outcome(false), SnapshotStep::Continue);
    }
    assert_eq!(attempts.on_page_outcome(true), SnapshotStep::GiveUp);
    assert_eq!(attempts.on_page_outcome(true), SnapshotStep::GiveUp);
}
