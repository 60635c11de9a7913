use std::collections::VecDeque;

use rmk::shared_flash::{
    erase_pages, erase_reply, erase_result, in_window, plan_request, set_window, ChunkedTransfer, FlashOp,
    FlashOpError, FlashReply, FlashRequest, FlashWindow, CHUNK,
};
use rmk::storage::{CooperativeFlash, ReadResponse, ReadStep, OPERATIONS_PER_YIELD};

/// One read channel: the request queue (capacity one, as in the firmware)
/// and the replies the storage task signals.
struct Channel {
    response: ReadResponse,
    requests: VecDeque<u8>,
}

impl Channel {
    fn new() -> Self {
        Channel { response: ReadResponse::new(), requests: VecDeque::new() }
    }

    fn try_send(&mut self, r: u8) -> bool {
        if self.requests.is_empty() {
            self.requests.push_back(r);
            true
        } else {
            false
        }
    }
}

/// A reader that got as far as sending its request and waits for the reply.
struct Waiting;

/// Start a request: drain an outstanding reply first (returns `None` while
/// the drain waits), then send.
fn start(ch: &mut Channel, request: u8, reply_available: &mut Option<u8>) -> Option<Waiting> {
    if ch.response.begin() == ReadStep::Drain {
        reply_available.take()?;
        ch.response.reply_taken();
    }
    if !ch.try_send(request) {
        return None;
    }
    ch.response.enqueued();
    Some(Waiting)
}

fn finish(ch: &mut Channel, _w: Waiting, reply: u8) -> u8 {
    ch.response.reply_taken();
    reply
}

#[test]
fn concurrent_readers_receive_their_own_replies() {
    let mut ch = Channel::new();
    let mut reply = None;
    // The second reader waits for the channel lock held by the first.
    let first = start(&mut ch, 1, &mut reply).unwrap();
    assert_eq!(ch.requests.pop_front(), Some(1));
    assert!(ch.requests.pop_front().is_none());
    assert_eq!(finish(&mut ch, first, 11), 11);
    let second = start(&mut ch, 2, &mut reply).unwrap();
    assert_eq!(ch.requests.pop_front(), Some(2));
    assert_eq!(finish(&mut ch, second, 22), 22);
}

#[test]
fn cancelled_sent_request_is_drained_before_next_request() {
    let mut ch = Channel::new();
    let mut reply = None;
    let first = start(&mut ch, 1, &mut reply).unwrap();
    assert_eq!(ch.requests.pop_front(), Some(1));
    drop(first);
    // The next reader must first drain the cancelled request's reply.
    assert!(start(&mut ch, 2, &mut reply).is_none());
    assert!(ch.requests.pop_front().is_none());
    reply = Some(11);
    let second = start(&mut ch, 2, &mut reply).unwrap();
    assert_eq!(ch.requests.pop_front(), Some(2));
    assert_eq!(finish(&mut ch, second, 22), 22);
}

#[test]
fn cancelled_enqueue_does_not_leave_a_reply_to_drain() {
    let mut ch = Channel::new();
    let mut reply = None;
    assert!(ch.try_send(99));
    // The queue is full: the first reader cannot send and is cancelled.
    assert!(start(&mut ch, 1, &mut reply).is_none());
    assert_eq!(ch.requests.pop_front(), Some(99));
    assert_eq!(ch.response.begin(), ReadStep::Enqueue);
    let second = start(&mut ch, 2, &mut reply).unwrap();
    assert_eq!(ch.requests.pop_front(), Some(2));
    assert_eq!(finish(&mut ch, second, 22), 22);
}

#[test]
fn cancelled_drain_preserves_the_outstanding_reply() {
    let mut ch = Channel::new();
    let mut reply = None;
    let first = start(&mut ch, 1, &mut reply).unwrap();
    assert_eq!(ch.requests.pop_front(), Some(1));
    drop(first);
    // A second reader starts draining and is cancelled mid-drain.
    assert!(start(&mut ch, 2, &mut reply).is_none());
    assert_eq!(ch.response.begin(), ReadStep::Drain);
    assert!(start(&mut ch, 3, &mut reply).is_none());
    assert!(ch.requests.pop_front().is_none());
    reply = Some(11);
    let third = start(&mut ch, 3, &mut reply).unwrap();
    assert_eq!(ch.requests.pop_front(), Some(3));
    assert_eq!(finish(&mut ch, third, 33), 33);
}

#[test]
fn cooperative_flash_yields_every_bounded_run() {
    let mut flash = CooperativeFlash::new(vec![0u8; 4]);
    let mut yields = Vec::new();
    for i in 0..100 {
        if flash.cooperate() {
            yields.push(i);
        }
        flash.flash()[0] = i as u8;
    }
    let n = OPERATIONS_PER_YIELD as usize;
    assert_eq!(yields, vec![n, 2 * n, 3 * n]);
    assert_eq!(flash.flash()[0], 99);
}

/// The service's side: a flash of `memory` bytes that erases to 0xFF.
struct Service {
    window: FlashWindow,
    memory: Vec<u8>,
    page: u32,
}

impl Service {
    fn handle(&mut self, req: &FlashRequest) -> FlashReply {
        match plan_request(&self.window, req) {
            FlashOp::Refuse => FlashReply::Error,
            FlashOp::Read { addr, len } => {
                let mut data = [0u8; CHUNK];
                data[..len].copy_from_slice(&self.memory[addr as usize..addr as usize + len]);
                FlashReply::Data { data, len: len as u16 }
            }
            FlashOp::Write { addr, len } => {
                if let FlashRequest::Write { data, .. } = req {
                    self.memory[addr as usize..addr as usize + len].copy_from_slice(&data[..len]);
                }
                FlashReply::Done
            }
            FlashOp::Erase { from, to } => {
                for (a, b) in erase_pages(from, to, self.page) {
                    self.memory[a as usize..b as usize].fill(0xFF);
                }
                erase_reply(true)
            }
        }
    }
}

fn write_all(svc: &mut Service, addr: u32, data: &[u8]) -> Result<(), FlashOpError> {
    let mut t = ChunkedTransfer::new(addr, data.len());
    while !t.is_complete() {
        let req = t.next_write(data);
        let reply = svc.handle(&req);
        t.on_write_reply(&reply)?;
    }
    Ok(())
}

fn read_all(svc: &mut Service, addr: u32, len: usize) -> Result<Vec<u8>, FlashOpError> {
    let mut t = ChunkedTransfer::new(addr, len);
    let mut out = Vec::new();
    while !t.is_complete() {
        let req = t.next_read();
        let reply = svc.handle(&req);
        t.on_read_reply(&reply, &mut out)?;
    }
    Ok(out)
}

#[test]
fn chunked_writes_read_back_inside_the_window() {
    let mut svc = Service { window: FlashWindow::new(), memory: vec![0xFF; 4096], page: 1024 };
    set_window(&mut svc.window, 1024, 4096);
    let data: Vec<u8> = (0..700u32).map(|i| (i % 251) as u8).collect();
    write_all(&mut svc, 1100, &data).unwrap();
    assert_eq!(read_all(&mut svc, 1100, data.len()).unwrap(), data);
    // Erasing the pages brings them back to 0xFF.
    let reply = svc.handle(&FlashRequest::Erase { from: 1024, to: 3072 });
    assert_eq!(erase_result(&reply), Ok(()));
    assert!(read_all(&mut svc, 1100, 700).unwrap().iter().all(|&b| b == 0xFF));
}

#[test]
fn requests_outside_the_window_are_refused() {
    let mut svc = Service { window: FlashWindow::new(), memory: vec![0xFF; 4096], page: 1024 };
    // Nothing is allowed before a window is registered.
    assert_eq!(read_all(&mut svc, 0, 10), Err(FlashOpError));
    set_window(&mut svc.window, 1024, 2048);
    assert_eq!(write_all(&mut svc, 2000, &[1u8; 100]), Err(FlashOpError));
    assert_eq!(plan_request(&svc.window, &FlashRequest::Erase { from: 2048, to: 1024 }), FlashOp::Refuse);
    assert_eq!(plan_request(&svc.window, &FlashRequest::Read { addr: 1024, len: 1000 }), FlashOp::Read { addr: 1024, len: CHUNK });
    assert!(!in_window(&svc.window, u32::MAX, 2));
    assert!(in_window(&svc.window, 1024, 1024));
    assert!(!in_window(&svc.window, 1024, 1025));
}

#[test]
fn erases_are_cut_into_pages() {
    assert_eq!(erase_pages(0, 10, 4), vec![(0, 4), (4, 8), (8, 10)]);
    assert_eq!(erase_pages(5, 5, 4), vec![]);
    assert!(matches!(erase_reply(false), FlashReply::Error));
    assert_eq!(erase_result(&FlashReply::Error), Err(FlashOpError));
}

#[test]
fn short_replies_fail_the_read() {
    let mut t = ChunkedTransfer::new(0, 10);
    let mut out = Vec::new();
    let reply = FlashReply::Data { data: [7; CHUNK], len: 9 };
    assert_eq!(t.on_read_reply(&reply, &mut out), Err(FlashOpError));
    assert!(out.is_empty());
    assert_eq!(t.on_read_reply(&FlashReply::Done, &mut out), Err(FlashOpError));
    let reply = FlashReply::Data { data: [7; CHUNK], len: 10 };
    assert_eq!(t.on_read_reply(&reply, &mut out), Ok(()));
    assert_eq!(out, vec![7; 10]);
    assert!(t.is_complete());
}
