//! Shared access to the flash driver for an application partition.
//!
//! A service task executes bounded application requests against the shared
//! driver, one chunk or one erase page per lock acquisition, and refuses to
//! touch flash outside the window the application registered. This module
//! holds the service's decisions (which requests it runs, and how an erase is
//! cut into pages) and the single client's chunking of reads and writes.
use vstd::prelude::*;

verus! {

/// Bytes moved per request.
pub const CHUNK: usize = 256;

/// One bounded flash request from the application.
#[derive(Clone, Copy)]
pub enum FlashRequest {
    /// Read `len <= CHUNK` bytes at `addr`.
    Read { addr: u32, len: u16 },
    /// Program `len <= CHUNK` bytes at `addr`.
    Write { addr: u32, len: u16, data: [u8; CHUNK] },
    /// Erase `from..to` (erase-page aligned), one page at a time.
    Erase { from: u32, to: u32 },
}

/// The service's answer to one [`FlashRequest`].
#[derive(Clone, Copy)]
pub enum FlashReply {
    Data { data: [u8; CHUNK], len: u16 },
    Done,
    /// Driver error or window violation.
    Error,
}

/// Application-side error: the service reported a failure or a protocol hiccup.
#[derive(Copy, Clone, PartialEq, Eq, Debug, Structural)]
pub struct FlashOpError;

/// The only address range (absolute flash addresses) the service touches.
/// Nothing is allowed until it is set.
#[derive(Copy, Clone, PartialEq, Eq, Debug, Structural)]
pub struct FlashWindow {
    pub start: u32,
    pub end: u32,
}

impl FlashWindow {
    /// The empty window, which allows nothing.
    pub fn new() -> (r: Self)
        ensures
            r.start == 0 && r.end == 0,
    {
        FlashWindow { start: 0, end: 0 }
    }
}

/// Register the only address range the service will touch.
pub fn set_window(window: &mut FlashWindow, start: u32, end: u32)
    ensures
        *final(window) == (FlashWindow { start, end }),
{
    window.start = start;
    window.end = end;
}

/// `start..start + len` lies in a non-empty window (and does not wrap).
pub open spec fn spec_in_window(w: FlashWindow, start: u32, len: u32) -> bool {
    &&& start + len <= u32::MAX
    &&& w.start < w.end
    &&& start >= w.start
    &&& start + len <= w.end
}

/// Whether `start..start + len` lies inside the registered window.
pub fn in_window(w: &FlashWindow, start: u32, len: u32) -> (r: bool)
    ensures
        r == spec_in_window(*w, start, len),
{
    let end = match start.checked_add(len) {
        Some(end) => end,
        None => {
            return false;
        },
    };
    w.start < w.end && start >= w.start && end <= w.end
}

/// What the service does with one request.
#[derive(Copy, Clone, PartialEq, Eq, Debug, Structural)]
pub enum FlashOp {
    /// Outside the window: answer with an error, touch nothing.
    Refuse,
    Read { addr: u32, len: usize },
    Write { addr: u32, len: usize },
    Erase { from: u32, to: u32 },
}

pub open spec fn clamp_chunk(len: u16) -> usize {
    if len as usize <= CHUNK { len as usize } else { CHUNK }
}

pub open spec fn spec_plan_request(w: FlashWindow, req: FlashRequest) -> FlashOp {
    match req {
        FlashRequest::Read { addr, len } => {
            let n = clamp_chunk(len);
            if spec_in_window(w, addr, n as u32) { FlashOp::Read { addr, len: n } } else { FlashOp::Refuse }
        },
        FlashRequest::Write { addr, len, data: _ } => {
            let n = clamp_chunk(len);
            if spec_in_window(w, addr, n as u32) { FlashOp::Write { addr, len: n } } else { FlashOp::Refuse }
        },
        FlashRequest::Erase { from, to } => {
            if to < from || !spec_in_window(w, from, (to - from) as u32) {
                FlashOp::Refuse
            } else {
                FlashOp::Erase { from, to }
            }
        },
    }
}

/// Decide a request: lengths are clamped to one chunk and every range must
/// lie inside the window.
pub fn plan_request(w: &FlashWindow, req: &FlashRequest) -> (r: FlashOp)
    ensures
        r == spec_plan_request(*w, *req),
        r matches FlashOp::Read { len, .. } ==> len <= CHUNK,
        r matches FlashOp::Write { len, .. } ==> len <= CHUNK,
{
    match req {
        FlashRequest::Read { addr, len } => {
            let n = if (*len as usize) <= CHUNK { *len as usize } else { CHUNK };
            if in_window(w, *addr, n as u32) {
                FlashOp::Read { addr: *addr, len: n }
            } else {
                FlashOp::Refuse
            }
        },
        FlashRequest::Write { addr, len, data: _ } => {
            let n = if (*len as usize) <= CHUNK { *len as usize } else { CHUNK };
            if in_window(w, *addr, n as u32) {
                FlashOp::Write { addr: *addr, len: n }
            } else {
                FlashOp::Refuse
            }
        },
        FlashRequest::Erase { from, to } => {
            if *to < *from || !in_window(w, *from, *to - *from) {
                FlashOp::Refuse
            } else {
                FlashOp::Erase { from: *from, to: *to }
            }
        },
    }
}

/// The service touches flash only inside the registered window: every
/// planned read, write or erase lies in it, and a chunk never exceeds
/// [`CHUNK`] bytes.
pub proof fn lemma_planned_ops_in_window(w: FlashWindow, req: FlashRequest)
    ensures
        spec_plan_request(w, req) matches FlashOp::Read { addr, len } ==> spec_in_window(w, addr, len as u32) && len <= CHUNK,
        spec_plan_request(w, req) matches FlashOp::Write { addr, len } ==> spec_in_window(w, addr, len as u32) && len <= CHUNK,
        spec_plan_request(w, req) matches FlashOp::Erase { from, to } ==> from <= to && spec_in_window(w, from, (to - from) as u32),
{
}

/// A request is served exactly when its whole address range lies inside a
/// non-empty window, and refused otherwise: an erase of `from..to` runs as
/// asked when `w.start <= from <= to <= w.end`; a read or write at `addr`
/// runs for `min(len, CHUNK)` bytes when those bytes fit in the window.
pub proof fn lemma_requests_served_inside_window(w: FlashWindow, req: FlashRequest)
    ensures
        req matches FlashRequest::Erase { from, to } ==> spec_plan_request(w, req) == if w.start < w.end
            && w.start <= from && from <= to && to <= w.end {
            FlashOp::Erase { from, to }
        } else {
            FlashOp::Refuse
        },
        req matches FlashRequest::Read { addr, len } ==> ({
            let n: int = if len <= CHUNK { len as int } else { CHUNK as int };
            spec_plan_request(w, req) == if w.start < w.end && w.start <= addr && addr + n <= w.end {
                FlashOp::Read { addr, len: n as usize }
            } else {
                FlashOp::Refuse
            }
        }),
        req matches FlashRequest::Write { addr, len, .. } ==> ({
            let n: int = if len <= CHUNK { len as int } else { CHUNK as int };
            spec_plan_request(w, req) == if w.start < w.end && w.start <= addr && addr + n <= w.end {
                FlashOp::Write { addr, len: n as usize }
            } else {
                FlashOp::Refuse
            }
        }),
{
}

/// End of the erase page that starts at `at`, cut at `to`.
pub open spec fn page_end(at: u32, to: u32, page: u32) -> u32 {
    if to - at <= page { to } else { (at + page) as u32 }
}

/// The page ranges an erase of `at..to` runs, in order.
pub open spec fn spec_erase_pages(at: u32, to: u32, page: u32) -> Seq<(u32, u32)>
    decreases to - at,
{
    if at >= to || page == 0 {
        Seq::empty()
    } else {
        seq![(at, page_end(at, to, page))] + spec_erase_pages(page_end(at, to, page), to, page)
    }
}

/// Cut an erase of `from..to` into page-sized steps, so other flash users
/// can interleave between pages.
pub fn erase_pages(from: u32, to: u32, page: u32) -> (r: Vec<(u32, u32)>)
    requires
        page > 0,
    ensures
        r@ == spec_erase_pages(from, to, page),
{
    let mut out: Vec<(u32, u32)> = Vec::new();
    let mut at = from;
    while at < to
        invariant
            page > 0,
            out@ + spec_erase_pages(at, to, page) == spec_erase_pages(from, to, page),
        decreases to - at,
    {
        let end = if to - at <= page { to } else { at + page };
        let ghost before = out@;
        out.push((at, end));
        assert(spec_erase_pages(at, to, page) == seq![(at, end)] + spec_erase_pages(end, to, page));
        assert(before + spec_erase_pages(at, to, page) =~= out@ + spec_erase_pages(end, to, page));
        at = end;
    }
    assert(out@ + spec_erase_pages(at, to, page) =~= out@);
    out
}

/// The pages of an erase tile its range exactly: each page starts where the
/// previous one ended, holds at most `page` bytes, and the last ends at `to`.
pub proof fn lemma_erase_pages_tile(at: u32, to: u32, page: u32)
    requires
        page > 0,
        at < to,
    ensures
        ({
            let p = spec_erase_pages(at, to, page);
            &&& p.len() > 0
            &&& p[0].0 == at
            &&& p.last().1 == to
            &&& forall|i: int| 0 <= i < p.len() ==> #[trigger] p[i].0 < p[i].1 && p[i].1 - p[i].0 <= page
            &&& forall|i: int| 0 <= i < p.len() - 1 ==> #[trigger] p[i].1 == p[i + 1].0
        }),
    decreases to - at,
{
    let end = page_end(at, to, page);
    let p = spec_erase_pages(at, to, page);
    let rest = spec_erase_pages(end, to, page);
    assert(p == seq![(at, end)] + rest);
    if end < to {
        lemma_erase_pages_tile(end, to, page);
        assert forall|i: int| 0 <= i < p.len() implies #[trigger] p[i].0 < p[i].1 && p[i].1 - p[i].0 <= page by {
            if i > 0 {
                assert(p[i] == rest[i - 1]);
            }
        }
        assert forall|i: int| 0 <= i < p.len() - 1 implies #[trigger] p[i].1 == p[i + 1].0 by {
            assert(p[i + 1] == rest[i]);
            if i > 0 {
                assert(p[i] == rest[i - 1]);
            }
        }
        assert(p.last() == rest.last());
    } else {
        assert(rest =~= Seq::<(u32, u32)>::empty());
        assert(p =~= seq![(at, end)]);
    }
}

/// The reply to an erase: done when every page erased, an error when a page
/// failed (the erase stops there).
pub fn erase_reply(all_pages_ok: bool) -> (r: FlashReply)
    ensures
        all_pages_ok ==> r is Done,
        !all_pages_ok ==> r is Error,
{
    if all_pages_ok { FlashReply::Done } else { FlashReply::Error }
}

/// The client's side of one chunked transfer of `total` bytes at `addr`.
#[derive(Copy, Clone, PartialEq, Eq, Debug, Structural)]
pub struct ChunkedTransfer {
    pub addr: u32,
    pub total: usize,
    pub done: usize,
}

pub open spec fn chunk_len(total: usize, done: usize) -> usize {
    if (total - done) as usize <= CHUNK { (total - done) as usize } else { CHUNK }
}

impl ChunkedTransfer {
    pub open spec fn wf(self) -> bool {
        &&& self.done <= self.total
        &&& self.addr + self.total <= u32::MAX + 1
    }

    /// A transfer of `total` bytes at `addr`, nothing moved yet.
    pub fn new(addr: u32, total: usize) -> (r: Self)
        requires
            addr + total <= u32::MAX + 1,
        ensures
            r == (ChunkedTransfer { addr, total, done: 0 }),
            r.wf(),
    {
        ChunkedTransfer { addr, total, done: 0 }
    }

    /// Every byte has moved.
    pub fn is_complete(&self) -> (r: bool)
        ensures
            r == (self.done >= self.total),
    {
        self.done >= self.total
    }

    /// The next read request: the next chunk, at most [`CHUNK`] bytes.
    pub fn next_read(&self) -> (r: FlashRequest)
        requires
            self.wf(),
            self.done < self.total,
        ensures
            r == (FlashRequest::Read {
                addr: (self.addr + self.done) as u32,
                len: chunk_len(self.total, self.done) as u16,
            }),
    {
        let want = if self.total - self.done <= CHUNK { self.total - self.done } else { CHUNK };
        FlashRequest::Read { addr: self.addr + self.done as u32, len: want as u16 }
    }

    /// Take a read reply: data of exactly the requested length is appended
    /// to `out` and the transfer advances; anything else fails the read.
    pub fn on_read_reply(&mut self, reply: &FlashReply, out: &mut Vec<u8>) -> (r: Result<(), FlashOpError>)
        requires
            old(self).wf(),
            old(self).done < old(self).total,
        ensures
            final(self).wf(),
            (match *reply {
                FlashReply::Data { data, len } => len as usize == chunk_len(old(self).total, old(self).done),
                _ => false,
            }) <==> r is Ok,
            r is Ok ==> final(self).done == old(self).done + chunk_len(old(self).total, old(self).done)
                && final(self).addr == old(self).addr && final(self).total == old(self).total
                && final(out)@ == old(out)@ + (match *reply {
                    FlashReply::Data { data, len } => data@.take(len as int),
                    _ => Seq::empty(),
                }),
            r is Err ==> *final(self) == *old(self) && final(out)@ == old(out)@,
    {
        let want = if self.total - self.done <= CHUNK { self.total - self.done } else { CHUNK };
        match reply {
            FlashReply::Data { data, len } => {
                if *len as usize != want {
                    return Err(FlashOpError);
                }
                let mut i: usize = 0;
                let ghost start = out@;
                while i < want
                    invariant
                        want <= CHUNK,
                        i <= want,
                        out@ == start + data@.take(i as int),
                    decreases want - i,
                {
                    out.push(data[i]);
                    assert(out@ =~= start + data@.take(i + 1));
                    i = i + 1;
                }
                self.done = self.done + want;
                Ok(())
            },
            _ => Err(FlashOpError),
        }
    }

    /// The next write request: the next chunk of `data`, zero-padded.
    pub fn next_write(&self, data: &[u8]) -> (r: FlashRequest)
        requires
            self.wf(),
            self.done < self.total,
            data@.len() == self.total,
        ensures
            (match r {
                FlashRequest::Write { addr, len, data: chunk } => {
                    &&& addr == self.addr + self.done
                    &&& len == chunk_len(self.total, self.done)
                    &&& chunk@.take(len as int) == data@.subrange(self.done as int, self.done + len)
                    &&& forall|i: int| len <= i < CHUNK ==> chunk@[i] == 0
                },
                _ => false,
            }),
    {
        let want = if self.total - self.done <= CHUNK { self.total - self.done } else { CHUNK };
        let mut chunk = [0u8; CHUNK];
        let mut i: usize = 0;
        while i < want
            invariant
                want <= CHUNK,
                self.done + want <= self.total,
                data@.len() == self.total,
                i <= want,
                chunk@.len() == CHUNK,
                forall|j: int| 0 <= j < i ==> chunk@[j] == data@[self.done + j],
                forall|j: int| i <= j < CHUNK ==> chunk@[j] == 0,
            decreases want - i,
        {
            chunk[i] = data[self.done + i];
            i = i + 1;
        }
        assert(chunk@.take(want as int) =~= data@.subrange(self.done as int, self.done + want));
        FlashRequest::Write { addr: self.addr + self.done as u32, len: want as u16, data: chunk }
    }

    /// Take a write reply: `Done` advances by the chunk just sent, anything
    /// else fails the write.
    pub fn on_write_reply(&mut self, reply: &FlashReply) -> (r: Result<(), FlashOpError>)
        requires
            old(self).wf(),
            old(self).done < old(self).total,
        ensures
            final(self).wf(),
            r is Ok <==> *reply is Done,
            r is Ok ==> *final(self) == (ChunkedTransfer {
                done: (old(self).done + chunk_len(old(self).total, old(self).done)) as usize,
                ..*old(self)
            }),
            r is Err ==> *final(self) == *old(self),
    {
        let want = if self.total - self.done <= CHUNK { self.total - self.done } else { CHUNK };
        match reply {
            FlashReply::Done => {
                self.done = self.done + want;
                Ok(())
            },
            _ => Err(FlashOpError),
        }
    }
}

/// The outcome of an erase request as the client sees it.
pub fn erase_result(reply: &FlashReply) -> (r: Result<(), FlashOpError>)
    ensures
        r is Ok <==> *reply is Done,
{
    match reply {
        FlashReply::Done => Ok(()),
        _ => Err(FlashOpError),
    }
}

} // verus!
