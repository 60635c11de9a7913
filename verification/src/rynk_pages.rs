//! Paging of whole resources over the Rynk protocol: the client reads a
//! keymap, combo table or lighting table page by page and writes them back
//! in bounded chunks. Each reader here decides, page by page, whether to ask
//! for more, stop, or reject the device's answer.
use vstd::prelude::*;

verus! {

/// Attempts a snapshot read makes before a state conflict is final.
pub const SNAPSHOT_ATTEMPTS: usize = 4;
/// Longest physical-layout blob the client accepts.
pub const MAX_LAYOUT_BLOB_LEN: usize = 64 * 1024;

/// The `(layer, row, col)` address of a flat, row-major, layer-major key
/// cursor, each component truncated to a byte.
pub open spec fn spec_keymap_pos(cursor: u16, rows: u16, cols: u16) -> (u8, u8, u8) {
    (
        (cursor / (rows * cols) as u16) as u8,
        ((cursor / cols) % rows) as u8,
        (cursor % cols) as u8,
    )
}

/// Map a flat key cursor to its `(layer, row, col)` for a `rows`×`cols` keymap.
pub fn keymap_pos(cursor: u16, rows: u16, cols: u16) -> (r: (u8, u8, u8))
    requires
        rows > 0,
        cols > 0,
        rows * cols <= u16::MAX,
    ensures
        r == spec_keymap_pos(cursor, rows, cols),
{
    assert(rows * cols > 0) by (nonlinear_arith)
        requires
            rows > 0,
            cols > 0,
    ;
    let layer = cursor / (rows * cols);
    let row = (cursor / cols) % rows;
    let col = cursor % cols;
    (layer as u8, row as u8, col as u8)
}

/// The address names the cursor back: `(layer * rows + row) * cols + col`.
pub proof fn lemma_keymap_pos_inverse(cursor: u16, rows: u16, cols: u16)
    requires
        rows > 0,
        cols > 0,
        rows <= u8::MAX,
        cols <= u8::MAX,
        rows * cols <= u16::MAX,
        (cursor as int) / (rows * cols) < 256,
    ensures
        ({
            let (layer, row, col) = spec_keymap_pos(cursor, rows, cols);
            (layer * rows + row) * cols + col == cursor
        }),
{
    let n = cursor as int;
    let r = rows as int;
    let c = cols as int;
    assert(r * c > 0) by (nonlinear_arith)
        requires
            r > 0,
            c > 0,
    ;
    let q = n / c;
    assert(n == q * c + n % c) by (nonlinear_arith)
        requires
            c > 0,
            q == n / c,
    ;
    assert(q / r == n / (r * c)) by {
        vstd::arithmetic::div_mod::lemma_div_denominator(n, c, r);
        vstd::arithmetic::mul::lemma_mul_is_commutative(c, r);
    }
    assert(q == (q / r) * r + q % r) by (nonlinear_arith)
        requires
            r > 0,
    ;
    assert((n / (r * c)) < 256);
    assert(((q / r) * r + q % r) * c + n % c == n) by (nonlinear_arith)
        requires
            n == q * c + n % c,
            q == (q / r) * r + q % r,
    ;
    assert(0 <= q % r < r);
    assert(0 <= n % c < c);
    let (layer, row, col) = spec_keymap_pos(cursor, rows, cols);
    assert(((rows * cols) as u16) as int == r * c);
    assert(layer as int == n / (r * c));
    assert(row as int == q % r);
    assert(col as int == n % c);
}

/// A whole resource being paged in: fetch from cursor 0 until `total` items
/// are read or an empty page marks the device's clamped end.
pub struct PagedRead<T> {
    total: usize,
    start: u16,
    out: Vec<T>,
    ended: bool,
}

impl<T> PagedRead<T> {
    pub closed spec fn spec_total(&self) -> usize {
        self.total
    }

    pub closed spec fn spec_start(&self) -> u16 {
        self.start
    }

    pub closed spec fn spec_items(&self) -> Seq<T> {
        self.out@
    }

    pub closed spec fn spec_ended(&self) -> bool {
        self.ended
    }

    /// A read of `total` items, nothing fetched yet.
    pub fn new(total: usize) -> (r: Self)
        ensures
            r.spec_total() == total,
            r.spec_start() == 0,
            r.spec_items() == Seq::<T>::empty(),
            !r.spec_ended(),
    {
        PagedRead { total, start: 0, out: Vec::new(), ended: false }
    }

    /// The cursor of the next page, or `None` when the read is finished.
    pub fn next_cursor(&self) -> (r: Option<u16>)
        ensures
            r == if self.spec_ended() || self.spec_start() as usize >= self.spec_total() {
                None
            } else {
                Some(self.spec_start())
            },
    {
        if self.ended || self.start as usize >= self.total {
            None
        } else {
            Some(self.start)
        }
    }

    /// Take a page: an empty one ends the read, any other is appended and
    /// moves the cursor past it.
    pub fn on_page(&mut self, page: Vec<T>)
        requires
            old(self).spec_start() + page@.len() <= u16::MAX,
        ensures
            final(self).spec_total() == old(self).spec_total(),
            page@.len() == 0 ==> final(self).spec_ended() && final(self).spec_start() == old(self).spec_start()
                && final(self).spec_items() == old(self).spec_items(),
            page@.len() > 0 ==> final(self).spec_ended() == old(self).spec_ended()
                && final(self).spec_start() == old(self).spec_start() + page@.len()
                && final(self).spec_items() == old(self).spec_items() + page@,
    {
        if page.len() == 0 {
            self.ended = true;
            return;
        }
        self.start = self.start + page.len() as u16;
        let mut page = page;
        self.out.append(&mut page);
    }

    /// Every item read, in order.
    pub fn finish(self) -> (r: Vec<T>)
        ensures
            r@ == self.spec_items(),
    {
        self.out
    }
}

/// The chunks a write of `n` items in pages of `size` sends, from item
/// `from` on: `(cursor, first item, end item)` each.
pub open spec fn spec_chunks(from: nat, n: nat, size: nat) -> Seq<(u16, usize, usize)>
    decreases n - from,
{
    if from >= n || size == 0 {
        Seq::empty()
    } else {
        let end: nat = if n - from <= size { n } else { from + size };
        seq![(from as u16, from as usize, end as usize)] + spec_chunks(end, n, size)
    }
}

/// Cut `n` items into pages of `page` (at least one) items, each written at
/// its flat cursor.
pub fn write_chunks(n: usize, page: usize) -> (r: Vec<(u16, usize, usize)>)
    requires
        n <= u16::MAX,
    ensures
        r@ == spec_chunks(0, n as nat, if page == 0 { 1 } else { page as nat }),
{
    let size: usize = if page == 0 { 1 } else { page };
    let mut out: Vec<(u16, usize, usize)> = Vec::new();
    let mut from: usize = 0;
    while from < n
        invariant
            size >= 1,
            size == if page == 0 { 1 } else { page as nat },
            from <= n <= u16::MAX,
            out@ + spec_chunks(from as nat, n as nat, size as nat) == spec_chunks(0, n as nat, size as nat),
        decreases n - from,
    {
        let end = if n - from <= size { n } else { from + size };
        let ghost before = out@;
        out.push((from as u16, from, end));
        assert(spec_chunks(from as nat, n as nat, size as nat) == seq![(from as u16, from, end)]
            + spec_chunks(end as nat, n as nat, size as nat));
        assert(before + spec_chunks(from as nat, n as nat, size as nat) =~= out@ + spec_chunks(
            end as nat,
            n as nat,
            size as nat,
        ));
        from = end;
    }
    assert(out@ + spec_chunks(from as nat, n as nat, size as nat) =~= out@);
    out
}

/// The chunks tile the items: each starts where the last ended, the cursor
/// is the first item's index, no chunk is empty or longer than a page, and
/// the last ends at `n`.
pub proof fn lemma_chunks_tile(from: nat, n: nat, size: nat)
    requires
        size >= 1,
        from < n,
        n <= u16::MAX,
    ensures
        ({
            let c = spec_chunks(from, n, size);
            &&& c.len() > 0
            &&& c[0].1 == from
            &&& c.last().2 == n
            &&& forall|i: int| 0 <= i < c.len() ==> #[trigger] c[i].0 == c[i].1 && c[i].1 < c[i].2 && c[i].2 - c[i].1 <= size
            &&& forall|i: int| 0 <= i < c.len() - 1 ==> #[trigger] c[i].2 == c[i + 1].1
        }),
    decreases n - from,
{
    let end: nat = if n - from <= size { n } else { from + size };
    let c = spec_chunks(from, n, size);
    let rest = spec_chunks(end, n, size);
    assert(c == seq![(from as u16, from as usize, end as usize)] + rest);
    if end < n {
        lemma_chunks_tile(end, n, size);
        assert forall|i: int| 0 <= i < c.len() implies #[trigger] c[i].0 == c[i].1 && c[i].1 < c[i].2 && c[i].2 - c[i].1 <= size by {
            if i > 0 {
                assert(c[i] == rest[i - 1]);
            }
        }
        assert forall|i: int| 0 <= i < c.len() - 1 implies #[trigger] c[i].2 == c[i + 1].1 by {
            assert(c[i + 1] == rest[i]);
            if i > 0 {
                assert(c[i] == rest[i - 1]);
            }
        }
        assert(c.last() == rest.last());
    } else {
        assert(rest =~= Seq::<(u16, usize, usize)>::empty());
        assert(c =~= seq![(from as u16, from as usize, end as usize)]);
    }
}

/// Why a page of a pinned snapshot was refused.
#[derive(Clone, Copy, Debug, Eq, PartialEq, Structural)]
pub enum PageFault {
    /// The page's revision or total count disagrees with the pinned state.
    RevisionMismatch,
    /// An empty snapshot returned items.
    UnexpectedItems,
    /// The page is empty, larger than a chunk, or runs past the total.
    BadPage,
    /// Paging ended before the advertised count.
    Short,
}

/// A snapshot read pinned to one revision with a known total: every page
/// must carry that revision and total, be non-empty, and stay within the
/// total; at least one page is fetched, even of an empty snapshot.
pub struct PinnedRead<T> {
    revision: u32,
    total: u16,
    chunk_capacity: Option<u16>,
    offset: u16,
    first_page: bool,
    items: Vec<T>,
}

impl<T> PinnedRead<T> {
    pub closed spec fn spec_revision(&self) -> u32 {
        self.revision
    }

    pub closed spec fn spec_total(&self) -> u16 {
        self.total
    }

    pub closed spec fn spec_chunk_capacity(&self) -> Option<u16> {
        self.chunk_capacity
    }

    pub closed spec fn spec_offset(&self) -> u16 {
        self.offset
    }

    pub closed spec fn spec_first_page(&self) -> bool {
        self.first_page
    }

    pub closed spec fn spec_items(&self) -> Seq<T> {
        self.items@
    }

    pub closed spec fn wf(&self) -> bool {
        &&& self.offset == self.items@.len()
        &&& self.offset <= self.total
    }

    /// A read of the snapshot `revision` holding `total` items, with pages of
    /// at most `chunk_capacity` items when the device announces one.
    pub fn new(revision: u32, total: u16, chunk_capacity: Option<u16>) -> (r: Self)
        ensures
            r.wf(),
            r.spec_revision() == revision,
            r.spec_total() == total,
            r.spec_chunk_capacity() == chunk_capacity,
            r.spec_offset() == 0,
            r.spec_first_page(),
            r.spec_items() == Seq::<T>::empty(),
    {
        PinnedRead { revision, total, chunk_capacity, offset: 0, first_page: true, items: Vec::new() }
    }

    /// The offset of the next page, or `None` when every item is read.
    pub fn next_offset(&self) -> (r: Option<u16>)
        ensures
            r == if self.spec_first_page() || self.spec_offset() < self.spec_total() {
                Some(self.spec_offset())
            } else {
                None
            },
    {
        if self.first_page || self.offset < self.total {
            Some(self.offset)
        } else {
            None
        }
    }

    /// Take the page requested at the current offset. `Ok` means it was
    /// consistent (and its items appended).
    pub fn on_page(&mut self, page_revision: u32, page_total: u16, page: Vec<T>) -> (r: Result<(), PageFault>)
        requires
            old(self).wf(),
        ensures
            final(self).wf(),
            !final(self).spec_first_page(),
            final(self).spec_revision() == old(self).spec_revision(),
            final(self).spec_total() == old(self).spec_total(),
            final(self).spec_chunk_capacity() == old(self).spec_chunk_capacity(),
            r == spec_page_verdict(
                old(self).spec_revision(),
                old(self).spec_total(),
                old(self).spec_chunk_capacity(),
                old(self).spec_offset(),
                page_revision,
                page_total,
                page@.len(),
            ),
            r is Ok && page@.len() > 0 ==> final(self).spec_offset() == old(self).spec_offset() + page@.len()
                && final(self).spec_items() == old(self).spec_items() + page@,
            !(r is Ok && page@.len() > 0) ==> final(self).spec_offset() == old(self).spec_offset()
                && final(self).spec_items() == old(self).spec_items(),
    {
        self.first_page = false;
        if page_revision != self.revision || page_total != self.total {
            return Err(PageFault::RevisionMismatch);
        }
        if self.offset >= self.total {
            if page.len() != 0 {
                return Err(PageFault::UnexpectedItems);
            }
            return Ok(());
        }
        let oversized = match self.chunk_capacity {
            Some(cap) => page.len() > cap as usize,
            None => false,
        };
        if page.len() == 0 || oversized || page.len() > (self.total - self.offset) as usize {
            return Err(PageFault::BadPage);
        }
        self.offset = self.offset + page.len() as u16;
        let mut page = page;
        self.items.append(&mut page);
        Ok(())
    }

    /// The snapshot's items, once paging stopped; fewer than the advertised
    /// count is refused.
    pub fn finish(self) -> (r: Result<(u32, Vec<T>), PageFault>)
        requires
            self.wf(),
        ensures
            r is Ok <==> self.spec_items().len() == self.spec_total(),
            r matches Ok((rev, items)) ==> rev == self.spec_revision() && items@ == self.spec_items(),
            r matches Err(f) ==> f == PageFault::Short,
    {
        if self.items.len() != self.total as usize {
            return Err(PageFault::Short);
        }
        Ok((self.revision, self.items))
    }
}

/// The verdict on a page of `n` items at `offset`.
pub open spec fn spec_page_verdict(
    revision: u32,
    total: u16,
    chunk_capacity: Option<u16>,
    offset: u16,
    page_revision: u32,
    page_total: u16,
    n: nat,
) -> Result<(), PageFault> {
    if page_revision != revision || page_total != total {
        Err(PageFault::RevisionMismatch)
    } else if offset >= total {
        if n != 0 { Err(PageFault::UnexpectedItems) } else { Ok(()) }
    } else if n == 0 || (chunk_capacity matches Some(cap) && n > cap) || offset + n > total {
        Err(PageFault::BadPage)
    } else {
        Ok(())
    }
}

/// What a pinned read does after a page request was answered.
#[derive(Clone, Copy, Debug, PartialEq, Eq, Structural)]
pub enum SnapshotStep {
    /// The page came back: check it and go on paging this attempt.
    Continue,
    /// The device reported that the pinned revision moved on: read the state
    /// again and start a new attempt.
    Restart,
    /// The revision moved on in the last allowed attempt: report the conflict.
    GiveUp,
}

/// The attempts of a pinned snapshot read: a revision conflict restarts the
/// read from a fresh state, at most [`SNAPSHOT_ATTEMPTS`] attempts in all.
pub struct SnapshotAttempts {
    started: usize,
}

impl SnapshotAttempts {
    /// The number of attempts started so far.
    pub closed spec fn spec_started(&self) -> usize {
        self.started
    }

    pub open spec fn wf(&self) -> bool {
        1 <= self.spec_started() <= SNAPSHOT_ATTEMPTS
    }

    /// The first attempt is under way.
    pub fn new() -> (r: Self)
        ensures
            r.wf(),
            r.spec_started() == 1,
    {
        SnapshotAttempts { started: 1 }
    }

    /// Decide after a page request of the current attempt: `conflict` tells
    /// whether the device refused it because the revision moved on. A
    /// conflict starts another attempt while fewer than
    /// [`SNAPSHOT_ATTEMPTS`] were made, and gives up after the last.
    pub fn on_page_outcome(&mut self, conflict: bool) -> (r: SnapshotStep)
        requires
            old(self).wf(),
        ensures
            final(self).wf(),
            r == if !conflict {
                SnapshotStep::Continue
            } else if old(self).spec_started() < SNAPSHOT_ATTEMPTS {
                SnapshotStep::Restart
            } else {
                SnapshotStep::GiveUp
            },
            final(self).spec_started() == if r == SnapshotStep::Restart {
                old(self).spec_started() + 1
            } else {
                old(self).spec_started() as int
            },
    {
        if !conflict {
            SnapshotStep::Continue
        } else if self.started < SNAPSHOT_ATTEMPTS {
            self.started = self.started + 1;
            SnapshotStep::Restart
        } else {
            SnapshotStep::GiveUp
        }
    }
}

/// A pinned read that asks for no further page holds exactly the
/// advertised count, so its `finish` succeeds.
pub proof fn lemma_pinned_read_complete<T>(read: &PinnedRead<T>)
    requires
        read.wf(),
        !read.spec_first_page(),
        !(read.spec_offset() < read.spec_total()),
    ensures
        read.spec_items().len() == read.spec_total(),
{
}

/// The layout blob being paged in by byte offset.
pub struct LayoutRead {
    total_len: usize,
    collected: Vec<u8>,
    stalled: bool,
}

impl LayoutRead {
    pub closed spec fn spec_total_len(&self) -> usize {
        self.total_len
    }

    pub closed spec fn spec_collected(&self) -> Seq<u8> {
        self.collected@
    }

    pub closed spec fn spec_stalled(&self) -> bool {
        self.stalled
    }

    /// Start from the first page, which announces the blob's length; a
    /// length over [`MAX_LAYOUT_BLOB_LEN`] is refused (returned as `Err`).
    pub fn start(total_len: u32, first: Vec<u8>) -> (r: Result<Self, usize>)
        ensures
            total_len as int > MAX_LAYOUT_BLOB_LEN <==> r is Err,
            r matches Err(len) ==> len == total_len,
            r matches Ok(s) ==> s.spec_total_len() == total_len && s.spec_collected() == first@
                && !s.spec_stalled(),
    {
        let total = total_len as usize;
        if total > MAX_LAYOUT_BLOB_LEN {
            return Err(total);
        }
        Ok(LayoutRead { total_len: total, collected: first, stalled: false })
    }

    /// The byte offset of the next page: only after a non-empty start, until
    /// the advertised length is reached or a page comes back empty.
    pub fn next_offset(&self) -> (r: Option<u32>)
        requires
            self.spec_total_len() <= MAX_LAYOUT_BLOB_LEN,
        ensures
            r == if !self.spec_stalled() && self.spec_collected().len() > 0 && self.spec_collected().len()
                < self.spec_total_len() {
                Some(self.spec_collected().len() as u32)
            } else {
                None
            },
    {
        if !self.stalled && self.collected.len() > 0 && self.collected.len() < self.total_len {
            Some(self.collected.len() as u32)
        } else {
            None
        }
    }

    /// Take a page: an empty one ends a stalled transfer.
    pub fn on_chunk(&mut self, bytes: Vec<u8>)
        ensures
            final(self).spec_total_len() == old(self).spec_total_len(),
            bytes@.len() == 0 ==> final(self).spec_stalled() && final(self).spec_collected() == old(self).spec_collected(),
            bytes@.len() > 0 ==> final(self).spec_stalled() == old(self).spec_stalled()
                && final(self).spec_collected() == old(self).spec_collected() + bytes@,
    {
        if bytes.len() == 0 {
            self.stalled = true;
            return;
        }
        let mut bytes = bytes;
        self.collected.append(&mut bytes);
    }

    /// The blob, cut to the advertised length.
    pub fn finish(self) -> (r: Vec<u8>)
        ensures
            r@ == if self.spec_collected().len() > self.spec_total_len() {
                self.spec_collected().take(self.spec_total_len() as int)
            } else {
                self.spec_collected()
            },
    {
        let mut out = self.collected;
        out.truncate(self.total_len);
        out
    }
}

} // verus!
