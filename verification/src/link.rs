//! Link layer of the wired split bus: sequencing, acknowledgement, credit.
//!
//! Every frame carries a three-byte header `[ctrl][ack][credit]`. Data frames
//! carry a 6-bit sequence number in `ctrl` (with [`SEQ_FLAG`] set); `ack` is the
//! sender's next expected in-order sequence; `credit` is how many more bulk
//! frames the sender may receive before its inbox drains. Sequenced frames are
//! retransmitted (go-back-N) until acknowledged.
use std::collections::VecDeque;
use vstd::prelude::*;

verus! {

broadcast use vstd::std_specs::vecdeque::group_vec_dequeue_axioms;

/// `ctrl` bit marking a sequenced data frame.
pub const SEQ_FLAG: u8 = 0x80;
/// `ctrl` bit on an unsequenced frame: reset the sequence session.
pub const RESET_FLAG: u8 = 0x40;
/// Mask of the sequence number inside `ctrl`.
pub const SEQ_MASK: u8 = 0x3f;
/// Outstanding unacknowledged sequenced frames.
pub const LINK_WINDOW: usize = 4;
/// Exchanges an unacked frame survives before the window retransmits.
pub const RETRANSMIT_AFTER_EXCHANGES: u8 = 3;
/// In-order frames waiting for the consumer.
pub const INBOX_CAPACITY: usize = 8;
/// Queued outgoing frames per lane.
pub const LANE_CAPACITY: usize = 8;
/// Sequenced frames sent per exchange.
pub const FRAMES_PER_EXCHANGE: usize = 4;

/// Distance from sequence `a` forward to sequence `b`, modulo 64.
pub open spec fn seq_distance(a: u8, b: u8) -> int {
    (b as int + 256 - a as int) % 64
}

/// `a` precedes `b` in mod-64 sequence arithmetic.
pub open spec fn precedes(a: u8, b: u8) -> bool {
    a != b && seq_distance(a, b) < 32
}

/// `true` if sequence `a` precedes `b` in mod-64 arithmetic.
pub fn seq_before(a: u8, b: u8) -> (r: bool)
    ensures
        r == precedes(a, b),
{
    let w = b.wrapping_sub(a);
    let d = w & SEQ_MASK;
    proof {
        assert(d == w % 64) by (bit_vector)
            requires
                d == w & 0x3f,
        ;
        if b >= a {
            assert(w == b - a);
            assert((b as int + 256 - a as int) % 64 == (b as int - a as int) % 64);
        } else {
            assert(w == b as int - a as int + 256);
        }
    }
    a != b && d < 32
}

/// Kinds of split messages, as far as the link layer tells them apart.
#[derive(Clone, Copy, Debug, PartialEq, Eq, Structural)]
pub enum MessageKind {
    Key,
    Pointing,
    BatteryStatus,
    LedState,
    ConnectionStatus,
    Address,
    ClearPeer,
    KeyboardIndicator,
    Layer,
    TransportOverride,
    HalfDuplexPoll,
    HalfDuplexIdle,
    /// Any application message the link layer does not name.
    Other,
}

/// Outgoing lane of a message.
#[derive(Clone, Copy, Debug, PartialEq, Eq, Structural)]
pub enum Lane {
    /// Messages that change link or device state.
    Control,
    /// Latency-sensitive input events.
    Input,
    /// Everything else, subject to peer credit.
    Bulk,
}

pub open spec fn spec_lane_of(kind: MessageKind) -> Lane {
    match kind {
        MessageKind::Key | MessageKind::Pointing | MessageKind::BatteryStatus => Lane::Input,
        MessageKind::LedState | MessageKind::ConnectionStatus | MessageKind::Address
        | MessageKind::ClearPeer | MessageKind::KeyboardIndicator | MessageKind::Layer
        | MessageKind::TransportOverride => Lane::Control,
        _ => Lane::Bulk,
    }
}

/// Which outgoing lane a message belongs to.
pub fn lane_of(kind: MessageKind) -> (r: Lane)
    ensures
        r == spec_lane_of(kind),
{
    match kind {
        MessageKind::Key | MessageKind::Pointing | MessageKind::BatteryStatus => Lane::Input,
        MessageKind::LedState | MessageKind::ConnectionStatus | MessageKind::Address
        | MessageKind::ClearPeer | MessageKind::KeyboardIndicator | MessageKind::Layer
        | MessageKind::TransportOverride => Lane::Control,
        _ => Lane::Bulk,
    }
}

/// A message carried by the link, with the kind that decides its lane.
#[derive(Clone, Copy, Debug)]
pub struct LinkMessage<M> {
    pub kind: MessageKind,
    pub body: M,
}

/// A sequenced frame: sequence number and message.
pub type Sequenced<M> = (u8, LinkMessage<M>);

/// Abstract state of a link endpoint.
pub struct LinkView<M> {
    pub next_seq: u8,
    pub unacked: Seq<Sequenced<M>>,
    pub expected: u8,
    pub peer_credit: u8,
    pub resend: nat,
    pub exchanges_without_ack: u8,
    pub control: Seq<LinkMessage<M>>,
    pub input: Seq<LinkMessage<M>>,
    pub bulk: Seq<LinkMessage<M>>,
    pub inbox: Seq<LinkMessage<M>>,
}

/// One end of the sequenced link.
pub struct LinkEndpoint<M> {
    pub next_seq: u8,
    pub unacked: VecDeque<Sequenced<M>>,
    /// Next in-order sequence this side accepts.
    pub expected: u8,
    pub peer_credit: u8,
    /// How many frames at the head of `unacked` are marked for resend.
    pub resend: usize,
    pub exchanges_without_ack: u8,
    pub control: VecDeque<LinkMessage<M>>,
    pub input: VecDeque<LinkMessage<M>>,
    pub bulk: VecDeque<LinkMessage<M>>,
    pub inbox: VecDeque<LinkMessage<M>>,
}

impl<M> View for LinkEndpoint<M> {
    type V = LinkView<M>;

    open spec fn view(&self) -> LinkView<M> {
        LinkView {
            next_seq: self.next_seq,
            unacked: self.unacked@,
            expected: self.expected,
            peer_credit: self.peer_credit,
            resend: self.resend as nat,
            exchanges_without_ack: self.exchanges_without_ack,
            control: self.control@,
            input: self.input@,
            bulk: self.bulk@,
            inbox: self.inbox@,
        }
    }
}

/// Sequence number `k` places after `start`, modulo 64.
pub open spec fn seq_add(start: u8, k: int) -> u8 {
    ((start as int + k) % 64) as u8
}

/// Messages numbered consecutively from `start`.
pub open spec fn numbered<M>(msgs: Seq<LinkMessage<M>>, start: u8) -> Seq<Sequenced<M>> {
    Seq::new(msgs.len(), |i: int| (seq_add(start, i), msgs[i]))
}

pub open spec fn min_nat(a: nat, b: nat) -> nat {
    if a <= b {
        a
    } else {
        b
    }
}

/// All messages of `q` belong to `lane`.
pub open spec fn all_in_lane<M>(q: Seq<LinkMessage<M>>, lane: Lane) -> bool {
    forall|i: int| 0 <= i < q.len() ==> spec_lane_of(#[trigger] q[i].kind) == lane
}

impl<M> LinkView<M> {
    /// The endpoint's invariant: bounded queues, lanes sorted by kind, and the
    /// unacknowledged window numbered consecutively up to `next_seq`.
    pub open spec fn wf(self) -> bool {
        &&& self.next_seq < 64
        &&& self.expected < 64
        &&& self.unacked.len() <= LINK_WINDOW
        &&& self.resend <= self.unacked.len()
        &&& self.control.len() <= LANE_CAPACITY
        &&& self.input.len() <= LANE_CAPACITY
        &&& self.bulk.len() <= LANE_CAPACITY
        &&& self.inbox.len() <= INBOX_CAPACITY
        &&& all_in_lane(self.control, Lane::Control)
        &&& all_in_lane(self.input, Lane::Input)
        &&& all_in_lane(self.bulk, Lane::Bulk)
        &&& forall|i: int|
            0 <= i < self.unacked.len() ==> (#[trigger] self.unacked[i]).0 == seq_add(
                self.next_seq,
                i - self.unacked.len(),
            )
    }

    /// The lane queue a message of `lane` waits in.
    pub open spec fn lane(self, lane: Lane) -> Seq<LinkMessage<M>> {
        match lane {
            Lane::Control => self.control,
            Lane::Input => self.input,
            Lane::Bulk => self.bulk,
        }
    }

    /// Count of leading unacked frames that `ack` acknowledges.
    pub open spec fn acked_prefix(q: Seq<Sequenced<M>>, ack: u8) -> nat
        decreases q.len(),
    {
        if q.len() > 0 && precedes(q[0].0, ack) {
            1 + Self::acked_prefix(q.drop_first(), ack)
        } else {
            0
        }
    }

    /// State after applying a peer header.
    pub open spec fn after_header(self, ack: u8, credit: u8) -> LinkView<M> {
        let k = Self::acked_prefix(self.unacked, ack);
        LinkView {
            unacked: self.unacked.skip(k as int),
            resend: if self.resend >= k {
                (self.resend - k) as nat
            } else {
                0
            },
            exchanges_without_ack: if k > 0 {
                0
            } else {
                self.exchanges_without_ack
            },
            peer_credit: credit,
            ..self
        }
    }

    /// State after offering a received sequenced frame.
    pub open spec fn after_accept(self, seq: u8, message: LinkMessage<M>) -> LinkView<M> {
        if seq == self.expected && self.inbox.len() < INBOX_CAPACITY {
            LinkView {
                inbox: self.inbox.push(message),
                expected: seq_add(self.expected, 1),
                ..self
            }
        } else {
            self
        }
    }


    /// Whether the window times out this exchange and is marked for resend.
    pub open spec fn retransmit_due(self) -> bool {
        self.unacked.len() > 0 && self.exchanges_without_ack >= RETRANSMIT_AFTER_EXCHANGES
    }

    /// Frames marked for resend once the retransmit check has run.
    pub open spec fn resend_marked(self) -> nat {
        if self.retransmit_due() {
            self.unacked.len()
        } else {
            self.resend
        }
    }

    /// Retransmissions placed at the head of this exchange's burst.
    pub open spec fn resend_count(self) -> nat {
        min_nat(self.resend_marked(), FRAMES_PER_EXCHANGE as nat)
    }

    /// Room left for fresh frames: bounded by the burst and by the window.
    pub open spec fn fresh_room(self) -> nat {
        min_nat(
            (FRAMES_PER_EXCHANGE - self.resend_count()) as nat,
            (LINK_WINDOW - self.unacked.len()) as nat,
        )
    }

    /// Fresh control frames taken this exchange (control goes first).
    pub open spec fn take_control(self) -> nat {
        min_nat(self.fresh_room(), self.control.len())
    }

    /// Fresh input frames taken this exchange (after control).
    pub open spec fn take_input(self) -> nat {
        min_nat((self.fresh_room() - self.take_control()) as nat, self.input.len())
    }

    /// Fresh bulk frames taken this exchange (last, and only under peer credit).
    pub open spec fn take_bulk(self) -> nat {
        min_nat(
            min_nat(
                (self.fresh_room() - self.take_control() - self.take_input()) as nat,
                self.bulk.len(),
            ),
            self.peer_credit as nat,
        )
    }

    /// Fresh messages sent this exchange, in transmission order.
    pub open spec fn fresh(self) -> Seq<LinkMessage<M>> {
        self.control.take(self.take_control() as int) + self.input.take(
            self.take_input() as int,
        ) + self.bulk.take(self.take_bulk() as int)
    }

    /// Frames of one exchange's burst: retransmissions first, then fresh traffic.
    pub open spec fn burst(self) -> Seq<Sequenced<M>> {
        self.unacked.take(self.resend_count() as int) + numbered(self.fresh(), self.next_seq)
    }

    /// State after building one exchange's burst.
    pub open spec fn after_burst(self) -> LinkView<M> {
        let fresh = self.fresh();
        let unacked = self.unacked + numbered(fresh, self.next_seq);
        let ewa = if self.retransmit_due() {
            0
        } else {
            self.exchanges_without_ack
        };
        LinkView {
            next_seq: seq_add(self.next_seq, fresh.len() as int),
            unacked,
            peer_credit: (self.peer_credit - self.take_bulk()) as u8,
            resend: (self.resend_marked() - self.resend_count()) as nat,
            exchanges_without_ack: if unacked.len() > 0 {
                if ewa == 255 {
                    255
                } else {
                    (ewa + 1) as u8
                }
            } else {
                ewa
            },
            control: self.control.skip(self.take_control() as int),
            input: self.input.skip(self.take_input() as int),
            bulk: self.bulk.skip(self.take_bulk() as int),
            ..self
        }
    }

    /// A control-lane message is queued or sent but not yet acknowledged.
    pub open spec fn control_pending(self) -> bool {
        self.control.len() > 0 || exists|j: int|
            0 <= j < self.unacked.len() && spec_lane_of((#[trigger] self.unacked[j]).1.kind)
                == Lane::Control
    }

    /// State after a session reset: sequence state zeroed, queues kept.
    pub open spec fn after_reset(self) -> LinkView<M> {
        LinkView {
            next_seq: 0,
            expected: 0,
            unacked: Seq::empty(),
            resend: 0,
            exchanges_without_ack: 0,
            ..self
        }
    }
}


/// A frame accepted once is not accepted again: a duplicate of it is
/// dropped, and so is any frame other than the next expected one.
pub proof fn lemma_duplicate_dropped<M>(v: LinkView<M>, seq: u8, m: LinkMessage<M>, dup: LinkMessage<M>)
    requires
        v.wf(),
    ensures
        seq != v.expected ==> v.after_accept(seq, m) == v,
        v.after_accept(seq, m).inbox.len() > v.inbox.len() ==> v.after_accept(seq, m).after_accept(seq, dup)
            == v.after_accept(seq, m),
{
}

/// Bulk traffic never exceeds the peer's credit, and a burst carries at
/// most one exchange's worth of frames.
pub proof fn lemma_burst_bounds<M>(v: LinkView<M>)
    requires
        v.wf(),
    ensures
        v.take_bulk() <= v.peer_credit,
        v.fresh().len() == v.take_control() + v.take_input() + v.take_bulk(),
        v.burst().len() <= FRAMES_PER_EXCHANGE,
        v.unacked.len() + v.fresh().len() <= LINK_WINDOW,
{
}

/// Sequence arithmetic composes: `k` then `j` places forward is `k + j` places.
pub proof fn lemma_seq_add_compose(start: u8, k: int, j: int)
    requires
        start < 64,
    ensures
        seq_add(seq_add(start, k), j) == seq_add(start, k + j),
{
    let a = (start as int + k) % 64;
    assert(0 <= a < 64);
    vstd::arithmetic::div_mod::lemma_add_mod_noop(start as int + k, j, 64);
    vstd::arithmetic::div_mod::lemma_mod_twice(j, 64);
    vstd::arithmetic::div_mod::lemma_add_mod_noop(a, j, 64);
}

/// The frames of one exchange, and whether the window timed out into a resend.
pub struct Burst<M> {
    pub frames: Vec<Sequenced<M>>,
    pub retransmitted: bool,
}

impl<M> LinkEndpoint<M> {
    /// A fresh endpoint: everything zero and empty.
    pub open spec fn new_view() -> LinkView<M> {
        LinkView {
            next_seq: 0,
            unacked: Seq::empty(),
            expected: 0,
            peer_credit: 0,
            resend: 0,
            exchanges_without_ack: 0,
            control: Seq::empty(),
            input: Seq::empty(),
            bulk: Seq::empty(),
            inbox: Seq::empty(),
        }
    }
}

impl<M: Copy> LinkEndpoint<M> {
    pub fn new() -> (r: Self)
        ensures
            r@.wf(),
            r@ == Self::new_view(),
    {
        LinkEndpoint {
            next_seq: 0,
            unacked: VecDeque::new(),
            expected: 0,
            peer_credit: 0,
            resend: 0,
            exchanges_without_ack: 0,
            control: VecDeque::new(),
            input: VecDeque::new(),
            bulk: VecDeque::new(),
            inbox: VecDeque::new(),
        }
    }

    /// Queue `message` on its lane. Refused (and left unqueued) when that lane is full.
    pub fn enqueue(&mut self, message: LinkMessage<M>) -> (r: Result<(), ()>)
        requires
            old(self)@.wf(),
        ensures
            final(self)@.wf(),
            ({
                let lane = spec_lane_of(message.kind);
                let before = old(self)@;
                let after = final(self)@;
                &&& r is Ok <==> before.lane(lane).len() < LANE_CAPACITY
                &&& r is Ok ==> after == LinkView { control: if lane == Lane::Control {
                    before.control.push(message)
                } else {
                    before.control
                }, input: if lane == Lane::Input {
                    before.input.push(message)
                } else {
                    before.input
                }, bulk: if lane == Lane::Bulk {
                    before.bulk.push(message)
                } else {
                    before.bulk
                }, ..before }
                &&& r is Err ==> after == before
            }),
    {
        match lane_of(message.kind) {
            Lane::Control => {
                if self.control.len() >= LANE_CAPACITY {
                    return Err(());
                }
                self.control.push_back(message);
            },
            Lane::Input => {
                if self.input.len() >= LANE_CAPACITY {
                    return Err(());
                }
                self.input.push_back(message);
            },
            Lane::Bulk => {
                if self.bulk.len() >= LANE_CAPACITY {
                    return Err(());
                }
                self.bulk.push_back(message);
            },
        }
        Ok(())
    }

    /// Apply the peer's header: pop everything it acknowledges and adopt its credit.
    pub fn on_header(&mut self, ack: u8, credit: u8)
        requires
            old(self)@.wf(),
        ensures
            final(self)@.wf(),
            final(self)@ == old(self)@.after_header(ack, credit),
    {
        let ghost start = self.unacked@;
        let mut progressed = false;
        let mut popped: usize = 0;
        while self.unacked.len() > 0 && seq_before(self.unacked[0].0, ack)
            invariant
                self@.wf(),
                start.len() <= LINK_WINDOW,
                popped <= start.len(),
                self.unacked@ == start.skip(popped as int),
                LinkView::<M>::acked_prefix(start, ack) == popped + LinkView::<M>::acked_prefix(
                    self.unacked@,
                    ack,
                ),
                progressed == (popped > 0),
                self.resend as int == if old(self).resend >= popped {
                    old(self).resend - popped
                } else {
                    0
                },
                self.exchanges_without_ack == old(self).exchanges_without_ack,
                self.peer_credit == old(self).peer_credit,
                self.next_seq == old(self).next_seq,
                self.expected == old(self).expected,
                self.control@ == old(self).control@,
                self.input@ == old(self).input@,
                self.bulk@ == old(self).bulk@,
                self.inbox@ == old(self).inbox@,
                start == old(self).unacked@,
            decreases self.unacked.len(),
        {
            let ghost before = self.unacked@;
            let _ = self.unacked.pop_front();
            assert(self.unacked@ =~= before.drop_first());
            assert(start.skip(popped + 1) =~= before.drop_first());
            popped = popped + 1;
            self.resend = self.resend.saturating_sub(1);
            progressed = true;
            proof {
                assert forall|i: int| 0 <= i < self.unacked@.len() implies (
                #[trigger] self.unacked@[i]).0 == seq_add(
                    self.next_seq,
                    i - self.unacked@.len(),
                ) by {
                    assert(self.unacked@[i] == before[i + 1]);
                }
            }
        }
        if progressed {
            self.exchanges_without_ack = 0;
        }
        self.peer_credit = credit;
        proof {
            assert(LinkView::<M>::acked_prefix(self.unacked@, ack) == 0);
            assert(self.unacked@ =~= start.skip(LinkView::<M>::acked_prefix(start, ack) as int));
        }
    }

    /// Accept a sequenced frame if it is the next in order and the inbox has
    /// room; otherwise drop it unacknowledged so the peer retransmits it.
    pub fn accept(&mut self, seq: u8, message: LinkMessage<M>)
        requires
            old(self)@.wf(),
        ensures
            final(self)@.wf(),
            final(self)@ == old(self)@.after_accept(seq, message),
    {
        if seq != self.expected {
            return;
        }
        if self.inbox.len() >= INBOX_CAPACITY {
            return;
        }
        self.inbox.push_back(message);
        let f: u8 = self.expected + 1;
        self.expected = f & SEQ_MASK;
        proof {
            assert(f & 0x3f == f % 64) by (bit_vector)
                requires
                    f <= 64,
            ;
        }
    }

    /// Bulk frames this side can still take in.
    pub fn credit(&self) -> (r: u8)
        requires
            self@.wf(),
        ensures
            r == INBOX_CAPACITY - self@.inbox.len(),
    {
        (INBOX_CAPACITY - self.inbox.len()) as u8
    }

    /// Zero the sequence state for a fresh session; unacknowledged frames are
    /// dropped rather than replayed.
    pub fn reset(&mut self)
        requires
            old(self)@.wf(),
        ensures
            final(self)@.wf(),
            final(self)@ == old(self)@.after_reset(),
    {
        self.next_seq = 0;
        self.expected = 0;
        self.unacked.clear();
        self.resend = 0;
        self.exchanges_without_ack = 0;
    }

    /// Sequenced frames to transmit this exchange: retransmissions first, then
    /// fresh traffic (control, then input, then bulk under peer credit) while
    /// the burst, the window and the peer's credit allow.
    #[verifier::rlimit(60)]
    #[verifier::spinoff_prover]
    pub fn fill_burst(&mut self) -> (r: Burst<M>)
        requires
            old(self)@.wf(),
        ensures
            final(self)@.wf(),
            final(self)@ == old(self)@.after_burst(),
            r.frames@ == old(self)@.burst(),
            r.retransmitted == old(self)@.retransmit_due(),
    {
        let ghost s0 = self@;
        let mut retransmitted = false;
        if self.unacked.len() > 0 && self.exchanges_without_ack >= RETRANSMIT_AFTER_EXCHANGES {
            self.resend = self.unacked.len();
            self.exchanges_without_ack = 0;
            retransmitted = true;
        }
        let mut frames: Vec<Sequenced<M>> = Vec::new();
        let mut resend_left = self.resend;
        let mut i: usize = 0;
        while i < self.unacked.len() && resend_left > 0 && frames.len() < FRAMES_PER_EXCHANGE
            invariant
                s0.wf(),
                self.unacked@ == s0.unacked,
                i <= s0.unacked.len(),
                frames@ == s0.unacked.take(i as int),
                resend_left + i == s0.resend_marked(),
                s0.resend_marked() <= s0.unacked.len(),
            decreases s0.unacked.len() - i,
        {
            frames.push(self.unacked[i]);
            assert(frames@ =~= s0.unacked.take(i + 1));
            resend_left = resend_left - 1;
            i = i + 1;
        }
        assert(i == s0.resend_count());
        self.resend = resend_left;
        let ghost k = i as nat;
        let mut tc: usize = 0;
        let mut ti: usize = 0;
        let mut tb: usize = 0;
        proof {
            assert(s0.control.take(0) + s0.input.take(0) + s0.bulk.take(0) =~= Seq::<
                LinkMessage<M>,
            >::empty());
            assert(s0.unacked + numbered(Seq::<LinkMessage<M>>::empty(), s0.next_seq)
                =~= s0.unacked);
            assert(s0.unacked.take(k as int) + numbered(
                Seq::<LinkMessage<M>>::empty(),
                s0.next_seq,
            ) =~= s0.unacked.take(k as int));
            assert(s0.control.skip(0) =~= s0.control);
            assert(s0.input.skip(0) =~= s0.input);
            assert(s0.bulk.skip(0) =~= s0.bulk);
            lemma_seq_add_compose(s0.next_seq, 0, 0);
        }
        loop
            invariant
                s0.wf(),
                k == s0.resend_count(),
                tc <= s0.control.len(),
                ti <= s0.input.len(),
                tb <= s0.bulk.len(),
                ti > 0 ==> tc == s0.control.len(),
                tb > 0 ==> tc == s0.control.len() && ti == s0.input.len(),
                tc + ti + tb <= s0.fresh_room(),
                tb <= s0.peer_credit,
                self.peer_credit == s0.peer_credit - tb,
                self.control@ == s0.control.skip(tc as int),
                self.input@ == s0.input.skip(ti as int),
                self.bulk@ == s0.bulk.skip(tb as int),
                self.unacked@ == s0.unacked + numbered(
                    s0.control.take(tc as int) + s0.input.take(ti as int) + s0.bulk.take(
                        tb as int,
                    ),
                    s0.next_seq,
                ),
                frames@ == s0.unacked.take(k as int) + numbered(
                    s0.control.take(tc as int) + s0.input.take(ti as int) + s0.bulk.take(
                        tb as int,
                    ),
                    s0.next_seq,
                ),
                self.next_seq == seq_add(s0.next_seq, (tc + ti + tb) as int),
                self.next_seq < 64,
                self.expected == s0.expected,
                self.inbox@ == s0.inbox,
                self.resend == s0.resend_marked() - k,
                self.exchanges_without_ack == if s0.retransmit_due() {
                    0
                } else {
                    s0.exchanges_without_ack
                },
            ensures
                (tc + ti + tb == s0.fresh_room()) || (tc == s0.control.len() && ti
                    == s0.input.len() && (tb == s0.bulk.len() || tb == s0.peer_credit)),
            decreases s0.fresh_room() - (tc + ti + tb),
        {
            if frames.len() >= FRAMES_PER_EXCHANGE || self.unacked.len() >= LINK_WINDOW {
                break;
            }
            let ghost fresh_before = s0.control.take(tc as int) + s0.input.take(ti as int)
                + s0.bulk.take(tb as int);
            let next;
            if self.control.len() > 0 {
                next = self.control.pop_front().unwrap();
                proof {
                    assert(s0.control.take(tc + 1) =~= s0.control.take(tc as int).push(next));
                    assert(s0.control.skip(tc + 1) =~= s0.control.skip(tc as int).drop_first());
                    assert(s0.input.take(0) =~= Seq::<LinkMessage<M>>::empty());
                    assert(s0.bulk.take(0) =~= Seq::<LinkMessage<M>>::empty());
                    assert(fresh_before.push(next) =~= s0.control.take(tc + 1) + s0.input.take(
                        ti as int,
                    ) + s0.bulk.take(tb as int));
                }
                tc = tc + 1;
            } else if self.input.len() > 0 {
                next = self.input.pop_front().unwrap();
                proof {
                    assert(s0.input.take(ti + 1) =~= s0.input.take(ti as int).push(next));
                    assert(s0.input.skip(ti + 1) =~= s0.input.skip(ti as int).drop_first());
                    assert(s0.bulk.take(0) =~= Seq::<LinkMessage<M>>::empty());
                    assert(fresh_before.push(next) =~= s0.control.take(tc as int) + s0.input.take(
                        ti + 1,
                    ) + s0.bulk.take(tb as int));
                }
                ti = ti + 1;
            } else if self.peer_credit > 0 && self.bulk.len() > 0 {
                next = self.bulk.pop_front().unwrap();
                self.peer_credit = self.peer_credit - 1;
                proof {
                    assert(s0.bulk.take(tb + 1) =~= s0.bulk.take(tb as int).push(next));
                    assert(s0.bulk.skip(tb + 1) =~= s0.bulk.skip(tb as int).drop_first());
                    assert(fresh_before.push(next) =~= s0.control.take(tc as int) + s0.input.take(
                        ti as int,
                    ) + s0.bulk.take(tb + 1));
                }
                tb = tb + 1;
            } else {
                break;
            }
            let seq = self.next_seq;
            let f: u8 = self.next_seq + 1;
            self.next_seq = f & SEQ_MASK;
            proof {
                assert(f & 0x3f == f % 64) by (bit_vector)
                    requires
                        f <= 64,
                ;
                lemma_seq_add_compose(s0.next_seq, (tc + ti + tb - 1) as int, 1);
                assert(numbered(fresh_before.push(next), s0.next_seq) =~= numbered(
                    fresh_before,
                    s0.next_seq,
                ).push((seq, next)));
            }
            let ghost ub = self.unacked@;
            self.unacked.push_back((seq, next));
            frames.push((seq, next));
            proof {
                assert(self.unacked@ =~= s0.unacked + numbered(
                    s0.control.take(tc as int) + s0.input.take(ti as int) + s0.bulk.take(
                        tb as int,
                    ),
                    s0.next_seq,
                ));
                assert(frames@ =~= s0.unacked.take(k as int) + numbered(
                    s0.control.take(tc as int) + s0.input.take(ti as int) + s0.bulk.take(
                        tb as int,
                    ),
                    s0.next_seq,
                ));
            }
        }
        proof {
            assert(tc == s0.take_control());
            assert(ti == s0.take_input());
            assert(tb == s0.take_bulk());
            assert(s0.fresh() =~= s0.control.take(tc as int) + s0.input.take(ti as int)
                + s0.bulk.take(tb as int));
        }
        if self.unacked.len() > 0 {
            self.exchanges_without_ack = self.exchanges_without_ack.saturating_add(1);
        }
        proof {
            let n = (tc + ti + tb) as int;
            let fresh = s0.fresh();
            assert forall|j: int| 0 <= j < self.unacked@.len() implies (
            #[trigger] self.unacked@[j]).0 == seq_add(self.next_seq, j - self.unacked@.len()) by {
                lemma_seq_add_compose(s0.next_seq, n, j - self.unacked@.len());
                if j < s0.unacked.len() {
                    assert(self.unacked@[j] == s0.unacked[j]);
                } else {
                    assert(self.unacked@[j] == numbered(fresh, s0.next_seq)[j - s0.unacked.len()]);
                }
            }
            assert(all_in_lane(self.control@, Lane::Control));
            assert(all_in_lane(self.input@, Lane::Input));
            assert(all_in_lane(self.bulk@, Lane::Bulk));
            assert(self@ =~= s0.after_burst());
        }
        Burst { frames, retransmitted }
    }

    /// A control-lane message is still queued or awaiting acknowledgement.
    pub fn control_outstanding(&self) -> (r: bool)
        requires
            self@.wf(),
        ensures
            r == self@.control_pending(),
    {
        if self.control.len() > 0 {
            return true;
        }
        let mut i: usize = 0;
        while i < self.unacked.len()
            invariant
                self@.wf(),
                i <= self.unacked@.len(),
                forall|j: int|
                    0 <= j < i ==> spec_lane_of((#[trigger] self.unacked@[j]).1.kind)
                        != Lane::Control,
            decreases self.unacked@.len() - i,
        {
            if matches!(lane_of(self.unacked[i].1.kind), Lane::Control) {
                return true;
            }
            i = i + 1;
        }
        false
    }

    /// Pop the oldest in-order received message.
    pub fn take_received(&mut self) -> (r: Option<LinkMessage<M>>)
        requires
            old(self)@.wf(),
        ensures
            final(self)@.wf(),
            old(self)@.inbox.len() == 0 ==> r is None && final(self)@ == old(self)@,
            old(self)@.inbox.len() > 0 ==> r == Some(old(self)@.inbox[0]) && final(self)@ == (
            LinkView { inbox: old(self)@.inbox.drop_first(), ..old(self)@ }),
    {
        let r = self.inbox.pop_front();
        proof {
            if old(self)@.inbox.len() > 0 {
                assert(self.inbox@ =~= old(self)@.inbox.drop_first());
            }
        }
        r
    }
}

} // verus!
