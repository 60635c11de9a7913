//! Decisions of the polled half-duplex split bus.
//!
//! The central is the only side that transmits unprompted: one exchange sends
//! queued and retransmitted frames plus a poll, then listens until the
//! peripheral's burst terminator. The peripheral transmits only in reply to a
//! poll, so the two can never collide. Timing and wire I/O stay with the
//! caller; these state machines say what to send and what a received frame
//! changes.
use crate::link::{
    precedes, spec_lane_of, Lane, LinkEndpoint, LinkMessage, LinkView, Sequenced, INBOX_CAPACITY,
    LANE_CAPACITY, RESET_FLAG, SEQ_FLAG, SEQ_MASK,
};
use vstd::prelude::*;

verus! {

/// Consecutive exchanges without acknowledgement progress before the central
/// assumes the peer rebooted and renegotiates the sequence session.
pub const STUCK_ACK_EXCHANGES: u8 = 24;
/// Exchanges a control-lane write waits for its acknowledgement.
pub const CONTROL_ACK_EXCHANGES: usize = 32;

/// What a frame on the half-duplex bus carries.
#[derive(Clone, Copy, Debug)]
pub enum WireBody<M> {
    /// The central's invitation to answer.
    Poll,
    /// The peripheral's burst terminator (also its reset echo).
    Idle,
    /// An application message.
    Message(LinkMessage<M>),
}

/// One frame with its link header.
#[derive(Clone, Copy, Debug)]
pub struct WireFrame<M> {
    pub ctrl: u8,
    pub ack: u8,
    pub credit: u8,
    pub body: WireBody<M>,
}

/// The frame is an unsequenced session reset (or its echo).
pub open spec fn is_reset(ctrl: u8) -> bool {
    ctrl & SEQ_FLAG == 0 && ctrl & RESET_FLAG != 0
}

/// The frame is a sequenced data frame.
pub open spec fn is_sequenced(ctrl: u8) -> bool {
    ctrl & SEQ_FLAG != 0
}

/// The message a data frame carries, for delivery to the link; link
/// maintenance frames never carry application data.
pub open spec fn carried<M>(body: WireBody<M>) -> Option<LinkMessage<M>> {
    match body {
        WireBody::Message(m) => Some(m),
        _ => None,
    }
}

/// Sequenced frames of a burst on the wire, each acknowledging `ack` and
/// granting `credit`.
pub open spec fn wire_burst<M>(frames: Seq<Sequenced<M>>, ack: u8, credit: u8) -> Seq<
    WireFrame<M>,
> {
    Seq::new(
        frames.len(),
        |i: int|
            WireFrame {
                ctrl: SEQ_FLAG | frames[i].0,
                ack,
                credit,
                body: WireBody::Message(frames[i].1),
            },
    )
}

/// Offer a received frame's message to the link when it is a data frame.
pub open spec fn deliver<M>(v: LinkView<M>, frame: WireFrame<M>) -> LinkView<M> {
    match carried(frame.body) {
        Some(m) => v.after_accept(frame.ctrl & SEQ_MASK, m),
        None => v,
    }
}

fn wire_frames<M: Copy>(frames: &Vec<Sequenced<M>>, ack: u8, credit: u8) -> (r: Vec<WireFrame<M>>)
    ensures
        r@ == wire_burst(frames@, ack, credit),
{
    let mut out: Vec<WireFrame<M>> = Vec::new();
    let mut i: usize = 0;
    while i < frames.len()
        invariant
            i <= frames@.len(),
            out@ == wire_burst(frames@.take(i as int), ack, credit),
        decreases frames@.len() - i,
    {
        let (seq, m) = frames[i];
        out.push(WireFrame { ctrl: SEQ_FLAG | seq, ack, credit, body: WireBody::Message(m) });
        assert(out@ =~= wire_burst(frames@.take(i + 1), ack, credit));
        i = i + 1;
    }
    assert(frames@.take(i as int) =~= frames@);
    out
}

fn accept_body<M: Copy>(link: &mut LinkEndpoint<M>, frame: &WireFrame<M>)
    requires
        old(link)@.wf(),
    ensures
        final(link)@.wf(),
        final(link)@ == deliver(old(link)@, *frame),
{
    match frame.body {
        WireBody::Message(m) => link.accept(frame.ctrl & SEQ_MASK, m),
        _ => {},
    }
}

/// Abstract state of the peripheral side.
pub open spec fn peripheral_step<M>(v: LinkView<M>, frame: WireFrame<M>) -> (
    LinkView<M>,
    Seq<WireFrame<M>>,
    bool,
) {
    if is_reset(frame.ctrl) {
        let after = v.after_reset();
        let credit = (INBOX_CAPACITY - after.inbox.len()) as u8;
        (after, seq![WireFrame { ctrl: RESET_FLAG, ack: 0, credit, body: WireBody::Idle }], false)
    } else {
        let h = v.after_header(frame.ack, frame.credit);
        if is_sequenced(frame.ctrl) {
            (deliver(h, frame), Seq::empty(), false)
        } else if frame.body is Poll {
            let after = h.after_burst();
            let credit = (INBOX_CAPACITY - after.inbox.len()) as u8;
            (
                after,
                wire_burst(h.burst(), after.expected, credit).push(
                    WireFrame { ctrl: 0, ack: after.expected, credit, body: WireBody::Idle },
                ),
                h.retransmit_due(),
            )
        } else {
            (h, Seq::empty(), false)
        }
    }
}

/// The peripheral never transmits unprompted: it answers only a session
/// reset or an unsequenced poll.
pub proof fn lemma_peripheral_speaks_only_when_polled<M>(v: LinkView<M>, frame: WireFrame<M>)
    ensures
        peripheral_step(v, frame).1.len() > 0 ==> is_reset(frame.ctrl) || (!is_sequenced(frame.ctrl)
            && frame.body is Poll),
{
}

/// What the peripheral transmits in answer to one received frame.
pub struct Reply<M> {
    pub frames: Vec<WireFrame<M>>,
    /// The reply retransmits a timed-out window.
    pub retransmitted: bool,
}

/// Peripheral side of the polled half-duplex bus.
pub struct HalfDuplexPeripheral<M> {
    pub link: LinkEndpoint<M>,
}

impl<M: Copy> HalfDuplexPeripheral<M> {
    pub fn new() -> (r: Self)
        ensures
            r.link@.wf(),
            r.link@ == LinkEndpoint::<M>::new_view(),
    {
        HalfDuplexPeripheral { link: LinkEndpoint::new() }
    }

    /// Process one received frame. A reset zeroes the sequence state and is
    /// echoed; a data frame is offered to the inbox; a poll is answered with
    /// the pending burst and a terminator; anything else is ignored.
    pub fn on_frame(&mut self, frame: WireFrame<M>) -> (r: Reply<M>)
        requires
            old(self).link@.wf(),
        ensures
            final(self).link@.wf(),
            (final(self).link@, r.frames@, r.retransmitted) == peripheral_step(
                old(self).link@,
                frame,
            ),
    {
        if frame.ctrl & SEQ_FLAG == 0 && frame.ctrl & RESET_FLAG != 0 {
            self.link.reset();
            let credit = self.link.credit();
            let mut frames = Vec::new();
            frames.push(WireFrame { ctrl: RESET_FLAG, ack: 0, credit, body: WireBody::Idle });
            return Reply { frames, retransmitted: false };
        }
        self.link.on_header(frame.ack, frame.credit);
        if frame.ctrl & SEQ_FLAG != 0 {
            accept_body(&mut self.link, &frame);
            return Reply { frames: Vec::new(), retransmitted: false };
        }
        match frame.body {
            WireBody::Poll => {},
            _ => {
                return Reply { frames: Vec::new(), retransmitted: false };
            },
        }
        let burst = self.link.fill_burst();
        let expected = self.link.expected;
        let credit = self.link.credit();
        let mut frames = wire_frames(&burst.frames, expected, credit);
        frames.push(WireFrame { ctrl: 0, ack: expected, credit, body: WireBody::Idle });
        Reply { frames, retransmitted: burst.retransmitted }
    }

    /// Queue an outgoing message. This side cannot drive the bus to make room,
    /// so a full lane refuses the message (and the caller counts the loss).
    pub fn write(&mut self, message: LinkMessage<M>) -> (r: Result<(), ()>)
        requires
            old(self).link@.wf(),
        ensures
            final(self).link@.wf(),
            (r is Ok) == (old(self).link@.lane(spec_lane_of(message.kind)).len() < LANE_CAPACITY),
            r is Err ==> final(self).link@ == old(self).link@,
            r is Ok ==> final(self).link@.lane(spec_lane_of(message.kind)) == old(
                self,
            ).link@.lane(spec_lane_of(message.kind)).push(message),
    {
        self.link.enqueue(message)
    }

    /// Pop the oldest in-order received message.
    pub fn take_received(&mut self) -> (r: Option<LinkMessage<M>>)
        requires
            old(self).link@.wf(),
        ensures
            final(self).link@.wf(),
            old(self).link@.inbox.len() == 0 ==> r is None && final(self).link@ == old(self).link@,
            old(self).link@.inbox.len() > 0 ==> r == Some(old(self).link@.inbox[0]) && final(self).link@ == (
            LinkView { inbox: old(self).link@.inbox.drop_first(), ..old(self).link@ }),
    {
        self.link.take_received()
    }
}

/// Abstract state of the central side.
pub struct CentralView<M> {
    pub link: LinkView<M>,
    /// A response window is open: the peripheral may still be answering.
    pub listening: bool,
    /// The sequence handshake is pending.
    pub session_fresh: bool,
}

/// Central side of the polled half-duplex bus.
pub struct HalfDuplexCentral<M> {
    pub link: LinkEndpoint<M>,
    pub listening: bool,
    pub session_fresh: bool,
}

impl<M> View for HalfDuplexCentral<M> {
    type V = CentralView<M>;

    open spec fn view(&self) -> CentralView<M> {
        CentralView {
            link: self.link@,
            listening: self.listening,
            session_fresh: self.session_fresh,
        }
    }
}

/// The central's state after one frame arrives in an open response window.
pub open spec fn central_receive<M>(c: CentralView<M>, frame: WireFrame<M>) -> CentralView<M> {
    if c.session_fresh {
        if is_reset(frame.ctrl) {
            CentralView { link: c.link.after_reset(), listening: false, session_fresh: false }
        } else {
            c
        }
    } else {
        let h = c.link.after_header(frame.ack, frame.credit);
        if is_sequenced(frame.ctrl) {
            CentralView { link: deliver(h, frame), ..c }
        } else if frame.body is Idle {
            CentralView { link: h, listening: false, ..c }
        } else {
            CentralView { link: h, ..c }
        }
    }
}

/// The central's state and transmissions when it starts an exchange.
pub open spec fn central_exchange<M>(c: CentralView<M>) -> (CentralView<M>, Seq<WireFrame<M>>, bool) {
    let fresh = c.session_fresh || c.link.exchanges_without_ack >= STUCK_ACK_EXCHANGES;
    let credit = (INBOX_CAPACITY - c.link.inbox.len()) as u8;
    if fresh {
        (
            CentralView { listening: true, session_fresh: true, ..c },
            seq![WireFrame { ctrl: RESET_FLAG, ack: 0, credit, body: WireBody::Poll }],
            false,
        )
    } else {
        let after = c.link.after_burst();
        (
            CentralView { link: after, listening: true, session_fresh: false },
            wire_burst(c.link.burst(), after.expected, credit).push(
                WireFrame { ctrl: 0, ack: after.expected, credit, body: WireBody::Poll },
            ),
            c.link.retransmit_due(),
        )
    }
}

impl<M: Copy> HalfDuplexCentral<M> {
    pub fn new() -> (r: Self)
        ensures
            r@.link.wf(),
            r@.link == LinkEndpoint::<M>::new_view(),
            !r@.listening,
            r@.session_fresh,
    {
        HalfDuplexCentral { link: LinkEndpoint::new(), listening: false, session_fresh: true }
    }

    /// Restart the sequence handshake at the next exchange, as every wired
    /// session (re)start must: the peer may have rebooted meanwhile.
    pub fn begin_session(&mut self)
        ensures
            final(self)@ == (CentralView { session_fresh: true, ..old(self)@ }),
    {
        self.session_fresh = true;
    }

    /// Start one exchange: the frames to transmit (a reset poll while the
    /// session handshake is pending, else the burst and a poll); the response
    /// window opens.
    pub fn begin_exchange(&mut self) -> (r: Reply<M>)
        requires
            old(self)@.link.wf(),
        ensures
            final(self)@.link.wf(),
            (final(self)@, r.frames@, r.retransmitted) == central_exchange(old(self)@),
    {
        if self.link.exchanges_without_ack >= STUCK_ACK_EXCHANGES {
            self.session_fresh = true;
        }
        let credit = self.link.credit();
        self.listening = true;
        if self.session_fresh {
            let mut frames = Vec::new();
            frames.push(WireFrame { ctrl: RESET_FLAG, ack: 0, credit, body: WireBody::Poll });
            return Reply { frames, retransmitted: false };
        }
        let burst = self.link.fill_burst();
        let expected = self.link.expected;
        let mut frames = wire_frames(&burst.frames, expected, credit);
        frames.push(WireFrame { ctrl: 0, ack: expected, credit, body: WireBody::Poll });
        Reply { frames, retransmitted: burst.retransmitted }
    }

    /// Process a frame received while the response window is open. While the
    /// handshake is pending only the peripheral's reset echo matters.
    pub fn on_frame(&mut self, frame: WireFrame<M>)
        requires
            old(self)@.link.wf(),
        ensures
            final(self)@.link.wf(),
            final(self)@ == central_receive(old(self)@, frame),
    {
        if self.session_fresh {
            if frame.ctrl & SEQ_FLAG == 0 && frame.ctrl & RESET_FLAG != 0 {
                self.link.reset();
                self.session_fresh = false;
                self.listening = false;
            }
            return ;
        }
        self.link.on_header(frame.ack, frame.credit);
        if frame.ctrl & SEQ_FLAG != 0 {
            accept_body(&mut self.link, &frame);
        } else {
            match frame.body {
                WireBody::Idle => {
                    self.listening = false;
                },
                _ => {},
            }
        }
    }

    /// The response window closed without a terminator: a corrupt frame or a
    /// timeout.
    pub fn close_window(&mut self)
        ensures
            final(self)@ == (CentralView { listening: false, ..old(self)@ }),
    {
        self.listening = false;
    }

    /// Queue an outgoing message; `Err` when its lane is full, in which case
    /// the caller drives exchanges until it fits.
    pub fn enqueue(&mut self, message: LinkMessage<M>) -> (r: Result<(), ()>)
        requires
            old(self)@.link.wf(),
        ensures
            final(self)@.link.wf(),
            final(self)@.listening == old(self)@.listening,
            final(self)@.session_fresh == old(self)@.session_fresh,
            (r is Ok) == (old(self)@.link.lane(spec_lane_of(message.kind)).len() < LANE_CAPACITY),
            r is Err ==> final(self)@ == old(self)@,
            r is Ok ==> final(self)@.link.lane(spec_lane_of(message.kind)) == old(
                self,
            )@.link.lane(spec_lane_of(message.kind)).push(message),
    {
        self.link.enqueue(message)
    }

    /// Pop the oldest in-order received message.
    pub fn take_received(&mut self) -> (r: Option<LinkMessage<M>>)
        requires
            old(self)@.link.wf(),
        ensures
            final(self)@.link.wf(),
            final(self)@.listening == old(self)@.listening,
            final(self)@.session_fresh == old(self)@.session_fresh,
            old(self)@.link.inbox.len() == 0 ==> r is None && final(self)@.link == old(self)@.link,
            old(self)@.link.inbox.len() > 0 ==> r == Some(old(self)@.link.inbox[0]) && final(self)@.link == (
            LinkView { inbox: old(self)@.link.inbox.drop_first(), ..old(self)@.link }),
    {
        self.link.take_received()
    }
}

} // verus!
