//! Routing of HID reports and host-protocol replies to the active
//! transport.
//!
//! Every report is tagged with the route (BLE profile and route generation)
//! it was produced under, so a report that outlives a transport switch is
//! dropped instead of reaching the wrong host. When the active transport
//! changes, the previous one's queue is replaced by neutral (all-released)
//! reports so its host releases any pressed state.
use vstd::prelude::*;
use std::collections::VecDeque;

verus! {

/// A host transport.
#[derive(Clone, Copy, Debug, PartialEq, Eq, Structural)]
pub enum Transport {
    Usb,
    Ble,
}

/// Where reports go now.
#[derive(Clone, Copy, Debug, PartialEq, Eq, Structural)]
pub struct ReportRoute {
    pub active: Option<Transport>,
    pub ble_profile: u8,
    pub generation: u32,
}

/// A report tagged with its route.
#[derive(Clone, Copy, Debug)]
pub struct Routed<R> {
    pub slot: u8,
    pub route_generation: u32,
    /// Neutral reports of a transport switch, delivered regardless of route.
    pub force: bool,
    pub report: R,
}

/// A bounded first-in first-out queue that refuses items when full.
pub struct BoundedQueue<T> {
    items: VecDeque<T>,
    capacity: usize,
}

impl<T> BoundedQueue<T> {
    pub closed spec fn spec_items(&self) -> Seq<T> {
        self.items@
    }

    pub closed spec fn spec_capacity(&self) -> usize {
        self.capacity
    }

    pub closed spec fn wf(&self) -> bool {
        self.items@.len() <= self.capacity
    }

    /// An empty queue of `capacity` items.
    pub fn new(capacity: usize) -> (r: Self)
        ensures
            r.wf(),
            r.spec_items() == Seq::<T>::empty(),
            r.spec_capacity() == capacity,
    {
        BoundedQueue { items: VecDeque::new(), capacity }
    }

    /// Queue `item`, or hand it back when the queue is full.
    pub fn try_send(&mut self, item: T) -> (r: Result<(), T>)
        requires
            old(self).wf(),
        ensures
            final(self).wf(),
            final(self).spec_capacity() == old(self).spec_capacity(),
            old(self).spec_items().len() < old(self).spec_capacity() ==> r is Ok && final(self).spec_items()
                == old(self).spec_items().push(item),
            old(self).spec_items().len() >= old(self).spec_capacity() ==> r == Err::<(), T>(item)
                && final(self).spec_items() == old(self).spec_items(),
    {
        if self.items.len() < self.capacity {
            self.items.push_back(item);
            Ok(())
        } else {
            Err(item)
        }
    }

    /// Queue `item`; when full, the oldest item gives way.
    pub fn push_drop_oldest(&mut self, item: T)
        requires
            old(self).wf(),
            old(self).spec_capacity() > 0,
        ensures
            final(self).wf(),
            final(self).spec_capacity() == old(self).spec_capacity(),
            old(self).spec_items().len() < old(self).spec_capacity() ==> final(self).spec_items()
                == old(self).spec_items().push(item),
            old(self).spec_items().len() >= old(self).spec_capacity() ==> final(self).spec_items()
                == old(self).spec_items().skip(1).push(item),
    {
        if self.items.len() >= self.capacity {
            let ghost before = self.items@;
            let _ = self.items.pop_front();
            self.items.push_back(item);
            assert(self.items@ =~= before.skip(1).push(item));
        } else {
            self.items.push_back(item);
        }
    }

    /// The oldest item, if any.
    pub fn try_receive(&mut self) -> (r: Option<T>)
        requires
            old(self).wf(),
        ensures
            final(self).wf(),
            final(self).spec_capacity() == old(self).spec_capacity(),
            old(self).spec_items().len() == 0 ==> r is None && final(self).spec_items() == old(self).spec_items(),
            old(self).spec_items().len() > 0 ==> r == Some(old(self).spec_items()[0])
                && final(self).spec_items() == old(self).spec_items().skip(1),
    {
        self.items.pop_front()
    }

    /// Drop everything queued.
    pub fn clear(&mut self)
        ensures
            final(self).wf(),
            final(self).spec_capacity() == old(self).spec_capacity(),
            final(self).spec_items() == Seq::<T>::empty(),
    {
        self.items.clear();
    }

    /// Number of queued items.
    pub fn len(&self) -> (r: usize)
        ensures
            r == self.spec_items().len(),
    {
        self.items.len()
    }

    /// Nothing is queued.
    pub fn is_empty(&self) -> (r: bool)
        ensures
            r == (self.spec_items().len() == 0),
    {
        self.items.len() == 0
    }

    /// No room for another item.
    pub fn is_full(&self) -> (r: bool)
        ensures
            r == (self.spec_items().len() >= self.spec_capacity()),
    {
        self.items.len() >= self.capacity
    }
}

/// Where a freshly produced report goes.
#[derive(Clone, Copy, Debug, PartialEq, Eq, Structural)]
pub enum Dispatch {
    /// No transport is active, but a sleeping BLE slot captures wake reports.
    WakeCapture,
    /// To the BLE queue, tagged with the profile and route generation.
    Ble { slot: u8, generation: u32 },
    /// To the USB queue, tagged with the route generation.
    Usb { generation: u32 },
    /// Nowhere: no transport is active.
    Drop,
}

/// Decide where a report produced under `route` goes.
pub fn dispatch_report(route: ReportRoute, wake_capture_armed: bool) -> (r: Dispatch)
    ensures
        r == match route.active {
            None => if wake_capture_armed { Dispatch::WakeCapture } else { Dispatch::Drop },
            Some(Transport::Ble) => Dispatch::Ble { slot: route.ble_profile, generation: route.generation },
            Some(Transport::Usb) => Dispatch::Usb { generation: route.generation },
        },
{
    match route.active {
        None => if wake_capture_armed { Dispatch::WakeCapture } else { Dispatch::Drop },
        Some(Transport::Ble) => Dispatch::Ble { slot: route.ble_profile, generation: route.generation },
        Some(Transport::Usb) => Dispatch::Usb { generation: route.generation },
    }
}

/// A blocked BLE send keeps waiting only while the route it was made for
/// is still the current one.
pub fn ble_send_still_routed(current: ReportRoute, slot: u8, generation: u32) -> (r: bool)
    ensures
        r == (current.active == Some(Transport::Ble) && current.ble_profile == slot && current.generation
            == generation),
{
    match current.active {
        Some(Transport::Ble) => current.ble_profile == slot && current.generation == generation,
        _ => false,
    }
}

/// A blocked USB send keeps waiting only while USB stays active under the
/// same route generation.
pub fn usb_send_still_routed(current: ReportRoute, generation: u32) -> (r: bool)
    ensures
        r == (current.active == Some(Transport::Usb) && current.generation == generation),
{
    match current.active {
        Some(Transport::Usb) => current.generation == generation,
        _ => false,
    }
}

/// Replace a transport's queue by forced neutral reports for `route`, as
/// many as fit: its host then releases any pressed state and nothing stale
/// is replayed later.
pub fn clear_and_release<R: Copy>(queue: &mut BoundedQueue<Routed<R>>, route: ReportRoute, neutral: &Vec<R>)
    requires
        old(queue).wf(),
    ensures
        final(queue).wf(),
        final(queue).spec_capacity() == old(queue).spec_capacity(),
        final(queue).spec_items().len() == if neutral@.len() < old(queue).spec_capacity() {
            neutral@.len()
        } else {
            old(queue).spec_capacity() as nat
        },
        forall|i: int| 0 <= i < final(queue).spec_items().len() ==> {
            let it = #[trigger] final(queue).spec_items()[i];
            &&& it.force
            &&& it.slot == route.ble_profile
            &&& it.route_generation == route.generation
            &&& it.report == neutral@[i]
        },
{
    queue.clear();
    let mut i: usize = 0;
    while i < neutral.len()
        invariant
            queue.wf(),
            queue.spec_capacity() == old(queue).spec_capacity(),
            i <= neutral@.len(),
            queue.spec_items().len() == if i < queue.spec_capacity() { i as nat } else { queue.spec_capacity() as nat },
            forall|k: int| 0 <= k < queue.spec_items().len() ==> {
                let it = #[trigger] queue.spec_items()[k];
                &&& it.force
                &&& it.slot == route.ble_profile
                &&& it.route_generation == route.generation
                &&& it.report == neutral@[k]
            },
        decreases neutral@.len() - i,
    {
        let _ = queue.try_send(
            Routed { slot: route.ble_profile, route_generation: route.generation, force: true, report: neutral[i] },
        );
        i = i + 1;
    }
}

/// The transport a host-protocol request came from.
#[derive(Clone, Copy, Debug, PartialEq, Eq, Structural)]
pub enum HostRequestOrigin {
    Usb,
    Ble { slot: u8, generation: u32 },
}

/// A host-protocol reply bound for a BLE slot.
#[derive(Clone, Copy, Debug)]
pub struct BleHostReply {
    pub slot: u8,
    pub generation: u32,
    pub data: [u8; 32],
}

/// The per-transport reply queues.
pub struct HostReplies {
    pub usb: BoundedQueue<[u8; 32]>,
    pub ble: BoundedQueue<BleHostReply>,
}

/// Route a reply back to the transport its request came from. Returns
/// whether it was queued; a full queue drops it.
pub fn try_send_host_reply(replies: &mut HostReplies, origin: HostRequestOrigin, reply: [u8; 32]) -> (ok: bool)
    requires
        old(replies).usb.wf(),
        old(replies).ble.wf(),
    ensures
        final(replies).usb.wf() && final(replies).ble.wf(),
        final(replies).usb.spec_capacity() == old(replies).usb.spec_capacity(),
        final(replies).ble.spec_capacity() == old(replies).ble.spec_capacity(),
        (match origin {
            HostRequestOrigin::Usb => {
                &&& final(replies).ble.spec_items() == old(replies).ble.spec_items()
                &&& ok == (old(replies).usb.spec_items().len() < old(replies).usb.spec_capacity())
                &&& ok ==> final(replies).usb.spec_items() == old(replies).usb.spec_items().push(reply)
                &&& !ok ==> final(replies).usb.spec_items() == old(replies).usb.spec_items()
            },
            HostRequestOrigin::Ble { slot, generation } => {
                &&& final(replies).usb.spec_items() == old(replies).usb.spec_items()
                &&& ok == (old(replies).ble.spec_items().len() < old(replies).ble.spec_capacity())
                &&& ok ==> final(replies).ble.spec_items() == old(replies).ble.spec_items().push(
                    BleHostReply { slot, generation, data: reply },
                )
                &&& !ok ==> final(replies).ble.spec_items() == old(replies).ble.spec_items()
            },
        }),
{
    match origin {
        HostRequestOrigin::Usb => replies.usb.try_send(reply).is_ok(),
        HostRequestOrigin::Ble { slot, generation } => replies.ble.try_send(
            BleHostReply { slot, generation, data: reply },
        ).is_ok(),
    }
}

/// A queued BLE reply still goes out: its slot is not being cleared and
/// its connection is the one (same generation) the request came from.
pub fn ble_reply_deliverable(reply_slot: u8, reply_generation: u32, slot_pending_clear: bool, conn_slot: u8, conn_generation: u32, conn_ready: bool) -> (r: bool)
    ensures
        r == (!slot_pending_clear && conn_slot == reply_slot && conn_generation == reply_generation && conn_ready),
{
    !slot_pending_clear && conn_slot == reply_slot && conn_generation == reply_generation && conn_ready
}

} // verus!
