//! The split central's side of BLE: finding peripherals in scan reports,
//! remembering their addresses, connection parameters of the split link,
//! and its sleep management.
use vstd::prelude::*;

verus! {

/// The split service UUID as it appears in an advertisement (little-endian).
pub open spec fn split_service_uuid() -> Seq<u8> {
    seq![70u8, 153u8, 101u8, 152u8, 54u8, 53u8, 10u8, 191u8, 7u8, 75u8, 229u8, 24u8, 170u8, 251u8, 213u8, 77u8]
}

/// Manufacturer-data header that precedes the peripheral id.
pub open spec fn split_msd_header() -> Seq<u8> {
    seq![0x04u8, 0xFFu8, 0x18u8, 0xE1u8]
}

/// A scan report names a split peripheral: a complete 128-bit UUID list
/// holding the split service at byte 5, then the manufacturer data header.
pub open spec fn is_split_report(data: Seq<u8>) -> bool {
    &&& data.len() >= 25
    &&& data[4] == 0x07
    &&& data.subrange(5, 21) == split_service_uuid()
    &&& data.subrange(21, 25) == split_msd_header()
}

/// The peripheral id a scan report announces, if it is a split
/// peripheral's; the id is the byte after the header.
pub fn split_peripheral_from_report(data: &[u8]) -> (r: Option<u8>)
    requires
        is_split_report(data@) ==> data@.len() > 25,
    ensures
        is_split_report(data@) ==> r == Some(data@[25]),
        !is_split_report(data@) ==> r is None,
{
    if data.len() < 25 {
        return None;
    }
    let uuid: [u8; 16] = [70, 153, 101, 152, 54, 53, 10, 191, 7, 75, 229, 24, 170, 251, 213, 77];
    let header: [u8; 4] = [0x04, 0xFF, 0x18, 0xE1];
    if data[4] != 0x07 {
        return None;
    }
    let mut i: usize = 0;
    while i < 16
        invariant
            data@.len() >= 25,
            i <= 16,
            uuid@ == split_service_uuid(),
            forall|j: int| 0 <= j < i ==> data@[5 + j] == split_service_uuid()[j],
        decreases 16 - i,
    {
        if data[5 + i] != uuid[i] {
            assert(data@.subrange(5, 21)[i as int] != split_service_uuid()[i as int]);
            return None;
        }
        i = i + 1;
    }
    assert(data@.subrange(5, 21) =~= split_service_uuid());
    let mut k: usize = 0;
    while k < 4
        invariant
            data@.len() >= 25,
            k <= 4,
            header@ == split_msd_header(),
            forall|j: int| 0 <= j < k ==> data@[21 + j] == split_msd_header()[j],
        decreases 4 - k,
    {
        if data[21 + k] != header[k] {
            assert(data@.subrange(21, 25)[k as int] != split_msd_header()[k as int]);
            return None;
        }
        k = k + 1;
    }
    assert(data@.subrange(21, 25) =~= split_msd_header());
    Some(data[25])
}

/// What a found peripheral address means for the stored addresses.
#[derive(Clone, Copy, Debug, PartialEq, Eq, Structural)]
pub enum FoundPeer {
    /// The slot already holds this address.
    Known,
    /// The slot was empty and now holds the address, to be persisted.
    Stored,
    /// The slot holds another address, or the id is out of range.
    Ignored,
}

fn same_addr(a: [u8; 6], b: [u8; 6]) -> (r: bool)
    ensures
        r == (a@ == b@),
{
    let mut i: usize = 0;
    while i < 6
        invariant
            i <= 6,
            forall|j: int| 0 <= j < i ==> a@[j] == b@[j],
        decreases 6 - i,
    {
        if a[i] != b[i] {
            return false;
        }
        i = i + 1;
    }
    assert(a@ =~= b@);
    true
}

/// Record a scanned peripheral: an empty slot takes the address.
pub fn on_peripheral_found(addrs: &mut Vec<Option<[u8; 6]>>, id: u8, addr: [u8; 6]) -> (r: FoundPeer)
    ensures
        final(addrs)@.len() == old(addrs)@.len(),
        (id as int) < old(addrs)@.len() && old(addrs)@[id as int] is None ==> r == FoundPeer::Stored
            && final(addrs)@ == old(addrs)@.update(id as int, Some(addr)),
        (id as int) < old(addrs)@.len() ==> (old(addrs)@[id as int] matches Some(a) && a@ == addr@ ==> r
            == FoundPeer::Known && final(addrs)@ == old(addrs)@),
        (id as int) < old(addrs)@.len() ==> (old(addrs)@[id as int] matches Some(a) && a@ != addr@ ==> r
            == FoundPeer::Ignored && final(addrs)@ == old(addrs)@),
        (id as int) >= old(addrs)@.len() ==> r == FoundPeer::Ignored && final(addrs)@ == old(addrs)@,
{
    let i = id as usize;
    if i >= addrs.len() {
        return FoundPeer::Ignored;
    }
    match addrs[i] {
        Some(a) => if same_addr(a, addr) { FoundPeer::Known } else { FoundPeer::Ignored },
        None => {
            addrs.set(i, Some(addr));
            FoundPeer::Stored
        },
    }
}

/// Every peripheral's address is known: scanning can stop.
pub fn all_found(addrs: &Vec<Option<[u8; 6]>>) -> (r: bool)
    ensures
        r == forall|i: int| 0 <= i < addrs@.len() ==> addrs@[i] is Some,
{
    let mut i: usize = 0;
    while i < addrs.len()
        invariant
            i <= addrs@.len(),
            forall|j: int| 0 <= j < i ==> addrs@[j] is Some,
        decreases addrs@.len() - i,
    {
        if addrs[i].is_none() {
            return false;
        }
        i = i + 1;
    }
    true
}

/// Connection interval of the split link (µs).
pub const SPLIT_INTERVAL_US: u64 = 7_500;
/// Lowest supervision timeout of the split link (µs).
pub const MIN_SUPERVISION_US: u64 = 2_000_000;

/// Requested parameters of a split connection.
#[derive(Clone, Copy, Debug, PartialEq, Eq, Structural)]
pub struct SplitConnParams {
    pub interval_us: u64,
    pub max_latency: u16,
    pub supervision_timeout_us: u64,
}

/// The split link's parameters for a peripheral latency: a 7.5 ms interval,
/// and supervision of three times the longest legal radio silence
/// (interval × (1 + latency)), at least two seconds.
pub fn central_conn_params(max_latency: u16) -> (r: SplitConnParams)
    ensures
        r.interval_us == SPLIT_INTERVAL_US,
        r.max_latency == max_latency,
        r.supervision_timeout_us == if 3 * SPLIT_INTERVAL_US * (1 + max_latency) >= MIN_SUPERVISION_US {
            3 * SPLIT_INTERVAL_US * (1 + max_latency)
        } else {
            MIN_SUPERVISION_US as int
        },
{
    let l = max_latency as u64;
    assert(SPLIT_INTERVAL_US * (1 + l) <= 7_500 * 65_536) by (nonlinear_arith)
        requires
            l <= 65_535,
    ;
    let period: u64 = SPLIT_INTERVAL_US * (1 + l);
    let three = 3 * period;
    assert(three == 3 * SPLIT_INTERVAL_US * (1 + max_latency)) by (nonlinear_arith)
        requires
            three == 3 * period,
            period == SPLIT_INTERVAL_US * (1 + l),
            l == max_latency,
    ;
    SplitConnParams {
        interval_us: SPLIT_INTERVAL_US,
        max_latency,
        supervision_timeout_us: if three >= MIN_SUPERVISION_US { three } else { MIN_SUPERVISION_US },
    }
}

/// Supervision always outlasts the longest legal silence of the link.
pub proof fn lemma_supervision_outlasts_silence(max_latency: u16)
    by (nonlinear_arith)
    ensures
        ({
            let sup = if 3 * SPLIT_INTERVAL_US * (1 + max_latency) >= MIN_SUPERVISION_US {
                3 * SPLIT_INTERVAL_US * (1 + max_latency)
            } else {
                MIN_SUPERVISION_US as int
            };
            sup > SPLIT_INTERVAL_US * (1 + max_latency)
        }),
{
}

/// What woke the sleep manager.
#[derive(Clone, Copy, Debug, PartialEq, Eq, Structural)]
pub enum SleepEvent {
    /// The inactivity timeout ran out.
    Timeout,
    /// `true`: the host asked to sleep; `false`: activity.
    Signal(bool),
    /// The latency policy or power source changed.
    LatencyChanged,
}

/// Parameters to request of the split link.
#[derive(Clone, Copy, Debug, PartialEq, Eq, Structural)]
pub enum LinkParams {
    /// The active parameters for the current latency policy.
    Active,
    /// A 200 ms interval while the central sleeps.
    Sleep,
}

/// One step of the split central's sleep manager. With sleep management
/// disabled only latency changes matter. Awake, a timeout or a sleep
/// request puts the link to sleep and activity restarts the wait; asleep,
/// only activity wakes it. A latency change re-applies the active
/// parameters while awake (or always, when sleep is disabled).
pub fn sleep_step(sleep_enabled: bool, sleeping: bool, event: SleepEvent) -> (r: (bool, Option<LinkParams>))
    ensures
        r == sleep_step_spec(sleep_enabled, sleeping, event),
{
    if !sleep_enabled {
        return (sleeping, match event {
            SleepEvent::LatencyChanged => Some(LinkParams::Active),
            _ => None,
        });
    }
    if !sleeping {
        match event {
            SleepEvent::Timeout => (true, Some(LinkParams::Sleep)),
            SleepEvent::Signal(s) => if s { (true, Some(LinkParams::Sleep)) } else { (false, None) },
            SleepEvent::LatencyChanged => (false, Some(LinkParams::Active)),
        }
    } else {
        match event {
            SleepEvent::Signal(s) => if !s { (false, Some(LinkParams::Active)) } else { (true, None) },
            _ => (true, None),
        }
    }
}

/// Activity always leaves the link awake with its active parameters in
/// place; a sleeping link stays asleep until activity.
pub proof fn lemma_activity_wakes(sleeping: bool, event: SleepEvent)
    ensures
        !sleep_step_spec(true, sleeping, SleepEvent::Signal(false)).0,
        sleeping ==> sleep_step_spec(true, sleeping, SleepEvent::Signal(false)).1 == Some(LinkParams::Active),
        sleeping && event != SleepEvent::Signal(false) ==> sleep_step_spec(true, sleeping, event).0,
{
}

pub open spec fn sleep_step_spec(sleep_enabled: bool, sleeping: bool, event: SleepEvent) -> (bool, Option<LinkParams>) {
    if !sleep_enabled {
        (sleeping, if event == SleepEvent::LatencyChanged { Some(LinkParams::Active) } else { None })
    } else if !sleeping {
        match event {
            SleepEvent::Timeout | SleepEvent::Signal(true) => (true, Some(LinkParams::Sleep)),
            SleepEvent::Signal(false) => (false, None),
            SleepEvent::LatencyChanged => (false, Some(LinkParams::Active)),
        }
    } else {
        match event {
            SleepEvent::Signal(false) => (false, Some(LinkParams::Active)),
            _ => (true, None),
        }
    }
}

} // verus!
