//! Advertising payloads: the AD structures RMK advertises, encoded by the
//! BLE host stack into the 31-byte legacy advertising (or scan response)
//! buffer.
use vstd::prelude::*;
use trouble_host::prelude::AdStructure;
use crate::ble::{AdvKind, RMK_ADV_COMPANY_ID, SPLIT_PERIPHERAL, DONGLE_SEEKING, spec_decode_adv};

verus! {

/// Bytes of a legacy advertising or scan-response payload.
pub const LEGACY_ADV_LEN: usize = 31;
/// Flags: LE general discoverable mode.
pub const LE_GENERAL_DISCOVERABLE: u8 = 0x02;
/// Flags: BR/EDR not supported.
pub const BR_EDR_NOT_SUPPORTED: u8 = 0x04;
/// AD type of the GAP appearance.
pub const AD_TYPE_APPEARANCE: u8 = 0x19;
/// Longest name a shortened-local-name structure carries.
pub const SHORTENED_NAME_MAX: usize = 29;

/// One AD structure.
pub enum AdItem {
    Flags(u8),
    /// Complete list of 16-bit service UUIDs (little-endian).
    CompleteServiceUuids16(Vec<[u8; 2]>),
    CompleteLocalName(Vec<u8>),
    ShortenedLocalName(Vec<u8>),
    /// A structure by raw type byte.
    Unknown { ty: u8, data: Vec<u8> },
    ManufacturerSpecificData { company_identifier: u16, payload: Vec<u8> },
}

/// The UUID list flattened to bytes.
pub open spec fn uuid_bytes(u: Seq<[u8; 2]>) -> Seq<u8>
    decreases u.len(),
{
    if u.len() == 0 {
        Seq::empty()
    } else {
        uuid_bytes(u.drop_last()) + u.last()@
    }
}

/// One structure on the wire: length (of type and data), type, data.
pub open spec fn spec_ad_item(item: AdItem) -> Seq<u8> {
    match item {
        AdItem::Flags(f) => seq![2u8, 1u8, f],
        AdItem::CompleteServiceUuids16(u) => seq![(u@.len() * 2 + 1) as u8, 3u8] + uuid_bytes(u@),
        AdItem::CompleteLocalName(n) => seq![(n@.len() + 1) as u8, 9u8] + n@,
        AdItem::ShortenedLocalName(n) => seq![(n@.len() + 1) as u8, 8u8] + n@,
        AdItem::Unknown { ty, data } => seq![(data@.len() + 1) as u8, ty] + data@,
        AdItem::ManufacturerSpecificData { company_identifier, payload } => seq![
            (payload@.len() + 3) as u8,
            0xFFu8,
            (company_identifier % 256) as u8,
            (company_identifier / 256) as u8,
        ] + payload@,
    }
}

/// The structures back to back.
pub open spec fn spec_ad_bytes(items: Seq<AdItem>) -> Seq<u8>
    decreases items.len(),
{
    if items.len() == 0 {
        Seq::empty()
    } else {
        spec_ad_bytes(items.drop_last()) + spec_ad_item(items.last())
    }
}

/// Encode with `trouble_host::AdStructure::encode_slice` into a buffer of
/// `capacity` bytes.
///
/// Trusted: the crate writes each structure as length, type and data, in
/// order (a `u16` company identifier little-endian), and fails exactly when
/// they do not all fit the buffer.
#[verifier::external_body]
fn encode_slice(items: &[AdItem], capacity: usize) -> (r: Option<Vec<u8>>)
    ensures
        (match r {
            Some(v) => v@ == spec_ad_bytes(items@) && v@.len() <= capacity,
            None => spec_ad_bytes(items@).len() > capacity,
        }),
{
    let list: Vec<AdStructure> = items.iter().map(|item| match item {
        AdItem::Flags(f) => AdStructure::Flags(*f),
        AdItem::CompleteServiceUuids16(u) => AdStructure::CompleteServiceUuids16(u),
        AdItem::CompleteLocalName(n) => AdStructure::CompleteLocalName(n),
        AdItem::ShortenedLocalName(n) => AdStructure::ShortenedLocalName(n),
        AdItem::Unknown { ty, data } => AdStructure::Unknown { ty: *ty, data },
        AdItem::ManufacturerSpecificData { company_identifier: c, payload: p } => AdStructure::ManufacturerSpecificData { company_identifier: *c, payload: p },
    }).collect();
    let mut buf = vec![0u8; capacity];
    match AdStructure::encode_slice(&list, &mut buf) {
        Ok(n) => Some(buf[..n].to_vec()),
        Err(_) => None,
    }
}

fn copy_bytes(v: &[u8]) -> (r: Vec<u8>)
    ensures
        r@ == v@,
{
    let mut out: Vec<u8> = Vec::new();
    let mut i: usize = 0;
    while i < v.len()
        invariant
            i <= v@.len(),
            out@ == v@.take(i as int),
        decreases v@.len() - i,
    {
        out.push(v[i]);
        assert(out@ =~= v@.take(i + 1));
        i = i + 1;
    }
    assert(v@.take(i as int) =~= v@);
    out
}

/// The keyboard appearance, little-endian.
pub open spec fn keyboard_appearance() -> Seq<u8> {
    seq![0xC1u8, 0x03u8]
}

fn services_item() -> (r: AdItem)
    ensures
        r matches AdItem::CompleteServiceUuids16(u) && u@.len() == 2 && uuid_bytes(u@) == seq![0x0Fu8, 0x18u8, 0x12u8, 0x18u8],
{
    let mut battery = [0u8; 2];
    battery[0] = 0x0F;
    battery[1] = 0x18;
    let mut hid = [0u8; 2];
    hid[0] = 0x12;
    hid[1] = 0x18;
    assert(battery@ =~= seq![0x0Fu8, 0x18u8]);
    assert(hid@ =~= seq![0x12u8, 0x18u8]);
    let mut u: Vec<[u8; 2]> = Vec::new();
    u.push(battery);
    u.push(hid);
    proof {
        reveal_with_fuel(uuid_bytes, 3);
        assert(u@.drop_last().drop_last() =~= Seq::<[u8; 2]>::empty());
        assert(u@.drop_last().last() == battery);
        assert(u@.last() == hid);
        assert(uuid_bytes(u@) =~= seq![0x0Fu8, 0x18u8, 0x12u8, 0x18u8]);
    }
    AdItem::CompleteServiceUuids16(u)
}

fn appearance_item() -> (r: AdItem)
    ensures
        r matches AdItem::Unknown { ty, data } && ty == AD_TYPE_APPEARANCE && data@ == keyboard_appearance(),
{
    let mut d: Vec<u8> = Vec::new();
    d.push(0xC1);
    d.push(0x03);
    assert(d@ =~= keyboard_appearance());
    AdItem::Unknown { ty: AD_TYPE_APPEARANCE, data: d }
}

/// The payload of an advertisement.
pub enum AdvPayload {
    /// A directed advertisement carries no data.
    Directed,
    Data(Vec<u8>),
    /// The structures do not fit a legacy advertisement.
    TooLong,
}

/// The bytes of an RMK peer advertisement: no-BR/EDR flags and the RMK
/// manufacturer data naming the kind.
pub open spec fn rmk_peer_adv(payload: Seq<u8>) -> Seq<u8> {
    seq![2u8, 1u8, BR_EDR_NOT_SUPPORTED, (payload.len() + 3) as u8, 0xFFu8, 0x53u8, 0x52u8] + payload
}

/// The bytes of a host advertisement: discoverable flags, the HID service
/// list, the complete name and the keyboard appearance.
pub open spec fn host_adv(name: Seq<u8>) -> Seq<u8> {
    seq![2u8, 1u8, (LE_GENERAL_DISCOVERABLE | BR_EDR_NOT_SUPPORTED) as u8, 5u8, 3u8, 0x0Fu8, 0x18u8, 0x12u8, 0x18u8]
        + seq![(name.len() + 1) as u8, 9u8] + name + seq![3u8, AD_TYPE_APPEARANCE, 0xC1u8, 0x03u8]
}

/// Build an advertisement: directed ones carry no data; a host one names
/// the keyboard; split and dongle ones name themselves to RMK only.
pub fn build_adv(kind: AdvKind, name: &[u8]) -> (r: AdvPayload)
    ensures
        (match kind {
            AdvKind::Directed => r is Directed,
            AdvKind::Host => {
                let b = host_adv(name@);
                if b.len() <= LEGACY_ADV_LEN { r matches AdvPayload::Data(v) && v@ == b } else { r is TooLong }
            },
            AdvKind::SplitPeripheral { id } => r matches AdvPayload::Data(v) && v@ == rmk_peer_adv(seq![SPLIT_PERIPHERAL, id]),
            AdvKind::DongleSeeking => r matches AdvPayload::Data(v) && v@ == rmk_peer_adv(seq![DONGLE_SEEKING]),
        }),
{
    let mut items: Vec<AdItem> = Vec::new();
    match kind {
        AdvKind::Directed => {
            return AdvPayload::Directed;
        },
        AdvKind::Host => {
            items.push(AdItem::Flags(LE_GENERAL_DISCOVERABLE | BR_EDR_NOT_SUPPORTED));
            items.push(services_item());
            items.push(AdItem::CompleteLocalName(copy_bytes(name)));
            items.push(appearance_item());
            proof {
                reveal_with_fuel(spec_ad_bytes, 5);
                let it = items@;
                assert(it.drop_last().drop_last().drop_last().drop_last() =~= Seq::<AdItem>::empty());
                assert(spec_ad_bytes(it) =~= host_adv(name@));
            }
        },
        AdvKind::SplitPeripheral { id } => {
            items.push(AdItem::Flags(BR_EDR_NOT_SUPPORTED));
            let mut p: Vec<u8> = Vec::new();
            p.push(SPLIT_PERIPHERAL);
            p.push(id);
            let ghost payload = p@;
            items.push(AdItem::ManufacturerSpecificData { company_identifier: RMK_ADV_COMPANY_ID, payload: p });
            proof {
                reveal_with_fuel(spec_ad_bytes, 3);
                let it = items@;
                assert(it.drop_last().drop_last() =~= Seq::<AdItem>::empty());
                assert(spec_ad_bytes(it) =~= rmk_peer_adv(seq![SPLIT_PERIPHERAL, id]));
            }
        },
        AdvKind::DongleSeeking => {
            items.push(AdItem::Flags(BR_EDR_NOT_SUPPORTED));
            let mut p: Vec<u8> = Vec::new();
            p.push(DONGLE_SEEKING);
            items.push(AdItem::ManufacturerSpecificData { company_identifier: RMK_ADV_COMPANY_ID, payload: p });
            proof {
                reveal_with_fuel(spec_ad_bytes, 3);
                let it = items@;
                assert(it.drop_last().drop_last() =~= Seq::<AdItem>::empty());
                assert(spec_ad_bytes(it) =~= rmk_peer_adv(seq![DONGLE_SEEKING]));
            }
        },
    }
    match encode_slice(items.as_slice(), LEGACY_ADV_LEN) {
        Some(v) => AdvPayload::Data(v),
        None => AdvPayload::TooLong,
    }
}

/// The discoverable structures without the name: flags, services, appearance.
pub open spec fn host_base_adv() -> Seq<u8> {
    seq![2u8, 1u8, (LE_GENERAL_DISCOVERABLE | BR_EDR_NOT_SUPPORTED) as u8, 5u8, 3u8, 0x0Fu8, 0x18u8, 0x12u8, 0x18u8,
        3u8, AD_TYPE_APPEARANCE, 0xC1u8, 0x03u8]
}

/// Advertising and scan-response payloads of a host advertisement.
pub struct HostAdvertisement {
    pub adv_data: Vec<u8>,
    pub scan_data: Vec<u8>,
}

/// The payloads advertised to hosts. A visible advertisement names the
/// keyboard in the advertising data when everything fits, else moves the
/// name to the scan response (shortened to what fits there); a hidden one
/// carries only its flags.
pub fn host_advertisement(name: &[u8], visible: bool) -> (r: HostAdvertisement)
    ensures
        !visible ==> r.adv_data@ == seq![2u8, 1u8, BR_EDR_NOT_SUPPORTED] && r.scan_data@.len() == 0,
        visible && host_adv(name@).len() <= LEGACY_ADV_LEN ==> r.adv_data@ == host_adv(name@)
            && r.scan_data@.len() == 0,
        visible && host_adv(name@).len() > LEGACY_ADV_LEN ==> r.adv_data@ == host_base_adv() && r.scan_data@ == if name@.len()
            + 2 <= LEGACY_ADV_LEN {
            seq![(name@.len() + 1) as u8, 9u8] + name@
        } else {
            seq![(SHORTENED_NAME_MAX + 1) as u8, 8u8] + name@.take(SHORTENED_NAME_MAX as int)
        },
{
    if !visible {
        let mut items: Vec<AdItem> = Vec::new();
        items.push(AdItem::Flags(BR_EDR_NOT_SUPPORTED));
        proof {
            reveal_with_fuel(spec_ad_bytes, 2);
            assert(items@.drop_last() =~= Seq::<AdItem>::empty());
            assert(spec_ad_bytes(items@) =~= seq![2u8, 1u8, BR_EDR_NOT_SUPPORTED]);
        }
        let adv_data = match encode_slice(items.as_slice(), LEGACY_ADV_LEN) {
            Some(v) => v,
            None => Vec::new(),
        };
        return HostAdvertisement { adv_data, scan_data: Vec::new() };
    }
    match build_adv(AdvKind::Host, name) {
        AdvPayload::Data(v) => {
            return HostAdvertisement { adv_data: v, scan_data: Vec::new() };
        },
        _ => {},
    }
    let mut base: Vec<AdItem> = Vec::new();
    base.push(AdItem::Flags(LE_GENERAL_DISCOVERABLE | BR_EDR_NOT_SUPPORTED));
    base.push(services_item());
    base.push(appearance_item());
    proof {
        reveal_with_fuel(spec_ad_bytes, 4);
        assert(base@.drop_last().drop_last().drop_last() =~= Seq::<AdItem>::empty());
        assert(spec_ad_bytes(base@) =~= host_base_adv());
    }
    let adv_data = match encode_slice(base.as_slice(), LEGACY_ADV_LEN) {
        Some(v) => v,
        None => Vec::new(),
    };
    let mut scan: Vec<AdItem> = Vec::new();
    scan.push(AdItem::CompleteLocalName(copy_bytes(name)));
    proof {
        reveal_with_fuel(spec_ad_bytes, 2);
        assert(scan@.drop_last() =~= Seq::<AdItem>::empty());
        assert(spec_ad_bytes(scan@) =~= seq![(name@.len() + 1) as u8, 9u8] + name@);
    }
    let scan_data = match encode_slice(scan.as_slice(), LEGACY_ADV_LEN) {
        Some(v) => v,
        None => {
            let n = if name.len() < SHORTENED_NAME_MAX { name.len() } else { SHORTENED_NAME_MAX };
            let short = copy_bytes(vstd::slice::slice_subrange(name, 0, n));
            let mut shortened: Vec<AdItem> = Vec::new();
            shortened.push(AdItem::ShortenedLocalName(short));
            proof {
                reveal_with_fuel(spec_ad_bytes, 2);
                assert(shortened@.drop_last() =~= Seq::<AdItem>::empty());
                assert(name@.subrange(0, n as int) =~= name@.take(SHORTENED_NAME_MAX as int));
                assert(spec_ad_bytes(shortened@) =~= seq![(SHORTENED_NAME_MAX + 1) as u8, 8u8] + name@.take(
                    SHORTENED_NAME_MAX as int,
                ));
            }
            match encode_slice(shortened.as_slice(), LEGACY_ADV_LEN) {
                Some(v) => v,
                None => Vec::new(),
            }
        },
    };
    HostAdvertisement { adv_data, scan_data }
}

/// Every RMK kind reads back from its own advertisement.
pub proof fn lemma_rmk_adv_round_trip(id: u8)
    ensures
        spec_decode_adv(rmk_peer_adv(seq![SPLIT_PERIPHERAL, id])) == Some(AdvKind::SplitPeripheral { id }),
        spec_decode_adv(rmk_peer_adv(seq![DONGLE_SEEKING])) == Some(AdvKind::DongleSeeking),
{
    reveal_with_fuel(spec_decode_adv, 3);
    let a = rmk_peer_adv(seq![SPLIT_PERIPHERAL, id]);
    assert(a.skip(3) =~= seq![5u8, 0xFFu8, 0x53u8, 0x52u8, SPLIT_PERIPHERAL, id]);
    assert(a.subrange(1, 3) =~= seq![1u8, BR_EDR_NOT_SUPPORTED]);
    assert(a.skip(3).subrange(1, 6) =~= seq![0xFFu8, 0x53u8, 0x52u8, SPLIT_PERIPHERAL, id]);
    assert(a.skip(3).subrange(1, 6).skip(3) =~= seq![SPLIT_PERIPHERAL, id]);
    let d = rmk_peer_adv(seq![DONGLE_SEEKING]);
    assert(d.skip(3) =~= seq![4u8, 0xFFu8, 0x53u8, 0x52u8, DONGLE_SEEKING]);
    assert(d.subrange(1, 3) =~= seq![1u8, BR_EDR_NOT_SUPPORTED]);
    assert(d.skip(3).subrange(1, 5) =~= seq![0xFFu8, 0x53u8, 0x52u8, DONGLE_SEEKING]);
    assert(d.skip(3).subrange(1, 5).skip(3) =~= seq![DONGLE_SEEKING]);
}

} // verus!
