//! Firmware side of the Rynk protocol: the capability report, device
//! identity strings, and the flat-index arithmetic and payload prefix
//! decoding of the bulk transfer handlers.
use vstd::prelude::*;
use crate::rynk::{DeviceCapabilities, RYNK_HEADER_SIZE};
use crate::text::{spec_utf8_prefix_len, utf8_prefix};
use vstd::string::StringSliceAdditionalSpecFns;

verus! {

/// Why the firmware refused a request.
#[derive(Clone, Copy, Debug, Eq, PartialEq, Structural)]
pub enum RynkError {
    /// A value out of range for the device.
    Invalid,
    /// The payload did not decode.
    Malformed,
    /// The command is not implemented.
    Unimplemented,
}

/// A configuration count as a capability byte; one that does not fit is invalid.
pub fn capability_u8(value: usize) -> (r: Result<u8, RynkError>)
    ensures
        value <= u8::MAX <==> r is Ok,
        r matches Ok(v) ==> v == value,
        r matches Err(e) ==> e == RynkError::Invalid,
{
    if value <= 255 {
        Ok(value as u8)
    } else {
        Err(RynkError::Invalid)
    }
}

/// A configuration size as a 16-bit capability; one that does not fit is invalid.
pub fn capability_u16(value: usize) -> (r: Result<u16, RynkError>)
    ensures
        value <= u16::MAX <==> r is Ok,
        r matches Ok(v) ==> v == value,
        r matches Err(e) ==> e == RynkError::Invalid,
{
    if value <= 65535 {
        Ok(value as u16)
    } else {
        Err(RynkError::Invalid)
    }
}

/// What the firmware was built with, as the capability report needs it.
#[derive(Clone, Copy, Debug, Eq, PartialEq, Structural)]
pub struct BuildConfig {
    pub rows: usize,
    pub cols: usize,
    pub num_layers: usize,
    pub num_encoders: usize,
    pub combo_max_num: usize,
    pub combo_max_length: usize,
    pub macro_space_size: usize,
    pub morse_max_num: usize,
    pub max_patterns_per_key: usize,
    pub fork_max_num: usize,
    pub storage: bool,
    pub split: bool,
    pub split_peripherals_num: usize,
    pub ble: bool,
    pub num_ble_profile: usize,
    pub buffer_size: usize,
    pub macro_data_size: usize,
    /// Bulk transfer is built in, with these page sizes (keys, configs).
    pub bulk: bool,
    pub bulk_keymap_size: usize,
    pub bulk_size: usize,
}

pub open spec fn fits_u8(v: usize) -> bool {
    v <= u8::MAX
}

pub open spec fn fits_u16(v: usize) -> bool {
    v <= u16::MAX
}

/// Every count of the build fits its capability field.
pub open spec fn reportable(c: BuildConfig) -> bool {
    &&& fits_u8(c.num_layers) && fits_u8(c.rows) && fits_u8(c.cols) && fits_u8(c.num_encoders)
    &&& fits_u8(c.combo_max_num) && fits_u8(c.combo_max_length) && fits_u16(c.macro_space_size)
    &&& fits_u8(c.morse_max_num) && fits_u8(c.max_patterns_per_key) && fits_u8(c.fork_max_num)
    &&& fits_u8(c.split_peripherals_num) && fits_u8(c.num_ble_profile)
    &&& c.buffer_size >= RYNK_HEADER_SIZE && fits_u16((c.buffer_size - RYNK_HEADER_SIZE) as usize)
    &&& fits_u16(c.macro_data_size)
    &&& (c.bulk ==> fits_u8(c.bulk_keymap_size) && fits_u8(c.bulk_size))
}

/// The capability report of a build; a count that does not fit its field
/// makes the report invalid. Lighting is not yet reported.
pub fn device_capabilities(c: &BuildConfig) -> (r: Result<DeviceCapabilities, RynkError>)
    ensures
        r is Ok <==> reportable(*c),
        r matches Err(e) ==> e == RynkError::Invalid,
        r matches Ok(d) ==> {
            &&& d.num_layers == c.num_layers && d.num_rows == c.rows && d.num_cols == c.cols
            &&& d.num_encoders == c.num_encoders && d.max_combos == c.combo_max_num
            &&& d.max_combo_keys == c.combo_max_length && d.macro_space_size == c.macro_space_size
            &&& d.max_morse == c.morse_max_num && d.max_patterns_per_key == c.max_patterns_per_key
            &&& d.max_forks == c.fork_max_num && d.storage_enabled == c.storage && !d.lighting_enabled
            &&& d.is_split == c.split && d.num_split_peripherals == c.split_peripherals_num
            &&& d.ble_enabled == c.ble && d.num_ble_profiles == c.num_ble_profile
            &&& d.max_payload_size == c.buffer_size - RYNK_HEADER_SIZE
            &&& d.macro_chunk_size == c.macro_data_size
            &&& d.bulk_transfer_supported == c.bulk
            &&& (if c.bulk {
                d.max_bulk_keys == c.bulk_keymap_size && d.max_bulk_configs == c.bulk_size
            } else {
                d.max_bulk_keys == 0 && d.max_bulk_configs == 0
            })
        },
{
    if c.buffer_size < RYNK_HEADER_SIZE {
        return Err(RynkError::Invalid);
    }
    let max_payload_size = c.buffer_size - RYNK_HEADER_SIZE;
    let num_layers = capability_u8(c.num_layers)?;
    let num_rows = capability_u8(c.rows)?;
    let num_cols = capability_u8(c.cols)?;
    let num_encoders = capability_u8(c.num_encoders)?;
    let max_combos = capability_u8(c.combo_max_num)?;
    let max_combo_keys = capability_u8(c.combo_max_length)?;
    let macro_space_size = capability_u16(c.macro_space_size)?;
    let max_morse = capability_u8(c.morse_max_num)?;
    let max_patterns_per_key = capability_u8(c.max_patterns_per_key)?;
    let max_forks = capability_u8(c.fork_max_num)?;
    let num_split_peripherals = capability_u8(c.split_peripherals_num)?;
    let num_ble_profiles = capability_u8(c.num_ble_profile)?;
    let max_payload = capability_u16(max_payload_size)?;
    let macro_chunk_size = capability_u16(c.macro_data_size)?;
    let (max_bulk_keys, max_bulk_configs) = if c.bulk {
        (capability_u8(c.bulk_keymap_size)?, capability_u8(c.bulk_size)?)
    } else {
        (0u8, 0u8)
    };
    Ok(
        DeviceCapabilities {
            num_layers,
            num_rows,
            num_cols,
            num_encoders,
            max_combos,
            max_combo_keys,
            macro_space_size,
            max_morse,
            max_patterns_per_key,
            max_forks,
            storage_enabled: c.storage,
            max_payload_size: max_payload,
            macro_chunk_size,
            bulk_transfer_supported: c.bulk,
            max_bulk_keys,
            max_bulk_configs,
            ble_enabled: c.ble,
            lighting_enabled: false,
            is_split: c.split,
            num_split_peripherals,
            num_ble_profiles,
        },
    )
}

/// Copy `s` into a wire string of `cap` bytes: over-long input is cut at
/// the last whole character that fits, so multi-byte content never splits.
pub fn truncated(s: &str, cap: usize) -> (r: Vec<u8>)
    ensures
        r@ == s.spec_bytes().take(spec_utf8_prefix_len(s.spec_bytes(), cap as nat) as int),
{
    utf8_prefix(s.as_bytes(), cap)
}

/// One page of a bulk read: at most `cap` items from flat index `start`,
/// never past `total`. An out-of-range `start` yields an empty range.
pub fn bulk_page(start: usize, cap: usize, total: usize) -> (r: (usize, usize))
    requires
        start + cap <= usize::MAX,
    ensures
        r.0 == start,
        r.1 == if start + cap < total { (start + cap) as usize } else { total },
{
    let end = start + cap;
    (start, if end < total { end } else { total })
}

/// Validate an all-or-nothing bulk write of `len` items at flat index
/// `start` into a resource of `total` items; returns the start.
pub fn bulk_write_start(start: usize, len: usize, total: usize) -> (r: Result<usize, RynkError>)
    ensures
        r is Ok <==> (len > 0 && start + len <= total),
        r matches Ok(s) ==> s == start,
        r matches Err(e) ==> e == RynkError::Invalid,
{
    if len == 0 || start > total || len > total - start {
        return Err(RynkError::Invalid);
    }
    Ok(start)
}

/// The postcard varint encoding of a `u16` at the start of `b`: little-endian
/// groups of seven bits, high bit set on every byte but the last, at most
/// three bytes, and the third byte at most 3. `Some((value, bytes used))`.
pub open spec fn spec_take_varint_u16(b: Seq<u8>) -> Option<(u16, nat)> {
    if b.len() < 1 {
        None
    } else if b[0] < 0x80 {
        Some((b[0] as u16, 1))
    } else if b.len() < 2 {
        None
    } else if b[1] < 0x80 {
        Some((((b[0] - 0x80) + b[1] * 0x80) as u16, 2))
    } else if b.len() < 3 || b[2] > 3 {
        None
    } else {
        Some((((b[0] - 0x80) + (b[1] - 0x80) * 0x80 + b[2] * 0x4000) as u16, 3))
    }
}

/// Decode a `u16` with `postcard::take_from_bytes`.
///
/// Trusted: postcard decodes a `u16` as a varint exactly as
/// [`spec_take_varint_u16`] states (the crate's `try_take_varint_u16`), and
/// hands back the bytes it did not use: the input after the varint.
#[verifier::external_body]
fn postcard_take_u16(bytes: &[u8]) -> (r: Option<(u16, usize)>)
    ensures
        (match (r, spec_take_varint_u16(bytes@)) {
            (Some((v, rest)), Some((sv, sn))) => v == sv && rest + sn == bytes@.len(),
            (None, None) => true,
            _ => false,
        }),
{
    match postcard::take_from_bytes::<u16>(bytes) {
        Ok((v, rest)) => Some((v, rest.len())),
        Err(_) => None,
    }
}

/// The element count a bulk `Vec` payload begins with, and where the
/// elements start; a count that does not decode is malformed.
pub fn take_seq_len(bytes: &[u8]) -> (r: Result<(usize, usize), RynkError>)
    ensures
        (match (r, spec_take_varint_u16(bytes@)) {
            (Ok((count, used)), Some((v, n))) => count == v && used == n,
            (Err(e), None) => e == RynkError::Malformed,
            _ => false,
        }),
{
    match postcard_take_u16(bytes) {
        Some((len, rest)) => Ok((len as usize, bytes.len() - rest)),
        None => Err(RynkError::Malformed),
    }
}

/// The byte a bulk payload begins with (its start index); an empty payload
/// is malformed.
pub fn take_u8(bytes: &[u8]) -> (r: Result<u8, RynkError>)
    ensures
        bytes@.len() > 0 <==> r is Ok,
        r matches Ok(b) ==> b == bytes@[0],
        r matches Err(e) ==> e == RynkError::Malformed,
{
    if bytes.len() == 0 {
        Err(RynkError::Malformed)
    } else {
        Ok(bytes[0])
    }
}

} // verus!
