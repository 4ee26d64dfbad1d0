//! On-device register decoding and per-device status reporting.
//!
//! A device node exposes a 4-byte version tag at a fixed offset and an
//! analog monitor block of nine 32-bit words: live, maximum and minimum
//! samples of the die temperature and the two supply voltages.  The
//! words are decoded in the device's little-endian byte order, and the
//! raw samples are converted to physical units in exact fixed-point
//! arithmetic: a temperature sample raw stands for
//! raw * 503.975 / 65536 - 273.15 degrees Celsius, a voltage sample for
//! raw * 3.0 / 65536 volts.  The reading itself is done by the
//! surrounding glue, which hands the bytes of each read in.

use vstd::prelude::*;
use vstd::string::*;
use vstd::utf8::{decode_utf8, valid_utf8};

use crate::pci::spec_format_location;
use crate::sysfs::{Device, DeviceView};

verus! {

/// Offset of the 4-byte version tag in the device node.
pub const VERSION_OFFSET: u64 = 0x1000;

/// Base offset of the analog monitor block in the device node.
pub const XADC_BASE: u64 = 0x3200;

/// Denominator of the scaled temperature unit: a scaled temperature t
/// stands for t / 65_536_000 degrees Celsius.  The scale is chosen so
/// that the reference conversion raw * 503.975 / 65536 - 273.15 is a
/// whole number of units.
pub const TEMP_SCALE: i64 = 65536000;

/// Denominator of the scaled voltage unit: a scaled voltage v stands
/// for v / 65_536 volts, so that raw * 3.0 / 65536 is exactly raw * 3
/// units.
pub const VOLT_SCALE: i64 = 65536;

/// Failure of an on-device decode.
#[derive(Copy, Clone, PartialEq, Eq, Structural, Debug)]
pub enum DecodeError {
    /// A read returned fewer bytes than the layout requires.
    UnexpectedEof,
    /// The version bytes are not valid text.
    InvalidData,
}

/// One monitored quantity's live, historical-minimum and
/// historical-maximum readings, in scaled fixed-point units
/// (see `TEMP_SCALE` and `VOLT_SCALE`).
#[derive(Copy, Clone, PartialEq, Eq, Structural, Debug)]
pub struct XADCTriple {
    pub current: i64,
    pub min: i64,
    pub max: i64,
}

/// A point-in-time decode of the analog monitor block.
#[derive(Copy, Clone, PartialEq, Eq, Structural, Debug)]
pub struct XADCStatus {
    pub temperature: XADCTriple,
    pub vcc_int: XADCTriple,
    pub vcc_aux: XADCTriple,
}

/// One attached device: the resolved record, with the decode operations
/// composed around it by the surrounding glue.
#[derive(Clone, PartialEq, Eq, Debug)]
pub struct UFPGA {
    pub device: Device,
}

/// Mathematical image of a `UFPGA`.
pub struct UFPGAView {
    pub device: DeviceView,
}

impl DeepView for UFPGA {
    type V = UFPGAView;

    open spec fn deep_view(&self) -> UFPGAView {
        UFPGAView { device: self.device.deep_view() }
    }
}

/// A temperature sample in scaled units: raw * 503975 - 17_901_158_400
/// is the reference value raw * 503.975 / 65536 - 273.15 times
/// `TEMP_SCALE`.
pub open spec fn spec_temp_scaled(raw: u32) -> int {
    raw * 503975 - 17901158400
}

/// A voltage sample in scaled units: raw * 3 is the reference value
/// raw * 3.0 / 65536 times `VOLT_SCALE`.
pub open spec fn spec_volt_scaled(raw: u32) -> int {
    raw * 3
}

/// A 32-bit word read from four bytes in little-endian order.  The
/// monitor block is decoded in the device's byte order explicitly.
pub open spec fn spec_le_word(b: Seq<u8>) -> u32
    recommends
        b.len() == 4,
{
    (b[0] + b[1] * 0x100 + b[2] * 0x10000 + b[3] * 0x1000000) as u32
}

/// Convert a raw temperature sample to scaled units.
pub fn convert_temp(raw: u32) -> (r: i64)
    ensures
        r as int == spec_temp_scaled(raw),
{
    raw as i64 * 503975 - 17901158400
}

/// Convert a raw voltage sample to scaled units.
pub fn convert_volt(raw: u32) -> (r: i64)
    ensures
        r as int == spec_volt_scaled(raw),
{
    raw as i64 * 3
}

/// Read a little-endian 32-bit word from a 4-byte read.
fn le_word(b: &Vec<u8>) -> (r: u32)
    requires
        b@.len() == 4,
    ensures
        r == spec_le_word(b@),
{
    b[0] as u32 + b[1] as u32 * 0x100 + b[2] as u32 * 0x10000 + b[3] as u32 * 0x1000000
}

/// Relies on `core::str::from_utf8`: it succeeds exactly on valid UTF-8
/// and yields the decoded characters.
#[verifier::external_body]
fn utf8_to_string(bytes: &Vec<u8>) -> (r: Option<String>)
    ensures
        r is Some <==> valid_utf8(bytes@),
        r matches Some(s) ==> s@ == decode_utf8(bytes@),
{
    match core::str::from_utf8(bytes.as_slice()) {
        Ok(s) => Some(s.to_string()),
        Err(_) => None,
    }
}

/// Decode the 4-byte version tag read at `VERSION_OFFSET`.  `data`
/// holds the bytes the read returned; anything but exactly four is a
/// short read, and four bytes that are not valid text are a data-format
/// failure.
pub fn decode_version(data: &Vec<u8>) -> (r: Result<String, DecodeError>)
    ensures
        data@.len() != 4 ==> r == Err::<String, DecodeError>(DecodeError::UnexpectedEof),
        data@.len() == 4 && valid_utf8(data@) ==> (r matches Ok(s) && s@ == decode_utf8(data@)),
        data@.len() == 4 && !valid_utf8(data@) ==> r == Err::<String, DecodeError>(
            DecodeError::InvalidData,
        ),
{
    if data.len() != 4 {
        return Err(DecodeError::UnexpectedEof);
    }
    match utf8_to_string(data) {
        Some(s) => Ok(s),
        None => Err(DecodeError::InvalidData),
    }
}

/// The nine absolute offsets of the analog monitor words, in the order
/// the decoder expects the reads: current temperature, current core
/// voltage, current aux voltage, then the maxima, then the minima of
/// the same three quantities.
pub open spec fn spec_telemetry_offsets() -> Seq<u64> {
    seq![
        0x3200u64,
        0x3204u64,
        0x3208u64,
        0x3280u64,
        0x3284u64,
        0x3288u64,
        0x3290u64,
        0x3294u64,
        0x3298u64,
    ]
}

/// The offsets at which the glue performs the nine 4-byte telemetry
/// reads, in decode order.
pub fn telemetry_offsets() -> (r: Vec<u64>)
    ensures
        r@ == spec_telemetry_offsets(),
{
    let mut v: Vec<u64> = Vec::new();
    v.push(0x3200);
    v.push(0x3204);
    v.push(0x3208);
    v.push(0x3280);
    v.push(0x3284);
    v.push(0x3288);
    v.push(0x3290);
    v.push(0x3294);
    v.push(0x3298);
    proof {
        assert(v@ =~= spec_telemetry_offsets());
    }
    v
}

/// True when all nine telemetry reads are present and complete.
pub open spec fn reads_complete(rs: Seq<Vec<u8>>) -> bool {
    rs.len() == 9 && forall|i: int| 0 <= i < 9 ==> #[trigger] rs[i]@.len() == 4
}

/// The snapshot that nine complete reads decode to, read for read.
pub open spec fn spec_decode_xadc(rs: Seq<Vec<u8>>) -> XADCStatus
    recommends
        reads_complete(rs),
{
    XADCStatus {
        temperature: XADCTriple {
            current: spec_temp_scaled(spec_le_word(rs[0]@)) as i64,
            max: spec_temp_scaled(spec_le_word(rs[3]@)) as i64,
            min: spec_temp_scaled(spec_le_word(rs[6]@)) as i64,
        },
        vcc_int: XADCTriple {
            current: spec_volt_scaled(spec_le_word(rs[1]@)) as i64,
            max: spec_volt_scaled(spec_le_word(rs[4]@)) as i64,
            min: spec_volt_scaled(spec_le_word(rs[7]@)) as i64,
        },
        vcc_aux: XADCTriple {
            current: spec_volt_scaled(spec_le_word(rs[2]@)) as i64,
            max: spec_volt_scaled(spec_le_word(rs[5]@)) as i64,
            min: spec_volt_scaled(spec_le_word(rs[8]@)) as i64,
        },
    }
}

/// Decode the nine 4-byte analog monitor reads into one snapshot.  Any
/// missing or short read fails the whole decode: a partial snapshot is
/// never returned.
pub fn decode_xadc(reads: &Vec<Vec<u8>>) -> (r: Result<XADCStatus, DecodeError>)
    ensures
        reads_complete(reads@) ==> (r matches Ok(st) && st == spec_decode_xadc(reads@)),
        !reads_complete(reads@) ==> r == Err::<XADCStatus, DecodeError>(DecodeError::UnexpectedEof),
{
    if reads.len() != 9 {
        return Err(DecodeError::UnexpectedEof);
    }
    let mut idx: usize = 0;
    while idx < 9
        invariant
            0 <= idx <= 9,
            reads@.len() == 9,
            forall|k: int| 0 <= k < idx ==> #[trigger] reads@[k]@.len() == 4,
        decreases 9 - idx,
    {
        if reads[idx].len() != 4 {
            return Err(DecodeError::UnexpectedEof);
        }
        idx += 1;
    }
    let st = XADCStatus {
        temperature: XADCTriple {
            current: convert_temp(le_word(&reads[0])),
            max: convert_temp(le_word(&reads[3])),
            min: convert_temp(le_word(&reads[6])),
        },
        vcc_int: XADCTriple {
            current: convert_volt(le_word(&reads[1])),
            max: convert_volt(le_word(&reads[4])),
            min: convert_volt(le_word(&reads[7])),
        },
        vcc_aux: XADCTriple {
            current: convert_volt(le_word(&reads[2])),
            max: convert_volt(le_word(&reads[5])),
            min: convert_volt(le_word(&reads[8])),
        },
    };
    Ok(st)
}

/// The status line for one device: the full report when `verbose` and
/// both decode results are at hand, the minimal identity line otherwise.
pub open spec fn spec_status(
    dev: DeviceView,
    verbose: bool,
    version: Option<Seq<char>>,
    telemetry: Option<Seq<char>>,
) -> Seq<char> {
    if verbose {
        match (version, telemetry) {
            (Some(v), Some(t)) => "uFPGA device ("@ + dev.name + ") @ "@ + spec_format_location(
                dev.location,
            ) + " on "@ + dev.mount + "\n    ID: "@ + v + "\n    Status: "@ + t,
            _ => "uFPGA device @ "@ + spec_format_location(dev.location),
        }
    } else {
        "uFPGA device ("@ + dev.name + ") @ "@ + spec_format_location(dev.location) + " on "@
            + dev.mount
    }
}

impl UFPGA {
    /// Compose the status line from this device's record and the decode
    /// results the glue obtained.  When `verbose` is set and either
    /// decode failed, the report degrades silently to the minimal
    /// identity line: a decode failure is never fatal to the caller.
    pub fn status(&self, verbose: bool, version: Option<String>, telemetry: Option<String>) -> (r:
        String)
        requires
            self.device.location.in_canonical_range(),
        ensures
            r@ == spec_status(
                self.device.deep_view(),
                verbose,
                version.deep_view(),
                telemetry.deep_view(),
            ),
    {
        let loc_text = self.device.location.to_text();
        let mut out = String::new();
        if verbose {
            match (&version, &telemetry) {
                (Some(v), Some(t)) => {
                    out.append("uFPGA device (");
                    out.append(self.device.name.as_str());
                    out.append(") @ ");
                    out.append(loc_text.as_str());
                    out.append(" on ");
                    out.append(self.device.mount.as_str());
                    out.append("\n    ID: ");
                    out.append(v.as_str());
                    out.append("\n    Status: ");
                    out.append(t.as_str());
                },
                _ => {
                    out.append("uFPGA device @ ");
                    out.append(loc_text.as_str());
                },
            }
        } else {
            out.append("uFPGA device (");
            out.append(self.device.name.as_str());
            out.append(") @ ");
            out.append(loc_text.as_str());
            out.append(" on ");
            out.append(self.device.mount.as_str());
        }
        proof {
            assert(out@ =~= spec_status(
                self.device.deep_view(),
                verbose,
                version.deep_view(),
                telemetry.deep_view(),
            ));
        }
        out
    }
}

} // verus!
