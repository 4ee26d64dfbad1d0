use ufpgactl::pci::Location;
use ufpgactl::sysfs::Device;
use ufpgactl::ufpga::{
    convert_temp, convert_volt, decode_version, decode_xadc, telemetry_offsets, DecodeError,
    TEMP_SCALE, UFPGA, VERSION_OFFSET, VOLT_SCALE, XADC_BASE,
};

fn sample_ufpga() -> UFPGA {
    UFPGA {
        device: Device {
            name: String::from("ufpga0"),
            mount: String::from("/dev/ufpga0"),
            location: Location { domain: 8, bus: 1, device: 2, function: 3 },
        },
    }
}

fn temp_degrees(raw: u32) -> f64 {
    convert_temp(raw) as f64 / TEMP_SCALE as f64
}

fn volt_volts(raw: u32) -> f64 {
    convert_volt(raw) as f64 / VOLT_SCALE as f64
}

#[test]
fn conversion_formulas_are_exact() {
    // raw 0 is absolute zero.
    assert_eq!(convert_temp(0), -17_901_158_400);
    assert!((temp_degrees(0) - (-273.15)).abs() < 1e-9);
    // raw 32768 is exactly 1.5 V.
    assert_eq!(convert_volt(32768), 3 * 32768);
    assert_eq!(volt_volts(32768), 1.5);
    // raw 32768 as a temperature.
    assert!((temp_degrees(32768) - (-21.1625)).abs() < 1e-9);
}

#[test]
fn conversion_has_no_special_case_above_16_bits() {
    // raw 65536 is out of the nominal sample range; the formula is
    // still applied arithmetically.
    assert_eq!(convert_volt(65536), 3 * 65536);
    assert_eq!(volt_volts(65536), 3.0);
    assert!((temp_degrees(65536) - (503.975 - 273.15)).abs() < 1e-9);
}

#[test]
fn version_decodes_four_text_bytes() {
    assert_eq!(decode_version(&b"v1.0".to_vec()), Ok(String::from("v1.0")));
}

#[test]
fn version_short_read_fails() {
    assert_eq!(decode_version(&b"v1.".to_vec()), Err(DecodeError::UnexpectedEof));
    assert_eq!(decode_version(&Vec::new()), Err(DecodeError::UnexpectedEof));
}

#[test]
fn version_invalid_text_fails() {
    assert_eq!(decode_version(&vec![0xff, 0xfe, 0x41, 0x42]), Err(DecodeError::InvalidData));
}

#[test]
fn telemetry_offsets_match_the_layout() {
    let offs = telemetry_offsets();
    assert_eq!(
        offs,
        vec![0x3200, 0x3204, 0x3208, 0x3280, 0x3284, 0x3288, 0x3290, 0x3294, 0x3298]
    );
    assert_eq!(offs[0], XADC_BASE);
    assert_eq!(VERSION_OFFSET, 0x1000);
}

fn word_bytes(raw: u32) -> Vec<u8> {
    raw.to_le_bytes().to_vec()
}

#[test]
fn telemetry_decodes_little_endian_words() {
    let raws: [u32; 9] = [32768, 20753, 39322, 40000, 21000, 39500, 30000, 20500, 39000];
    let reads: Vec<Vec<u8>> = raws.iter().map(|&r| word_bytes(r)).collect();
    let st = decode_xadc(&reads).unwrap();
    assert_eq!(st.temperature.current, convert_temp(32768));
    assert_eq!(st.vcc_int.current, convert_volt(20753));
    assert_eq!(st.vcc_aux.current, convert_volt(39322));
    assert_eq!(st.temperature.max, convert_temp(40000));
    assert_eq!(st.vcc_int.max, convert_volt(21000));
    assert_eq!(st.vcc_aux.max, convert_volt(39500));
    assert_eq!(st.temperature.min, convert_temp(30000));
    assert_eq!(st.vcc_int.min, convert_volt(20500));
    assert_eq!(st.vcc_aux.min, convert_volt(39000));
}

#[test]
fn telemetry_short_read_is_atomic() {
    // A short read at any of the nine offsets fails the whole decode.
    for short_at in 0..9 {
        let mut reads: Vec<Vec<u8>> = (0..9).map(|_| word_bytes(12345)).collect();
        reads[short_at] = vec![0x12, 0x34];
        assert_eq!(decode_xadc(&reads), Err(DecodeError::UnexpectedEof));
    }
    // A missing read fails it too.
    let reads: Vec<Vec<u8>> = (0..8).map(|_| word_bytes(12345)).collect();
    assert_eq!(decode_xadc(&reads), Err(DecodeError::UnexpectedEof));
}

#[test]
fn status_non_verbose_gives_identity_line() {
    let u = sample_ufpga();
    assert_eq!(u.status(false, None, None), "uFPGA device (ufpga0) @ 0008:01:02.3 on /dev/ufpga0");
}

#[test]
fn status_verbose_includes_decodes() {
    let u = sample_ufpga();
    let r = u.status(
        true,
        Some(String::from("v1.0")),
        Some(String::from("Temperature: 40.2C, Vcc_int: 0.95V, Vcc_aux: 1.80V")),
    );
    assert_eq!(
        r,
        "uFPGA device (ufpga0) @ 0008:01:02.3 on /dev/ufpga0\n    ID: v1.0\n    Status: Temperature: 40.2C, Vcc_int: 0.95V, Vcc_aux: 1.80V"
    );
}

#[test]
fn status_falls_back_on_decode_failure() {
    // A failed decode under verbose degrades to the minimal identity
    // line instead of propagating.
    let u = sample_ufpga();
    let minimal = "uFPGA device @ 0008:01:02.3";
    assert_eq!(u.status(true, None, Some(String::from("telemetry"))), minimal);
    assert_eq!(u.status(true, Some(String::from("v1.0")), None), minimal);
    assert_eq!(u.status(true, None, None), minimal);
}
