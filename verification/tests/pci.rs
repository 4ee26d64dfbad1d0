use ufpgactl::pci::{Location, LocationParseError};

#[test]
fn parse_canonical_text() {
    assert_eq!(
        Location::parse("0008:01:02.3"),
        Ok(Location { domain: 8, bus: 1, device: 2, function: 3 })
    );
    assert_eq!(
        Location::parse("0255:99:99.9"),
        Ok(Location { domain: 255, bus: 99, device: 99, function: 9 })
    );
    assert_eq!(
        Location::parse("0000:00:00.0"),
        Ok(Location { domain: 0, bus: 0, device: 0, function: 0 })
    );
}

#[test]
fn parse_rejects_domain_overflow() {
    assert_eq!(Location::parse("12345:00:00.0"), Err(LocationParseError));
    assert_eq!(Location::parse("0256:00:00.0"), Err(LocationParseError));
    assert_eq!(Location::parse("9999:00:00.0"), Err(LocationParseError));
}

#[test]
fn parse_rejects_missing_function_segment() {
    assert_eq!(Location::parse("0000:00:00"), Err(LocationParseError));
}

#[test]
fn parse_rejects_non_digits() {
    assert_eq!(Location::parse("abcd:00:00.0"), Err(LocationParseError));
    assert_eq!(Location::parse(""), Err(LocationParseError));
    assert_eq!(Location::parse("0000-00-00.0"), Err(LocationParseError));
    assert_eq!(Location::parse("0000:00:00.00"), Err(LocationParseError));
}

#[test]
fn format_is_zero_padded() {
    let l = Location { domain: 8, bus: 1, device: 2, function: 3 };
    assert_eq!(l.to_text(), "0008:01:02.3");
    let l = Location { domain: 255, bus: 0, device: 42, function: 7 };
    assert_eq!(l.to_text(), "0255:00:42.7");
}

#[test]
fn parse_format_round_trip() {
    let samples = [
        Location { domain: 0, bus: 0, device: 0, function: 0 },
        Location { domain: 8, bus: 1, device: 2, function: 3 },
        Location { domain: 255, bus: 99, device: 99, function: 9 },
        Location { domain: 100, bus: 10, device: 0, function: 5 },
    ];
    for l in samples {
        assert_eq!(Location::parse(&l.to_text()), Ok(l));
    }
}
