//! Bus-location addresses and their canonical textual form.
//!
//! A location identifies a position on the peripheral bus by four
//! unsigned 8-bit numbers: domain, bus, device and function.  Its
//! canonical text is `DDDD:BB:DD.F`: a four-digit domain, two-digit bus
//! and device, and a one-digit function, all decimal and zero padded.

use vstd::prelude::*;
use vstd::string::*;

verus! {

/// A position on the peripheral bus.
#[derive(Copy, Clone, PartialEq, Eq, Structural, Debug)]
pub struct Location {
    pub domain: u8,
    pub bus: u8,
    pub device: u8,
    pub function: u8,
}

/// Returned when a bus-location string does not have the canonical shape
/// or a field does not fit its numeric range.
#[derive(Copy, Clone, PartialEq, Eq, Structural, Debug)]
pub struct LocationParseError;

/// True for the ten decimal digit characters.
pub open spec fn is_dec_digit(c: char) -> bool {
    '0' <= c && c <= '9'
}

/// Numeric value of a decimal digit character.
pub open spec fn digit_val(c: char) -> int
    recommends
        is_dec_digit(c),
{
    c as int - '0' as int
}

/// The decimal digit character for a value below ten.
pub open spec fn digit_char(d: int) -> char
    recommends
        0 <= d <= 9,
{
    if d == 0 {
        '0'
    } else if d == 1 {
        '1'
    } else if d == 2 {
        '2'
    } else if d == 3 {
        '3'
    } else if d == 4 {
        '4'
    } else if d == 5 {
        '5'
    } else if d == 6 {
        '6'
    } else if d == 7 {
        '7'
    } else if d == 8 {
        '8'
    } else {
        '9'
    }
}

/// Shape of the canonical location text: `DDDD:BB:DD.F`.
pub open spec fn loc_text_wf(t: Seq<char>) -> bool {
    &&& t.len() == 12
    &&& is_dec_digit(t[0])
    &&& is_dec_digit(t[1])
    &&& is_dec_digit(t[2])
    &&& is_dec_digit(t[3])
    &&& t[4] == ':'
    &&& is_dec_digit(t[5])
    &&& is_dec_digit(t[6])
    &&& t[7] == ':'
    &&& is_dec_digit(t[8])
    &&& is_dec_digit(t[9])
    &&& t[10] == '.'
    &&& is_dec_digit(t[11])
}

/// Value of the two digits starting at position `i`.
pub open spec fn val2(t: Seq<char>, i: int) -> int
    recommends
        0 <= i && i + 2 <= t.len(),
{
    digit_val(t[i]) * 10 + digit_val(t[i + 1])
}

/// Value of the four digits starting at position `i`.
pub open spec fn val4(t: Seq<char>, i: int) -> int
    recommends
        0 <= i && i + 4 <= t.len(),
{
    val2(t, i) * 100 + val2(t, i + 2)
}

/// What parsing a location text yields: `Some` exactly when the text has
/// the canonical shape and the domain value fits in eight bits.  The bus
/// and device fields have two digits and the function one, so those can
/// never overflow; a four-digit domain beyond 255 is rejected here rather
/// than truncated.
pub open spec fn spec_parse_location(t: Seq<char>) -> Option<Location> {
    if loc_text_wf(t) && val4(t, 0) <= 255 {
        Some(
            Location {
                domain: val4(t, 0) as u8,
                bus: val2(t, 5) as u8,
                device: val2(t, 8) as u8,
                function: digit_val(t[11]) as u8,
            },
        )
    } else {
        None
    }
}

/// The canonical text of a location: zero-padded decimal fields joined by
/// `:`, `:` and `.`.
pub open spec fn spec_format_location(l: Location) -> Seq<char> {
    seq![
        digit_char(l.domain as int / 1000),
        digit_char(l.domain as int / 100 % 10),
        digit_char(l.domain as int / 10 % 10),
        digit_char(l.domain as int % 10),
        ':',
        digit_char(l.bus as int / 10),
        digit_char(l.bus as int % 10),
        ':',
        digit_char(l.device as int / 10),
        digit_char(l.device as int % 10),
        '.',
        digit_char(l.function as int),
    ]
}

impl Location {
    /// True when every field fits its width in the canonical text, so
    /// that formatting the location parses back.  The parser only ever
    /// constructs such locations.
    pub open spec fn in_canonical_range(self) -> bool {
        self.bus <= 99 && self.device <= 99 && self.function <= 9
    }

    /// Parse the canonical textual form `DDDD:BB:DD.F`.
    pub fn parse(text: &str) -> (r: Result<Location, LocationParseError>)
        ensures
            match spec_parse_location(text@) {
                Some(l) => r == Ok::<Location, LocationParseError>(l),
                None => r == Err::<Location, LocationParseError>(LocationParseError),
            },
    {
        if text.unicode_len() != 12 {
            return Err(LocationParseError);
        }
        if !(text.get_char(4) == ':' && text.get_char(7) == ':' && text.get_char(10) == '.') {
            return Err(LocationParseError);
        }
        let d0 = match digit_of(text.get_char(0)) {
            Some(d) => d,
            None => return Err(LocationParseError),
        };
        let d1 = match digit_of(text.get_char(1)) {
            Some(d) => d,
            None => return Err(LocationParseError),
        };
        let d2 = match digit_of(text.get_char(2)) {
            Some(d) => d,
            None => return Err(LocationParseError),
        };
        let d3 = match digit_of(text.get_char(3)) {
            Some(d) => d,
            None => return Err(LocationParseError),
        };
        let b0 = match digit_of(text.get_char(5)) {
            Some(d) => d,
            None => return Err(LocationParseError),
        };
        let b1 = match digit_of(text.get_char(6)) {
            Some(d) => d,
            None => return Err(LocationParseError),
        };
        let e0 = match digit_of(text.get_char(8)) {
            Some(d) => d,
            None => return Err(LocationParseError),
        };
        let e1 = match digit_of(text.get_char(9)) {
            Some(d) => d,
            None => return Err(LocationParseError),
        };
        let f = match digit_of(text.get_char(11)) {
            Some(d) => d,
            None => return Err(LocationParseError),
        };
        let domain_val: u32 = ((d0 as u32 * 10 + d1 as u32) * 10 + d2 as u32) * 10 + d3 as u32;
        if domain_val > 255 {
            return Err(LocationParseError);
        }
        Ok(
            Location {
                domain: domain_val as u8,
                bus: b0 * 10 + b1,
                device: e0 * 10 + e1,
                function: f,
            },
        )
    }

    /// Canonical textual form `DDDD:BB:DD.F` of this location.  Only
    /// locations whose fields fit the fixed-width text have a canonical
    /// form, and the parser constructs no others.
    pub fn to_text(&self) -> (r: String)
        requires
            self.in_canonical_range(),
        ensures
            r@ == spec_format_location(*self),
    {
        let d: u32 = self.domain as u32;
        let b: u32 = self.bus as u32;
        let e: u32 = self.device as u32;
        let f: u32 = self.function as u32;
        let mut out = String::new();
        out.append(digit_str((d / 1000) as u8));
        out.append(digit_str((d / 100 % 10) as u8));
        out.append(digit_str((d / 10 % 10) as u8));
        out.append(digit_str((d % 10) as u8));
        out.append(":");
        out.append(digit_str((b / 10) as u8));
        out.append(digit_str((b % 10) as u8));
        out.append(":");
        out.append(digit_str((e / 10) as u8));
        out.append(digit_str((e % 10) as u8));
        out.append(".");
        out.append(digit_str(f as u8));
        proof {
            reveal_strlit(":");
            reveal_strlit(".");
            assert(out@ =~= spec_format_location(*self));
        }
        out
    }
}

/// Digit characters invert to their values.
proof fn lemma_digit_roundtrip(d: int)
    requires
        0 <= d <= 9,
    ensures
        is_dec_digit(digit_char(d)),
        digit_val(digit_char(d)) == d,
{
}

/// Law: formatting a location and parsing the text back yields the same
/// location, for every location whose fields fit the canonical widths.
pub proof fn lemma_parse_format_roundtrip(l: Location)
    requires
        l.in_canonical_range(),
    ensures
        spec_parse_location(spec_format_location(l)) == Some(l),
{
    let t = spec_format_location(l);
    let n = l.domain as int;
    lemma_digit_roundtrip(n / 1000);
    lemma_digit_roundtrip(n / 100 % 10);
    lemma_digit_roundtrip(n / 10 % 10);
    lemma_digit_roundtrip(n % 10);
    lemma_digit_roundtrip(l.bus as int / 10);
    lemma_digit_roundtrip(l.bus as int % 10);
    lemma_digit_roundtrip(l.device as int / 10);
    lemma_digit_roundtrip(l.device as int % 10);
    lemma_digit_roundtrip(l.function as int);
    assert(loc_text_wf(t));
    assert(val4(t, 0) == n) by {
        assert((n / 1000 * 10 + n / 100 % 10) * 100 + (n / 10 % 10) * 10 + n % 10 == n)
            by (nonlinear_arith)
            requires
                0 <= n <= 255,
        ;
    }
    assert(val2(t, 5) == l.bus as int);
    assert(val2(t, 8) == l.device as int);
}

/// The digit value of `c`, or `None` when `c` is no decimal digit.
fn digit_of(c: char) -> (r: Option<u8>)
    ensures
        r is Some <==> is_dec_digit(c),
        r matches Some(d) ==> d as int == digit_val(c) && d <= 9,
{
    let u = c as u32;
    if 48 <= u && u <= 57 {
        Some((u - 48) as u8)
    } else {
        None
    }
}

/// A one-character string slice holding the decimal digit for `d`.
fn digit_str(d: u8) -> (r: &'static str)
    requires
        d <= 9,
    ensures
        r@ == seq![digit_char(d as int)],
{
    match d {
        0 => {
            proof {
                reveal_strlit("0");
                assert("0"@ =~= seq![digit_char(0)]);
            }
            "0"
        },
        1 => {
            proof {
                reveal_strlit("1");
                assert("1"@ =~= seq![digit_char(1)]);
            }
            "1"
        },
        2 => {
            proof {
                reveal_strlit("2");
                assert("2"@ =~= seq![digit_char(2)]);
            }
            "2"
        },
        3 => {
            proof {
                reveal_strlit("3");
                assert("3"@ =~= seq![digit_char(3)]);
            }
            "3"
        },
        4 => {
            proof {
                reveal_strlit("4");
                assert("4"@ =~= seq![digit_char(4)]);
            }
            "4"
        },
        5 => {
            proof {
                reveal_strlit("5");
                assert("5"@ =~= seq![digit_char(5)]);
            }
            "5"
        },
        6 => {
            proof {
                reveal_strlit("6");
                assert("6"@ =~= seq![digit_char(6)]);
            }
            "6"
        },
        7 => {
            proof {
                reveal_strlit("7");
                assert("7"@ =~= seq![digit_char(7)]);
            }
            "7"
        },
        8 => {
            proof {
                reveal_strlit("8");
                assert("8"@ =~= seq![digit_char(8)]);
            }
            "8"
        },
        _ => {
            proof {
                reveal_strlit("9");
                assert("9"@ =~= seq![digit_char(9)]);
            }
            "9"
        },
    }
}

} // verus!
