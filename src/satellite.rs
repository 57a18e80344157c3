//! A satellite built from its element set, with the propagation constants of sgp4.

use crate::tle::{lines_of, tle_from_text, Tle};
use vstd::prelude::*;
use vstd::utf8::encode_utf8;

verus! {

#[verifier::external_type_specification]
#[verifier::external_body]
pub struct ExElements(sgp4::Elements);

#[verifier::external_type_specification]
#[verifier::external_body]
pub struct ExConstants(sgp4::Constants);

#[verifier::external_type_specification]
#[verifier::external_body]
pub struct ExTleError(sgp4::TleError);

#[verifier::external_type_specification]
#[verifier::external_body]
pub struct ExElementsError(sgp4::ElementsError);

/// Whether sgp4 accepts the two element lines: a function of their bytes alone.
pub uninterp spec fn elements_accepted(line1: Seq<u8>, line2: Seq<u8>) -> bool;

/// ASCII whitespace as `u8::is_ascii_whitespace` has it.
pub open spec fn is_ascii_space(b: u8) -> bool {
    b == 0x20 || b == 0x09 || b == 0x0a || b == 0x0c || b == 0x0d
}

/// `s` without its leading ASCII whitespace.
pub open spec fn trim_start(s: Seq<u8>) -> Seq<u8>
    decreases s.len(),
{
    if s.len() > 0 && is_ascii_space(s[0]) {
        trim_start(s.drop_first())
    } else {
        s
    }
}

/// Value of a run of decimal digits.
pub open spec fn digits_value(s: Seq<u8>) -> nat
    decreases s.len(),
{
    if s.len() == 0 {
        0
    } else {
        digits_value(s.drop_last()) * 10 + (s.last() - 0x30) as nat
    }
}

pub open spec fn all_digits(s: Seq<u8>) -> bool {
    forall|i: int| 0 <= i < s.len() ==> 0x30 <= #[trigger] s[i] <= 0x39
}

/// A short decimal number as `u64::from_str` reads it: an optional `+`, then
/// at least one digit (at most four bytes, so the value fits).
pub open spec fn short_decimal(s: Seq<u8>) -> Option<u64> {
    let d = if s.len() > 0 && s[0] == 0x2b {
        s.drop_first()
    } else {
        s
    };
    if s.len() <= 4 && d.len() > 0 && all_digits(d) {
        Some(digits_value(d) as u64)
    } else {
        None
    }
}

/// Value of the leading character of an alpha-5 catalogue number: a digit, or a
/// letter other than `I` and `O` standing for 10 to 33.
pub open spec fn alpha5_lead(b: u8) -> Option<u64> {
    if 0x30 <= b <= 0x39 {
        Some((b - 0x30) as u64)
    } else if 0x41 <= b <= 0x48 {
        Some((b - 0x41 + 10) as u64)
    } else if 0x4a <= b <= 0x4e {
        Some((b - 0x4a + 18) as u64)
    } else if 0x50 <= b <= 0x5a {
        Some((b - 0x50 + 23) as u64)
    } else {
        None
    }
}

/// The catalogue number in the five-byte id field of an element line: leading
/// ASCII whitespace is skipped; five bytes left are an alpha-5 number, fewer a
/// plain decimal number.
pub open spec fn catalog_number(id_field: Seq<u8>) -> Option<u64> {
    let raw = trim_start(id_field);
    if raw.len() == 5 {
        match (alpha5_lead(raw[0]), short_decimal(raw.drop_first())) {
            (Some(lead), Some(rest)) => Some((lead * 10000 + rest) as u64),
            _ => None,
        }
    } else {
        short_decimal(raw)
    }
}

/// The bytes of a line as UTF-8.
pub open spec fn line_bytes(line: Seq<char>) -> Seq<u8> {
    encode_utf8(line)
}

/// A line of the element length (69 bytes) that starts with its line number.
pub open spec fn framed(bytes: Seq<u8>, number: u8) -> bool {
    bytes.len() == 69 && bytes[0] == number
}

/// A line of the element length carries a checksum byte not below `'0'`.
pub open spec fn checksum_readable(bytes: Seq<u8>) -> bool {
    bytes.len() == 69 ==> bytes[68] >= 0x30
}

/// Relies on sgp4::Elements::from_tle: whether it accepts the lines depends on
/// their bytes alone, it accepts only two lines of 69 bytes that start with `1`
/// and `2`, and the elements it returns carry the catalogue number that its
/// `parse_norad_id` reads from bytes 2 to 6 of line 1. It subtracts `'0'` from each line's
/// checksum byte once the other fields are read, so that byte must not be below it.
#[verifier::external_body]
fn parse_elements(name: &str, line1: &[u8], line2: &[u8]) -> (r: Result<
    (sgp4::Elements, u64),
    sgp4::TleError,
>)
    requires
        checksum_readable(line1@),
        checksum_readable(line2@),
    ensures
        r is Ok <==> elements_accepted(line1@, line2@),
        r is Ok ==> framed(line1@, 0x31) && framed(line2@, 0x32),
        r matches Ok(p) ==> catalog_number(line1@.subrange(2, 7)) == Some(p.1),
{
    match sgp4::Elements::from_tle(Some(name.to_owned()), line1, line2) {
        Ok(elements) => {
            let id = elements.norad_id;
            Ok((elements, id))
        },
        Err(e) => Err(e),
    }
}

/// Relies on sgp4::Constants::from_elements: the SGP4 constants of parsed elements,
/// or the error for elements out of the model's range.
pub assume_specification[ sgp4::Constants::from_elements ](elements: &sgp4::Elements) -> core::result::Result<
    sgp4::Constants,
    sgp4::ElementsError,
>;

/// Why a satellite could not be built.
#[derive(Debug)]
pub enum SatelliteError {
    /// The text held fewer than three lines.
    IncompleteTle,
    /// A line of the element length ends in a byte below `'0'`, where its checksum digit stands.
    UnreadableChecksum,
    /// sgp4 refused the element lines.
    Tle(sgp4::TleError),
    /// sgp4 could not derive propagation constants from the elements.
    Elements(sgp4::ElementsError),
}

/// A satellite: its catalogue number, the element set it was read from, the
/// parsed elements and the propagation constants.
pub struct Satellite {
    pub id: Option<u64>,
    pub tle: Option<Tle>,
    pub elements: sgp4::Elements,
    pub constants: sgp4::Constants,
}

impl Satellite {
    /// Builds a satellite from a title line and two element lines.
    pub fn from_tle(tle: Tle) -> (r: Result<Satellite, SatelliteError>)
        ensures
            r matches Err(SatelliteError::UnreadableChecksum) <==> !checksum_readable(
                line_bytes(tle[1]@),
            ) || !checksum_readable(line_bytes(tle[2]@)),
            checksum_readable(line_bytes(tle[1]@)) && checksum_readable(line_bytes(tle[2]@)) && (
            !framed(line_bytes(tle[1]@), 0x31) || !framed(line_bytes(tle[2]@), 0x32))
                ==> r matches Err(SatelliteError::Tle(_)),
            !(r matches Err(SatelliteError::IncompleteTle)),
            (r is Ok || (r matches Err(SatelliteError::Elements(_)))) ==> framed(
                line_bytes(tle[1]@),
                0x31,
            ) && framed(line_bytes(tle[2]@), 0x32),
            checksum_readable(line_bytes(tle[1]@)) && checksum_readable(line_bytes(tle[2]@)) ==> ((
            r matches Err(SatelliteError::Tle(_))) <==> !elements_accepted(
                line_bytes(tle[1]@),
                line_bytes(tle[2]@),
            )),
            r is Ok || r matches Err(SatelliteError::UnreadableChecksum) || r matches Err(
                SatelliteError::Tle(_),
            ) || r matches Err(SatelliteError::Elements(_)),
            r matches Ok(s) ==> {
                &&& s.id == catalog_number(line_bytes(tle[1]@).subrange(2, 7))
                &&& s.tle == Some(tle)
            },
    {
        let line1 = tle[1].as_str().as_bytes();
        let line2 = tle[2].as_str().as_bytes();
        if (line1.len() == 69 && line1[68] < 0x30) || (line2.len() == 69 && line2[68] < 0x30) {
            return Err(SatelliteError::UnreadableChecksum);
        }
        let (elements, id) = match parse_elements(tle[0].as_str(), line1, line2) {
            Ok(p) => p,
            Err(e) => return Err(SatelliteError::Tle(e)),
        };
        let constants = sgp4::Constants::from_elements(&elements);
        Satellite::from_elements(tle, elements, id, constants)
    }

    /// Puts a satellite together from its element set, the elements sgp4 parsed
    /// from it with their catalogue number, and the outcome of deriving the
    /// propagation constants.
    pub fn from_elements(
        tle: Tle,
        elements: sgp4::Elements,
        id: u64,
        constants: Result<sgp4::Constants, sgp4::ElementsError>,
    ) -> (r: Result<Satellite, SatelliteError>)
        ensures
            r is Ok <==> constants is Ok,
            constants matches Ok(c) ==> r matches Ok(s) && s.id == Some(id) && s.tle == Some(tle)
                && s.elements == elements && s.constants == c,
            constants matches Err(e) ==> r matches Err(SatelliteError::Elements(f)) && f == e,
    {
        match constants {
            Ok(constants) => Ok(Satellite { id: Some(id), tle: Some(tle), elements, constants }),
            Err(e) => Err(SatelliteError::Elements(e)),
        }
    }

    /// Builds a satellite from a catalogue response: its first three lines are the
    /// title line and the two element lines.
    pub fn from_catalog_text(text: &str) -> (r: Result<Satellite, SatelliteError>)
        ensures
            r matches Err(SatelliteError::IncompleteTle) <==> lines_of(text@).len() < 3,
            lines_of(text@).len() >= 3 ==> {
                let l1 = line_bytes(lines_of(text@)[1]);
                let l2 = line_bytes(lines_of(text@)[2]);
                &&& (r matches Err(SatelliteError::UnreadableChecksum)) <==> !checksum_readable(l1)
                    || !checksum_readable(l2)
                &&& checksum_readable(l1) && checksum_readable(l2) ==> ((r matches Err(
                    SatelliteError::Tle(_),
                )) <==> !elements_accepted(l1, l2))
                &&& (r is Ok || (r matches Err(SatelliteError::Elements(_)))) ==> framed(l1, 0x31)
                    && framed(l2, 0x32)
                &&& r is Ok || r matches Err(SatelliteError::UnreadableChecksum) || r matches Err(
                    SatelliteError::Tle(_),
                ) || r matches Err(SatelliteError::Elements(_))
            },
            r matches Ok(s) ==> {
                &&& s.tle matches Some(t) && t[0]@ == lines_of(text@)[0] && t[1]@ == lines_of(
                    text@,
                )[1] && t[2]@ == lines_of(text@)[2]
                &&& s.id == catalog_number(line_bytes(lines_of(text@)[1]).subrange(2, 7))
            },
    {
        match tle_from_text(text) {
            Some(tle) => Satellite::from_tle(tle),
            None => Err(SatelliteError::IncompleteTle),
        }
    }
}

} // verus!
