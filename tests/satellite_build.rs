use sat_track::{Satellite, SatelliteError, Tle};

const NAME: &str = "ISS (ZARYA)";
const LINE1: &str = "1 25544U 98067A   20194.88612269 -.00002218  00000-0 -31515-4 0  9992";
const LINE2: &str = "2 25544  51.6461 221.2784 0001413  89.1723 280.4612 15.49507896236008";

fn tle(a: &str, b: &str, c: &str) -> Tle {
    [a.to_string(), b.to_string(), c.to_string()]
}

#[test]
fn builds_from_valid_tle() {
    let sat = Satellite::from_tle(tle(NAME, LINE1, LINE2)).unwrap();
    assert_eq!(sat.id, Some(25544));
    assert_eq!(sat.tle, Some(tle(NAME, LINE1, LINE2)));
    assert_eq!(sat.elements.object_name.as_deref(), Some(NAME));
}

#[test]
fn alpha5_catalog_number() {
    let l1 = "1 A0001U 98067A   20194.88612269 -.00002218  00000-0 -31515-4 0  9993";
    let l2 = "2 A0001  51.6461 221.2784 0001413  89.1723 280.4612 15.49507896236009";
    let sat = Satellite::from_tle(tle("X", l1, l2)).unwrap();
    assert_eq!(sat.id, Some(100001));
}

#[test]
fn short_line_is_refused() {
    let r = Satellite::from_tle(tle(NAME, &LINE1[..68], LINE2));
    assert!(matches!(r, Err(SatelliteError::Tle(_))));
}

#[test]
fn swapped_lines_are_refused() {
    let r = Satellite::from_tle(tle(NAME, LINE2, LINE1));
    assert!(matches!(r, Err(SatelliteError::Tle(_))));
}

#[test]
fn bad_checksum_is_refused() {
    let l1 = format!("{}3", &LINE1[..68]);
    let r = Satellite::from_tle(tle(NAME, &l1, LINE2));
    assert!(matches!(r, Err(SatelliteError::Tle(_))));
}

#[test]
fn checksum_byte_below_zero_digit() {
    let l2 = format!("{} ", &LINE2[..68]);
    let r = Satellite::from_tle(tle(NAME, LINE1, &l2));
    assert!(matches!(r, Err(SatelliteError::UnreadableChecksum)));
}

#[test]
fn catalog_text_builds_satellite() {
    let text = format!("{NAME}        \r\n{LINE1}\r\n{LINE2}\r\n");
    let sat = Satellite::from_catalog_text(&text).unwrap();
    assert_eq!(sat.id, Some(25544));
    assert_eq!(sat.tle.as_ref().unwrap()[0], format!("{NAME}        "));
    assert_eq!(sat.tle.as_ref().unwrap()[2], LINE2);
}

#[test]
fn catalog_text_too_short() {
    let text = format!("{NAME}\n{LINE1}\n");
    assert!(matches!(
        Satellite::from_catalog_text(&text),
        Err(SatelliteError::IncompleteTle)
    ));
    assert!(matches!(
        Satellite::from_catalog_text("No GP data found"),
        Err(SatelliteError::IncompleteTle)
    ));
}

#[test]
fn from_elements_keeps_parts() {
    let elements = sgp4::Elements::from_tle(
        Some(NAME.to_string()),
        LINE1.as_bytes(),
        LINE2.as_bytes(),
    )
    .unwrap();
    let constants = sgp4::Constants::from_elements(&elements);
    let sat = Satellite::from_elements(tle(NAME, LINE1, LINE2), elements.clone(), 7, constants)
        .unwrap();
    assert_eq!(sat.id, Some(7));
    assert_eq!(sat.elements, elements);
    assert_eq!(sat.tle, Some(tle(NAME, LINE1, LINE2)));
}

#[test]
fn from_elements_passes_constants_error_on() {
    let elements = sgp4::Elements::from_tle(None, LINE1.as_bytes(), LINE2.as_bytes()).unwrap();
    let mut bad = elements.clone();
    bad.eccentricity = 1.5;
    let constants = sgp4::Constants::from_elements(&bad);
    assert!(constants.is_err());
    let r = Satellite::from_elements(tle(NAME, LINE1, LINE2), bad, 25544, constants);
    assert!(matches!(r, Err(SatelliteError::Elements(_))));
}

#[test]
fn space_padded_catalog_number() {
    let l1 = "1   123U 98067A   20194.88612269 -.00002218  00000-0 -31515-4 0  9998";
    let l2 = "2   123  51.6461 221.2784 0001413  89.1723 280.4612 15.49507896236004";
    let sat = Satellite::from_tle(tle("X", l1, l2)).unwrap();
    assert_eq!(sat.id, Some(123));
}

#[test]
fn catalog_text_with_bad_checksum_digit() {
    let l1 = format!("{}3", &LINE1[..68]);
    let text = format!("{NAME}\n{l1}\n{LINE2}\n");
    assert!(matches!(
        Satellite::from_catalog_text(&text),
        Err(SatelliteError::Tle(_))
    ));
}

#[test]
fn catalog_text_with_unreadable_checksum() {
    let l2 = format!("{} ", &LINE2[..68]);
    let text = format!("{NAME}\n{LINE1}\n{l2}");
    assert!(matches!(
        Satellite::from_catalog_text(&text),
        Err(SatelliteError::UnreadableChecksum)
    ));
}
