use exiftool_rs_wrapper::geo::{dms_parts, DmsSplit};

fn parts_of(s: &str) -> (Option<bool>, Vec<String>) {
    match dms_parts(s) {
        DmsSplit::Parts(d) => (d.direction, d.parts),
        other => panic!("{:?}", other),
    }
}

#[test]
fn degrees_minutes_seconds() {
    assert_eq!(
        parts_of("54 deg 59' 22.80\" N"),
        (Some(true), vec!["54".to_string(), "59".to_string(), "22.80".to_string()])
    );
    assert_eq!(
        parts_of("1 deg 54' 57.60\" w"),
        (Some(false), vec!["1".to_string(), "54".to_string(), "57.60".to_string()])
    );
    assert_eq!(parts_of("12°30′"), (None, vec!["12".to_string(), "30".to_string()]));
    assert_eq!(parts_of(" -3.5 "), (None, vec!["-3.5".to_string()]));
}

#[test]
fn not_a_coordinate() {
    assert!(matches!(dms_parts(""), DmsSplit::NoCoordinate));
    assert!(matches!(dms_parts("N"), DmsSplit::NoCoordinate));
    assert!(matches!(dms_parts("1 2 3 4"), DmsSplit::NoCoordinate));
    assert!(matches!(dms_parts("5\u{149}"), DmsSplit::CutInsideChar));
}
