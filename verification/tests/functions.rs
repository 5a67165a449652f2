use crossterm::error::ErrorKind;
use crossterm::functions::{cursor_position_query, get_cursor_position, get_module};

#[test]
fn query_sequence_is_csi_six_n() {
    assert_eq!(cursor_position_query(), b"\x1b[6n".to_vec());
}

#[test]
fn parses_well_formed_report() {
    let response = b"\x1b[25;11R".to_vec();
    assert_eq!(get_cursor_position(&response), Ok((10, 24)));
}

#[test]
fn parses_origin_report() {
    let response = b"\x1b[1;1R".to_vec();
    assert_eq!(get_cursor_position(&response), Ok((0, 0)));
}

#[test]
fn parses_large_coordinates() {
    let response = b"\x1b[65535;65535R".to_vec();
    assert_eq!(get_cursor_position(&response), Ok((65534, 65534)));
}

#[test]
fn rejects_invalid_responses_as_timeout() {
    let cases: Vec<&[u8]> = vec![
        b"",
        b"hello",
        b"\x1b[;5R",
        b"\x1b[12;R",
        b"\x1b[0;3R",
        b"\x1b[3;0R",
        b"\x1b[70000;3R",
        b"\x1b[012;3R",
        b"\x1b[12;03R",
        b"\x1b[12;34X",
        b"x[12;34R",
        b"\x1b[12:34R",
    ];
    for case in cases {
        assert_eq!(
            get_cursor_position(&case.to_vec()),
            Err(ErrorKind::DeviceQueryTimeout)
        );
    }
}

#[test]
fn get_module_prefers_ansi_when_enabled() {
    assert_eq!(get_module(1, 2, true), 2);
    assert_eq!(get_module(1, 2, false), 1);
}
