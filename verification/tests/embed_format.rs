use pydrop::embed::{append_embedded_script, find_rustpython_embedded, locate_embedded_script};

const MARKER: &[u8] = b"__PYDROP_SCRIPT__";

fn packed(exe: &[u8], script: &[u8]) -> Vec<u8> {
    let mut bytes = exe.to_vec();
    append_embedded_script(&mut bytes, MARKER, script);
    bytes
}

#[test]
fn append_writes_marker_length_and_script() {
    let bytes = packed(b"EXE", b"ab");
    let mut expected = b"EXE".to_vec();
    expected.extend_from_slice(MARKER);
    expected.extend_from_slice(&2u64.to_le_bytes());
    expected.extend_from_slice(b"ab");
    assert_eq!(bytes, expected);
}

#[test]
fn packed_script_is_found_again() {
    let script = "print('hello from pydrop')\n";
    let bytes = packed(b"MZ\x90\x00 some executable bytes", script.as_bytes());
    assert_eq!(find_rustpython_embedded(&bytes, MARKER), Some(script.to_string()));
}

#[test]
fn locate_reports_the_end_of_the_executable() {
    let exe = b"0123456789";
    let bytes = packed(exe, b"x = 1");
    assert_eq!(locate_embedded_script(&bytes, MARKER), Some(exe.len()));
}

#[test]
fn empty_script_is_found_as_empty_text() {
    let bytes = packed(b"EXE", b"");
    assert_eq!(find_rustpython_embedded(&bytes, MARKER), Some(String::new()));
}

#[test]
fn plain_executable_has_no_script() {
    let bytes = b"just an ordinary executable without any trailer".to_vec();
    assert_eq!(find_rustpython_embedded(&bytes, MARKER), None);
}

#[test]
fn too_short_input_has_no_script() {
    assert_eq!(find_rustpython_embedded(b"short", MARKER), None);
    assert_eq!(locate_embedded_script(b"", MARKER), None);
}

#[test]
fn trailer_at_offset_zero_is_not_searched() {
    let bytes = packed(b"", b"print(1)");
    assert_eq!(find_rustpython_embedded(&bytes, MARKER), None);
}

#[test]
fn length_that_misses_the_end_is_no_trailer() {
    let mut bytes = packed(b"EXE", b"print(1)");
    bytes.push(b'\n');
    assert_eq!(find_rustpython_embedded(&bytes, MARKER), None);
}

#[test]
fn invalid_utf8_script_gives_none() {
    let bytes = packed(b"EXE", &[0x66, 0xff, 0xfe]);
    assert_eq!(locate_embedded_script(&bytes, MARKER), Some(3));
    assert_eq!(find_rustpython_embedded(&bytes, MARKER), None);
}

#[test]
fn later_trailer_inside_script_wins() {
    let inner = packed(b"#", b"inner");
    let bytes = packed(b"EXE", &inner);
    assert_eq!(find_rustpython_embedded(&bytes, MARKER), Some("inner".to_string()));
}

#[test]
fn empty_marker_still_needs_a_matching_length() {
    let mut bytes = b"AB".to_vec();
    append_embedded_script(&mut bytes, b"", b"xyz");
    assert_eq!(find_rustpython_embedded(&bytes, b""), Some("xyz".to_string()));
}
