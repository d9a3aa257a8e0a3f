use control::str_to_wstring;

#[test]
fn it_works() {
    assert_eq!(2 + 2, 4);
}

#[test]
fn wide_string_of_object_name() {
    let w = str_to_wstring("ETS2Telemetry");
    let mut expected: Vec<u16> = "ETS2Telemetry".bytes().map(|b| b as u16).collect();
    expected.push(0);
    assert_eq!(w, expected);
}

#[test]
fn wide_string_with_surrogate_pair() {
    // U+1F600 needs two UTF-16 units.
    let w = str_to_wstring("a\u{1F600}");
    assert_eq!(w, vec![0x61, 0xD83D, 0xDE00, 0]);
    assert_eq!(str_to_wstring(""), vec![0]);
}

#[test]
fn last_error_zero_is_success() {
    assert_eq!(control::check_last_error(0), Ok(()));
    assert_eq!(
        control::check_last_error(2),
        Err(control::ServiceError::WindowsGetLastError(2))
    );
}
