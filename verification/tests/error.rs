use sysy_compiler::error::CompErr;

#[test]
fn message_of_a_missing_argument() {
    assert_eq!(CompErr::Cli("input".to_string()).message(), "missing argument: input");
}

#[test]
fn message_of_an_io_failure() {
    let e = std::io::Error::new(std::io::ErrorKind::NotFound, "no such file");
    assert_eq!(CompErr::Io(e).message(), "input or output failed");
}

#[test]
fn message_of_a_missing_entry_point() {
    assert_eq!(CompErr::NoEntryPoint.message(), "no function named main");
}

#[test]
fn message_of_a_parse_error() {
    assert_eq!(
        CompErr::ParseError("unexpected token".to_string()).message(),
        "parse error: unexpected token"
    );
}

#[test]
fn message_names_the_unsupported_construct() {
    let e = CompErr::Unimplemented("return value is None".to_string());
    assert_eq!(e.message(), "unimplemented: return value is None");
    assert!(e.message().contains("return value is None"));
}

#[test]
fn message_with_an_empty_payload() {
    assert_eq!(CompErr::Unimplemented(String::new()).message(), "unimplemented: ");
}
