use lsp_on_demand::error::{LspOnDemandError, ParsePortRangeError};
use lsp_on_demand::port_range::PortRange;
use std::path::PathBuf;

#[test]
fn separator_error_message() {
    assert_eq!(
        ParsePortRangeError::MissingEndSeperator.message(),
        "the start port should be separated from the end port of the port range by a '-'"
    );
}

#[test]
fn order_error_message() {
    assert_eq!(
        ParsePortRangeError::StartLargerThanEnd.message(),
        "the end of the port range should not be smaller than the start"
    );
}

#[test]
fn integer_error_message() {
    let e = PortRange::parse("x-5").unwrap_err();
    assert_eq!(
        e.message(),
        "the start and end of the port range should be integers in the range 0-65535: invalid digit found in string"
    );
}

#[test]
fn integer_error_from_parse_int_error() {
    let int_err = "".parse::<u16>().unwrap_err();
    let e = ParsePortRangeError::from(int_err.clone());
    match e {
        ParsePortRangeError::ParseInt(inner) => assert_eq!(inner, int_err),
        _ => panic!("expected an integer error"),
    }
}

#[test]
fn jar_not_found_message() {
    let e = LspOnDemandError::LSPNotFound(PathBuf::from("./server/x.jar"));
    assert_eq!(e.message(), "LSP jar not found at ./server/x.jar");
}

#[test]
fn listen_failed_message() {
    assert_eq!(
        LspOnDemandError::LSPListenFailed.message(),
        "Out of socket candidates to listen for LSP connections, can't listen for LSP connections!"
    );
}

#[test]
fn io_error_converts() {
    let e = LspOnDemandError::from(std::io::Error::new(std::io::ErrorKind::Other, "boom"));
    assert!(matches!(e, LspOnDemandError::IOError(_)));
    assert_eq!(e.message(), "boom");
}
