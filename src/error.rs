//! The errors of the broker.
use vstd::prelude::*;
use std::num::ParseIntError;
use std::path::PathBuf;

verus! {

#[verifier::external_type_specification]
#[verifier::external_body]
pub struct ExParseIntError(std::num::ParseIntError);

#[verifier::external_type_specification]
#[verifier::external_body]
pub struct ExPathBuf(std::path::PathBuf);

#[verifier::external_type_specification]
#[verifier::external_body]
pub struct ExIoError(std::io::Error);

/// `p` is a prefix of `s`.
pub open spec fn starts_with(s: Seq<char>, p: Seq<char>) -> bool {
    p.len() <= s.len() && s.take(p.len() as int) == p
}

/// Relies on `ParseIntError`'s `Display`: a description of why the text was
/// not a number.
#[verifier::external_body]
fn int_error_text(e: &ParseIntError) -> String {
    e.to_string()
}

/// Relies on `Path::display`: the path written out as text.
#[verifier::external_body]
fn path_text(p: &PathBuf) -> String {
    p.display().to_string()
}

/// Relies on `std::io::Error`'s `Display`: a description of the failure.
#[verifier::external_body]
fn io_error_text(e: &std::io::Error) -> String {
    e.to_string()
}

/// `prefix` followed by `rest`.
fn joined(prefix: &str, rest: &String) -> (r: String)
    ensures
        r@ == prefix@ + rest@,
        starts_with(r@, prefix@),
{
    let r = String::from_str(prefix).concat(rest.as_str());
    assert(r@.take(prefix@.len() as int) =~= prefix@);
    r
}

/// Why the broker could not start serving.
#[derive(Debug)]
pub enum LspOnDemandError {
    /// The backend's jar is not a file at this path.
    LSPNotFound(PathBuf),
    /// No listening address could be bound.
    LSPListenFailed,
    /// An I/O failure of the operating system.
    IOError(std::io::Error),
}

impl LspOnDemandError {
    /// The text that describes the error to a person.
    pub fn message(&self) -> (r: String)
        ensures
            self is LSPNotFound ==> starts_with(r@, "LSP jar not found at "@),
            self is LSPListenFailed ==> r@ == "Out of socket candidates to listen for LSP connections, can't listen for LSP connections!"@,
    {
        match self {
            LspOnDemandError::LSPNotFound(path) => joined("LSP jar not found at ", &path_text(path)),
            LspOnDemandError::IOError(ioe) => io_error_text(ioe),
            LspOnDemandError::LSPListenFailed => String::from_str(
                "Out of socket candidates to listen for LSP connections, can't listen for LSP connections!",
            ),
        }
    }
}

impl From<std::io::Error> for LspOnDemandError {
    fn from(ioe: std::io::Error) -> (r: LspOnDemandError)
        ensures
            r == LspOnDemandError::IOError(ioe),
    {
        LspOnDemandError::IOError(ioe)
    }
}

impl vstd::std_specs::convert::FromSpecImpl<std::io::Error> for LspOnDemandError {
    open spec fn obeys_from_spec() -> bool {
        true
    }

    open spec fn from_spec(v: std::io::Error) -> LspOnDemandError {
        LspOnDemandError::IOError(v)
    }
}

/// Why a port range could not be read from text.
#[derive(Debug)]
pub enum ParsePortRangeError {
    /// One of the two bounds is not a 16-bit unsigned integer.
    ParseInt(ParseIntError),
    /// The text holds no `-` between the two bounds.
    MissingEndSeperator,
    /// The first bound is larger than the second.
    StartLargerThanEnd,
}

impl ParsePortRangeError {
    /// The text that describes the error to a person.
    pub fn message(&self) -> (r: String)
        ensures
            self is ParseInt ==> starts_with(
                r@,
                "the start and end of the port range should be integers in the range 0-65535: "@,
            ),
            self is MissingEndSeperator ==> r@ == "the start port should be separated from the end port of the port range by a '-'"@,
            self is StartLargerThanEnd ==> r@ == "the end of the port range should not be smaller than the start"@,
    {
        match self {
            ParsePortRangeError::ParseInt(int_err) => joined(
                "the start and end of the port range should be integers in the range 0-65535: ",
                &int_error_text(int_err),
            ),
            ParsePortRangeError::MissingEndSeperator => String::from_str(
                "the start port should be separated from the end port of the port range by a '-'",
            ),
            ParsePortRangeError::StartLargerThanEnd => String::from_str(
                "the end of the port range should not be smaller than the start",
            ),
        }
    }
}

impl From<ParseIntError> for ParsePortRangeError {
    fn from(int_err: ParseIntError) -> (r: ParsePortRangeError)
        ensures
            r == ParsePortRangeError::ParseInt(int_err),
    {
        ParsePortRangeError::ParseInt(int_err)
    }
}

impl vstd::std_specs::convert::FromSpecImpl<ParseIntError> for ParsePortRangeError {
    open spec fn obeys_from_spec() -> bool {
        true
    }

    open spec fn from_spec(v: ParseIntError) -> ParsePortRangeError {
        ParsePortRangeError::ParseInt(v)
    }
}

} // verus!
