//! What the broker decides about one backend process: the port it listens
//! on, the arguments it is started with, whether it is healthy, and what to
//! do when a connection to it fails or when it is torn down.
use vstd::prelude::*;

verus! {

/// How long a freshly spawned backend is given to open its listener before
/// the pool hands it out, in seconds.
pub const STARTUP_GRACE_SECS: u64 = 3;

/// The pause between two attempts to connect to a backend, in milliseconds.
pub const CONNECT_RETRY_MILLIS: u64 = 1000;

/// The character of the decimal digit `d`.
pub open spec fn digit_char(d: nat) -> char {
    seq!['0', '1', '2', '3', '4', '5', '6', '7', '8', '9'][d as int]
}

/// `n` in decimal, without sign or leading zeros.
pub open spec fn decimal(n: nat) -> Seq<char>
    decreases n,
{
    if n < 10 {
        seq![digit_char(n)]
    } else {
        decimal(n / 10).push(digit_char(n % 10))
    }
}

/// The arguments a backend listening on `port` is started with, before the
/// path of its jar.
pub open spec fn backend_flags(port: u16) -> Seq<Seq<char>> {
    seq![
        "-Dport="@ + decimal(port as nat),
        "-Dfile.encoding=UTF-8"@,
        "-Djava.awt.headless=true"@,
        "-Dlog4j.configuration=file:server/log4j.properties"@,
        "-XX:+IgnoreUnrecognizedVMOptions"@,
        "-XX:+ShowCodeDetailsInExceptionMessages"@,
        "-jar"@,
    ]
}

/// Relies on `u16`'s `Display`: the number in decimal digits.
#[verifier::external_body]
fn decimal_text(n: u16) -> (r: String)
    ensures
        r@ == decimal(n as nat),
{
    n.to_string()
}

/// The arguments a backend listening on `port` is started with; the path of
/// its jar follows them.
pub fn backend_arguments(port: u16) -> (r: Vec<String>)
    ensures
        r@.map_values(|a: String| a@) == backend_flags(port),
{
    let mut r: Vec<String> = Vec::new();
    r.push(String::from_str("-Dport=").concat(decimal_text(port).as_str()));
    r.push(String::from_str("-Dfile.encoding=UTF-8"));
    r.push(String::from_str("-Djava.awt.headless=true"));
    r.push(String::from_str("-Dlog4j.configuration=file:server/log4j.properties"));
    r.push(String::from_str("-XX:+IgnoreUnrecognizedVMOptions"));
    r.push(String::from_str("-XX:+ShowCodeDetailsInExceptionMessages"));
    r.push(String::from_str("-jar"));
    assert(r@.map_values(|a: String| a@) =~= backend_flags(port));
    r
}

/// What a non-blocking poll of a backend process found.
#[derive(Clone, Copy, Debug, PartialEq, Eq, Structural)]
pub enum ProcessStatus {
    /// The process is still running.
    Running,
    /// The process has exited.
    Exited,
    /// The poll itself failed.
    Unknown,
}

/// A backend may be handed to a session only while its process is known to
/// be running.
pub fn is_healthy(status: ProcessStatus) -> (r: bool)
    ensures
        r == (status == ProcessStatus::Running),
{
    match status {
        ProcessStatus::Running => true,
        _ => false,
    }
}

/// The pool's check of a backend before it is handed out: `Ok` while its
/// process runs; otherwise the status that made it fail.
pub fn is_valid(status: ProcessStatus) -> (r: Result<(), ProcessStatus>)
    ensures
        status == ProcessStatus::Running ==> r == Ok::<(), ProcessStatus>(()),
        status != ProcessStatus::Running ==> r == Err::<(), ProcessStatus>(status),
{
    if is_healthy(status) {
        Ok(())
    } else {
        Err(status)
    }
}

/// Whether a backend given back to the pool must be destroyed instead of
/// kept idle: when its session discarded it, or when its process is not
/// known to run.
pub fn has_broken(status: ProcessStatus, discarded: bool) -> (r: bool)
    ensures
        r == (discarded || status != ProcessStatus::Running),
{
    discarded || !is_healthy(status)
}

/// What to do after an attempt to connect to a backend failed.
#[derive(Clone, Copy, Debug, PartialEq, Eq, Structural)]
pub enum ConnectStep {
    /// The backend has exited: it will never accept, so the session fails.
    BackendExited,
    /// Wait this many milliseconds, then try again.
    RetryAfter(u64),
}

/// The backend is given up on only once its process is seen to have exited;
/// while it runs, or while its state cannot be told, the connection is tried
/// again after a fixed pause.
pub fn after_failed_connect(status: ProcessStatus) -> (r: ConnectStep)
    ensures
        status == ProcessStatus::Exited ==> r == ConnectStep::BackendExited,
        status != ProcessStatus::Exited ==> r == ConnectStep::RetryAfter(CONNECT_RETRY_MILLIS),
{
    match status {
        ProcessStatus::Exited => ConnectStep::BackendExited,
        _ => ConnectStep::RetryAfter(CONNECT_RETRY_MILLIS),
    }
}

/// Whether to wait for a backend process after asking it to be killed: only
/// a process that the kill reached will exit, and waiting on any other could
/// block for ever.
pub fn wait_after_kill(kill_succeeded: bool) -> (r: bool)
    ensures
        r == kill_succeeded,
{
    kill_succeeded
}

} // verus!
