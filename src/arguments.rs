//! The configuration the broker runs with.
use vstd::prelude::*;
use crate::error::LspOnDemandError;
use crate::port_range::PortRange;
use std::path::PathBuf;

verus! {

/// The port the broker listens on unless told otherwise.
pub const DEFAULT_LISTEN_PORT: u16 = 5007;

/// The first port of the range backends are started on unless told otherwise.
pub const DEFAULT_SPAWN_START: u16 = 5008;

/// The last port of the range backends are started on unless told otherwise.
pub const DEFAULT_SPAWN_END: u16 = 65535;

/// The ports backends are started on unless told otherwise.
pub fn default_spawn_ports() -> (r: PortRange)
    ensures
        r.low() == DEFAULT_SPAWN_START,
        r.high() == DEFAULT_SPAWN_END,
{
    PortRange::new(DEFAULT_SPAWN_START, DEFAULT_SPAWN_END).unwrap()
}

/// Where the backend is found and which ports the broker uses.
pub struct Arguments {
    /// The Java executable backends are started with.
    pub java: PathBuf,
    /// The jar of the backend.
    pub lsp_jar: PathBuf,
    /// The port the broker listens on for clients.
    pub lsp_listen_port: u16,
    /// The ports a backend may be told to listen on; one is drawn at random
    /// for each backend, without regard to ports already in use.
    pub lsp_spawn_ports: PortRange,
}

impl Arguments {
    /// The arguments, once it is known whether the jar is a regular file;
    /// the broker does not start without it.
    pub fn checked(self, jar_is_file: bool) -> (r: Result<Arguments, LspOnDemandError>)
        ensures
            jar_is_file ==> r == Ok::<Arguments, LspOnDemandError>(self),
            !jar_is_file ==> r == Err::<Arguments, LspOnDemandError>(
                LspOnDemandError::LSPNotFound(self.lsp_jar),
            ),
    {
        if jar_is_file {
            Ok(self)
        } else {
            Err(LspOnDemandError::LSPNotFound(self.lsp_jar))
        }
    }
}

} // verus!
