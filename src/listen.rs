//! Where the agent listens, and which interpreter override it was given.
use vstd::prelude::*;

verus! {

/// Default port: above the 16-bit range, so it cannot clash with services
/// that only take 16-bit ports.
pub const DEFAULT_PORT: u32 = 12341234;

/// Relies on libc::VMADDR_CID_ANY, the context identifier that matches any
/// peer (0xFFFFFFFF).
#[verifier::external_body]
fn vmaddr_cid_any() -> (r: u32)
    ensures
        r == 0xFFFF_FFFFu32,
{
    libc::VMADDR_CID_ANY
}

/// The listening address and the interpreter override.
#[derive(Clone)]
pub struct ListenAddress {
    /// Context identifier; none matches any.
    pub cid: Option<u32>,
    /// Port.
    pub port: u32,
    /// Interpreter to run commands under; none resolves the original guest
    /// shell.
    pub shell: Option<String>,
}

impl ListenAddress {
    /// An address with the given parts.
    pub fn new(cid: Option<u32>, port: u32, shell: Option<String>) -> (r: ListenAddress)
        ensures
            r.cid == cid,
            r.port == port,
            r.shell == shell,
    {
        ListenAddress { cid, port, shell }
    }

    /// Any context identifier, the default port, no override.
    pub fn with_defaults() -> (r: ListenAddress)
        ensures
            r.cid is None,
            r.port == DEFAULT_PORT,
            r.shell is None,
    {
        ListenAddress { cid: None, port: DEFAULT_PORT, shell: None }
    }

    /// The context identifier to bind: the configured one, else the one that
    /// matches any peer.
    pub fn bind_cid(&self) -> (r: u32)
        ensures
            r == match self.cid {
                Some(c) => c,
                None => 0xFFFF_FFFFu32,
            },
    {
        match self.cid {
            Some(c) => c,
            None => vmaddr_cid_any(),
        }
    }
}

} // verus!
