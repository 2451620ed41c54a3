//! Portal calls: guest-to-host requests carried by a repurposed system call.
//!
//! This module builds the request that is handed to the host: the sentinel
//! that marks the call as a portal call, the caller's identifier, the argument
//! count and the arguments in order. Issuing it is the embedding program's job.
use vstd::prelude::*;

verus! {

/// Unsigned register-sized value.
pub type URegSize = u64;

/// Signed register-sized value, as the host hands it back.
pub type RegSize = i64;

/// Sentinel passed in the first syscall slot; the host recognizes portal
/// calls by it.
pub const PORTAL_MAGIC: URegSize = 0xc1d1e1f1;

/// The largest number of arguments that one portal call carries.
pub const MAX_PORTAL_ARGS: i32 = 5;

/// One portal call, ready to be issued.
#[derive(Debug)]
pub struct PortalRequest {
    pub sentinel: URegSize,
    pub user_magic: URegSize,
    pub argc: i32,
    pub args: Vec<u64>,
}

impl PortalRequest {
    /// The sentinel is the host's, and the count matches the arguments.
    pub open spec fn well_formed(&self) -> bool {
        &&& self.sentinel == PORTAL_MAGIC
        &&& 0 <= self.argc <= MAX_PORTAL_ARGS
        &&& self.args@.len() == self.argc as int
    }

    /// A well-formed request for identifier `magic` with exactly `args`.
    pub open spec fn carries(&self, magic: URegSize, args: Seq<u64>) -> bool {
        &&& self.well_formed()
        &&& self.user_magic == magic
        &&& self.args@ == args
    }
}

/// Builds the request for identifier `user_magic` with the first `argc`
/// values of `args`. There is none when `argc` is outside 0 to 5 or exceeds
/// the values given.
pub fn portal_call(user_magic: URegSize, argc: i32, args: &[u64]) -> (r: Option<PortalRequest>)
    ensures
        r is Some <==> (0 <= argc <= MAX_PORTAL_ARGS && argc as int <= args@.len()),
        r matches Some(q) ==> q.carries(user_magic, args@.subrange(0, argc as int)),
{
    if argc < 0 || argc > MAX_PORTAL_ARGS || argc as usize > args.len() {
        return None;
    }
    let n = argc as usize;
    let mut v: Vec<u64> = Vec::new();
    let mut i: usize = 0;
    while i < n
        invariant
            n <= args@.len(),
            i <= n,
            v@ == args@.subrange(0, i as int),
        decreases n - i,
    {
        v.push(args[i]);
        i = i + 1;
        assert(v@ =~= args@.subrange(0, i as int));
    }
    Some(PortalRequest { sentinel: PORTAL_MAGIC, user_magic, argc, args: v })
}

/// Portal call with no arguments.
pub fn portal_call0(user_magic: URegSize) -> (r: PortalRequest)
    ensures
        r.carries(user_magic, seq![]),
{
    let v: Vec<u64> = Vec::new();
    let r = portal_call(user_magic, 0, v.as_slice());
    assert(v@.subrange(0, 0) =~= seq![]);
    r.unwrap()
}

/// Portal call with one argument.
pub fn portal_call1(user_magic: URegSize, a1: u64) -> (r: PortalRequest)
    ensures
        r.carries(user_magic, seq![a1]),
{
    let v: Vec<u64> = vec![a1];
    let r = portal_call(user_magic, 1, v.as_slice());
    assert(v@.subrange(0, 1) =~= seq![a1]);
    r.unwrap()
}

/// Portal call with two arguments.
pub fn portal_call2(user_magic: URegSize, a1: u64, a2: u64) -> (r: PortalRequest)
    ensures
        r.carries(user_magic, seq![a1, a2]),
{
    let v: Vec<u64> = vec![a1, a2];
    let r = portal_call(user_magic, 2, v.as_slice());
    assert(v@.subrange(0, 2) =~= seq![a1, a2]);
    r.unwrap()
}

/// Portal call with three arguments.
pub fn portal_call3(user_magic: URegSize, a1: u64, a2: u64, a3: u64) -> (r: PortalRequest)
    ensures
        r.carries(user_magic, seq![a1, a2, a3]),
{
    let v: Vec<u64> = vec![a1, a2, a3];
    let r = portal_call(user_magic, 3, v.as_slice());
    assert(v@.subrange(0, 3) =~= seq![a1, a2, a3]);
    r.unwrap()
}

/// Portal call with four arguments.
pub fn portal_call4(user_magic: URegSize, a1: u64, a2: u64, a3: u64, a4: u64) -> (r:
    PortalRequest)
    ensures
        r.carries(user_magic, seq![a1, a2, a3, a4]),
{
    let v: Vec<u64> = vec![a1, a2, a3, a4];
    let r = portal_call(user_magic, 4, v.as_slice());
    assert(v@.subrange(0, 4) =~= seq![a1, a2, a3, a4]);
    r.unwrap()
}

/// Portal call with five arguments.
pub fn portal_call5(user_magic: URegSize, a1: u64, a2: u64, a3: u64, a4: u64, a5: u64) -> (r:
    PortalRequest)
    ensures
        r.carries(user_magic, seq![a1, a2, a3, a4, a5]),
{
    let v: Vec<u64> = vec![a1, a2, a3, a4, a5];
    let r = portal_call(user_magic, 5, v.as_slice());
    assert(v@.subrange(0, 5) =~= seq![a1, a2, a3, a4, a5]);
    r.unwrap()
}

} // verus!
