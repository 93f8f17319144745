//! The global build fingerprint handed out to host processes.
//!
//! The fingerprint surface is peripheral to the pipeline: a native-binding
//! or loopback-service shell asks for the cached global fingerprint and
//! forwards it verbatim. The values themselves are fixed placeholders. The
//! shells that move them across a C boundary or a socket live outside this
//! crate; they call these functions and do the ferrying themselves.

use vstd::prelude::*;

verus! {

/// The cached global build fingerprint, as text.
pub fn get_global_hash() -> (r: String)
    ensures
        r@ == "foo"@,
{
    "foo".to_owned()
}

/// The reply payload the fingerprint service answers with: the fingerprint
/// as bytes (the codes of the characters `f`, `o`, `o`, `!`).
pub fn global_hash_reply() -> (r: Vec<u8>)
    ensures
        r@ == seq![102u8, 111u8, 111u8, 33u8],
{
    let mut reply: Vec<u8> = Vec::new();
    reply.push(102);
    reply.push(111);
    reply.push(111);
    reply.push(33);
    proof {
        assert(reply@ =~= seq![102u8, 111u8, 111u8, 33u8]);
    }
    reply
}

/// The exit status a fingerprint-service shell reports to its host: zero
/// when the server ran to completion, one when it failed.
pub fn server_exit_code(ok: bool) -> (r: i32)
    ensures
        r == if ok {
            0i32
        } else {
            1i32
        },
{
    if ok {
        0
    } else {
        1
    }
}

} // verus!
