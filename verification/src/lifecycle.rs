//! Lifecycle decisions for the two resource classes the registry serves:
//! connections, and the query cursors derived from them. Each class has a
//! table of its own — `Table<C, u32>` for connections, where the metadata is
//! the configured thread count, and `Table<Q, ()>` for query cursors.
//!
//! The native engine call itself (open, prepare and execute, version lookup)
//! happens outside this crate; these functions take its outcome as a value
//! and decide, with a contract, what the registry does with it.

use crate::registry::{Slot, Table};
use vstd::prelude::*;

verus! {

/// Where an open request is directed: the in-memory engine instance for the
/// distinguished sentinel path, a file-backed instance for every other path.
#[derive(Clone, Copy, Debug, PartialEq, Eq, Structural)]
pub enum OpenTarget {
    InMemory,
    FileBacked,
}

/// The view of the distinguished path that selects an in-memory engine.
pub open spec fn in_memory_path() -> Seq<char> {
    ":memory:"@
}

/// Relies on `&str` equality (`==`): true exactly when the two strings hold
/// the same characters.
#[verifier::external_body]
fn str_eq(a: &str, b: &str) -> (r: bool)
    ensures
        r == (a@ == b@),
{
    a == b
}

/// Decides whether a path names the in-memory engine or a database file.
pub fn open_target(path: &str) -> (r: OpenTarget)
    ensures
        (r == OpenTarget::InMemory) <==> path@ == in_memory_path(),
{
    if str_eq(path, ":memory:") {
        OpenTarget::InMemory
    } else {
        OpenTarget::FileBacked
    }
}

/// Registers the outcome of a native open. On engine success the new
/// connection becomes a slot with the resolved thread count as metadata and
/// its fresh identifier is returned; on engine failure the message is passed
/// through verbatim and no slot is created.
pub fn finish_open<C>(conns: &mut Table<C, u32>, outcome: Result<C, String>, threads: u32) -> (r:
    Result<u64, String>)
    requires
        old(conns).wf(),
        old(conns).last_id() < u64::MAX,
    ensures
        final(conns).wf(),
        outcome matches Ok(native) ==> r matches Ok(id) && id == old(conns).last_id() + 1
            && final(conns).last_id() == id && !old(conns).issued().contains(id)
            && final(conns).slots() == old(conns).slots().insert(
            id,
            (Slot { native, meta: threads }),
        ),
        outcome matches Err(msg) ==> r == Err::<u64, String>(msg) && *final(conns) == *old(conns),
{
    match outcome {
        Ok(native) => Ok(conns.insert(native, threads)),
        Err(msg) => Err(msg),
    }
}

/// Shared lookup of a connection's native object. `None` exactly when the
/// identifier is not currently a valid connection: never issued by an open,
/// or closed since.
pub fn connection<'a, C>(conns: &'a Table<C, u32>, id: u64) -> (r: Option<&'a C>)
    ensures
        match r {
            Some(c) => conns.slots().contains_key(id) && *c == conns.slots()[id].native,
            None => !conns.slots().contains_key(id),
        },
{
    match conns.get(id) {
        Some(slot) => Some(&slot.native),
        None => None,
    }
}

/// Registers the outcome of preparing and executing a statement against a
/// connection. On engine success the new cursor becomes a slot in the query
/// class — its own table and identifier space, disjoint from connections —
/// and its fresh identifier is returned; on engine failure the message is
/// passed through verbatim and no slot is created.
pub fn finish_query<Q>(queries: &mut Table<Q, ()>, outcome: Result<Q, String>) -> (r: Result<
    u64,
    String,
>)
    requires
        old(queries).wf(),
        old(queries).last_id() < u64::MAX,
    ensures
        final(queries).wf(),
        outcome matches Ok(native) ==> r matches Ok(id) && id == old(queries).last_id() + 1
            && final(queries).last_id() == id && !old(queries).issued().contains(id)
            && final(queries).slots() == old(queries).slots().insert(
            id,
            (Slot { native, meta: () }),
        ),
        outcome matches Err(msg) ==> r == Err::<u64, String>(msg)
            && *final(queries) == *old(queries),
{
    match outcome {
        Ok(native) => Ok(queries.insert(native, ())),
        Err(msg) => Err(msg),
    }
}

/// Closes a connection: removes its slot if present, dropping the native
/// object. Closing an unknown or already-closed identifier is a no-op
/// success, so close is idempotent; the identifier is never issued again
/// either way.
pub fn close<C>(conns: &mut Table<C, u32>, id: u64)
    ensures
        final(conns).slots() == old(conns).slots().remove(id),
        final(conns).last_id() == old(conns).last_id(),
        final(conns).issued() == old(conns).issued(),
        old(conns).wf() ==> final(conns).wf(),
{
    conns.remove(id);
}

/// The worker-thread count recorded as metadata when the connection was
/// opened — a stored fact, not a live engine reading.
pub fn thread_count<C>(conns: &Table<C, u32>, id: u64) -> (n: u32)
    requires
        conns.slots().contains_key(id),
    ensures
        n == conns.slots()[id].meta,
{
    let slot = conns.get(id).unwrap();
    slot.meta
}

/// What the version entry point reports, given the native call's outcome: the
/// engine's version string on success, the empty string on failure.
pub fn version_string(outcome: Result<String, String>) -> (r: String)
    ensures
        outcome matches Ok(v) ==> r == v,
        outcome matches Err(_) ==> r@ == Seq::<char>::empty(),
{
    match outcome {
        Ok(v) => v,
        Err(_) => String::new(),
    }
}

} // verus!
