//! The broadcast hub: fans a new document value out to every registered
//! subscriber connection.
use vstd::prelude::*;

use crate::registry::Registry;

verus! {

/// One outbound text frame: the full replacement content, addressed to a
/// single registered connection. The transport performs the actual send;
/// a send that fails is isolated to its target connection and never aborts
/// the rest of the fan-out.
pub struct Delivery {
    pub target: u64,
    pub content: Vec<u8>,
}

/// Whether `ds` is a complete fan-out of `content` to exactly the
/// connections `conns`: one delivery per connection, each carrying the
/// full content.
pub open spec fn is_fanout(conns: Seq<u64>, content: Seq<u8>, ds: Seq<Delivery>) -> bool {
    &&& ds.len() == conns.len()
    &&& forall|i: int|
        0 <= i < ds.len() ==> ds[i].target == conns[i] && ds[i].content@ == content
}

/// Produces one delivery of `content` for every currently-registered
/// connection — including the connection whose action caused the update,
/// if it is registered: the hub does no echo suppression.
pub fn publish(registry: &Registry, content: &Vec<u8>) -> (r: Vec<Delivery>)
    ensures
        is_fanout(registry@, content@, r@),
{
    let targets = registry.snapshot();
    let mut out: Vec<Delivery> = Vec::new();
    let mut i: usize = 0;
    while i < targets.len()
        invariant
            targets@ == registry@,
            0 <= i <= targets@.len(),
            out@.len() == i,
            forall|j: int|
                0 <= j < i ==> out@[j].target == targets@[j] && out@[j].content@ == content@,
        decreases targets@.len() - i,
    {
        let c = content.clone();
        proof {
            assert(c@ =~= content@);
        }
        out.push(Delivery { target: targets[i], content: c });
        i += 1;
    }
    out
}

/// Law: a fan-out reaches every registered connection with the exact
/// published content — the originating subscriber included, when it is
/// registered.
pub proof fn lemma_broadcast_reaches_all(conns: Seq<u64>, content: Seq<u8>, ds: Seq<Delivery>)
    requires
        is_fanout(conns, content, ds),
    ensures
        forall|c: u64|
            conns.contains(c) ==> exists|i: int|
                0 <= i < ds.len() && #[trigger] ds[i].target == c && ds[i].content@ == content,
{
    assert forall|c: u64| conns.contains(c) implies exists|i: int|
        0 <= i < ds.len() && #[trigger] ds[i].target == c && ds[i].content@ == content by {
        let j = choose|j: int| 0 <= j < conns.len() && conns[j] == c;
        assert(0 <= j < ds.len() && ds[j].target == c && ds[j].content@ == content);
    }
}

/// Law: a fan-out never targets a connection that is not registered; in
/// particular, an evicted connection receives no later broadcasts.
pub proof fn lemma_broadcast_skips_absent(conns: Seq<u64>, content: Seq<u8>, ds: Seq<Delivery>, c: u64)
    requires
        is_fanout(conns, content, ds),
        !conns.contains(c),
    ensures
        forall|i: int| 0 <= i < ds.len() ==> #[trigger] ds[i].target != c,
{
    assert forall|i: int| 0 <= i < ds.len() implies #[trigger] ds[i].target != c by {
        assert(conns[i] != c);
    }
}

} // verus!
