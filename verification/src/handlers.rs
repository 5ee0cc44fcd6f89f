//! The request handlers: the read and write entry points that drive the
//! document store and the broadcast hub.
use vstd::prelude::*;

use crate::document::DocumentStore;
use crate::document::SizeExceeded;
use crate::document::doc_after_write;
use crate::document::read_result;
use crate::document::write_accepted;
use crate::hub::Delivery;
use crate::hub::is_fanout;
use crate::hub::publish;
use crate::registry::Registry;

verus! {

/// Serves a read: returns the current document in full. Never fails, even
/// before any write (the result is then empty).
pub fn handle_read(store: &DocumentStore) -> (r: Vec<u8>)
    ensures
        r@ == read_result(store@),
{
    store.get()
}

/// Serves a write from any source — a plain request or a subscriber's
/// inbound message; both paths enforce the same size policy. A candidate
/// within the bound replaces the document and is fanned out to every
/// registered connection; an oversized one is rejected with `SizeExceeded`,
/// leaving the document untouched and producing no deliveries. No side
/// effects beyond these two.
pub fn handle_write(store: &mut DocumentStore, registry: &Registry, body: Vec<u8>) -> (r: Result<
    Vec<Delivery>,
    SizeExceeded,
>)
    ensures
        final(store).bound() == old(store).bound(),
        final(store)@ == doc_after_write(old(store)@, body@, old(store).bound()),
        r is Ok <==> write_accepted(body@, old(store).bound()),
        (r matches Ok(ds) ==> is_fanout(registry@, body@, ds@)),
{
    match store.set(body) {
        Ok(()) => {
            let content = store.get();
            Ok(publish(registry, &content))
        },
        Err(e) => Err(e),
    }
}

} // verus!
