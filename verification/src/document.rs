//! The document store: owns the current clipboard content and its size bound.
use vstd::prelude::*;

verus! {

/// Error reported when a candidate document exceeds the configured maximum size.
#[derive(Clone, Copy, Debug, PartialEq, Eq, Structural)]
pub struct SizeExceeded;

/// The document a freshly created store holds: the empty byte sequence.
pub open spec fn initial_document() -> Seq<u8> {
    Seq::<u8>::empty()
}

/// Whether a write of `candidate` is accepted against the size bound `max`.
pub open spec fn write_accepted(candidate: Seq<u8>, max: nat) -> bool {
    candidate.len() <= max
}

/// The stored document after a write of `candidate` against the size bound
/// `max`: an accepted candidate fully replaces the document (last writer
/// wins); a rejected one leaves it unchanged.
pub open spec fn doc_after_write(doc: Seq<u8>, candidate: Seq<u8>, max: nat) -> Seq<u8> {
    if write_accepted(candidate, max) {
        candidate
    } else {
        doc
    }
}

/// What a read returns when the stored document is `doc`.
pub open spec fn read_result(doc: Seq<u8>) -> Seq<u8> {
    doc
}

/// The single shared document: a byte sequence bounded by a maximum size
/// fixed at construction. Exactly one instance exists for the process
/// lifetime; it starts empty and is replaced wholesale by accepted writes.
pub struct DocumentStore {
    content: Vec<u8>,
    max_size: usize,
}

impl View for DocumentStore {
    type V = Seq<u8>;

    closed spec fn view(&self) -> Seq<u8> {
        self.content@
    }
}

impl DocumentStore {
    /// The maximum content size this store accepts.
    pub closed spec fn bound(&self) -> nat {
        self.max_size as nat
    }

    /// Creates an empty store with the given size bound.
    pub fn new(max_size: usize) -> (s: Self)
        ensures
            s@ == initial_document(),
            s.bound() == max_size as nat,
    {
        DocumentStore { content: Vec::new(), max_size }
    }

    /// Returns a snapshot of the current document. Never fails; before any
    /// write it returns the empty value.
    pub fn get(&self) -> (r: Vec<u8>)
        ensures
            r@ == read_result(self@),
    {
        let r = self.content.clone();
        proof {
            assert(r@ =~= self.content@);
        }
        r
    }

    /// Replaces the stored document with `candidate` if it fits the bound;
    /// otherwise leaves the store unchanged and reports `SizeExceeded`.
    pub fn set(&mut self, candidate: Vec<u8>) -> (r: Result<(), SizeExceeded>)
        ensures
            final(self).bound() == old(self).bound(),
            final(self)@ == doc_after_write(old(self)@, candidate@, old(self).bound()),
            r is Ok <==> write_accepted(candidate@, old(self).bound()),
    {
        if candidate.len() <= self.max_size {
            self.content = candidate;
            Ok(())
        } else {
            Err(SizeExceeded)
        }
    }
}

/// Law: for any content within the size bound, a write followed by a read
/// returns exactly that content.
pub proof fn lemma_write_then_read(doc: Seq<u8>, candidate: Seq<u8>, max: nat)
    requires
        candidate.len() <= max,
    ensures
        write_accepted(candidate, max),
        read_result(doc_after_write(doc, candidate, max)) == candidate,
{
}

/// Law: an oversized write is rejected and a subsequent read returns the
/// pre-write document unchanged.
pub proof fn lemma_oversized_write_ignored(doc: Seq<u8>, candidate: Seq<u8>, max: nat)
    requires
        candidate.len() > max,
    ensures
        !write_accepted(candidate, max),
        read_result(doc_after_write(doc, candidate, max)) == doc,
{
}

/// Law: a read before any write returns the empty value.
pub proof fn lemma_fresh_read_empty()
    ensures
        read_result(initial_document()).len() == 0,
{
}

} // verus!
