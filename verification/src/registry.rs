//! The connection registry: the unordered set of currently-live subscriber
//! connections, keyed by connection identity.
use vstd::prelude::*;

verus! {

/// Relates a registry's contents before and after removing connection `c`:
/// `c` is gone, every other connection's membership is untouched, and
/// removing an absent connection changes nothing.
pub open spec fn removal_of(before: Seq<u64>, after: Seq<u64>, c: u64) -> bool {
    &&& !after.contains(c)
    &&& forall|x: u64| x != c ==> (after.contains(x) <==> before.contains(x))
    &&& before.contains(c) ==> after.len() == before.len() - 1
    &&& !before.contains(c) ==> after == before
}

/// Relates a registry's contents before and after registering connection
/// `c`: `c` is present, every other connection's membership is untouched,
/// and registering an already-present connection changes nothing.
pub open spec fn registration_of(before: Seq<u64>, after: Seq<u64>, c: u64) -> bool {
    &&& after.contains(c)
    &&& forall|x: u64| x != c ==> (after.contains(x) <==> before.contains(x))
    &&& before.contains(c) ==> after == before
    &&& !before.contains(c) ==> after == before.push(c)
}

/// The registry of live subscriber connections. Each entry is a connection
/// identity; the collection is unordered in meaning (contracts speak of
/// membership), and holds each identity at most once.
pub struct Registry {
    conns: Vec<u64>,
}

impl View for Registry {
    type V = Seq<u64>;

    closed spec fn view(&self) -> Seq<u64> {
        self.conns@
    }
}

impl Registry {
    /// Each live connection appears exactly once.
    pub open spec fn wf(&self) -> bool {
        self@.no_duplicates()
    }

    /// Creates an empty registry.
    pub fn new() -> (r: Self)
        ensures
            r.wf(),
            r@ == Seq::<u64>::empty(),
    {
        Registry { conns: Vec::new() }
    }

    /// Whether connection `conn` is currently registered.
    pub fn contains(&self, conn: u64) -> (r: bool)
        ensures
            r == self@.contains(conn),
    {
        let mut i: usize = 0;
        while i < self.conns.len()
            invariant
                0 <= i <= self.conns.len(),
                forall|j: int| 0 <= j < i ==> self.conns@[j] != conn,
            decreases self.conns.len() - i,
        {
            if self.conns[i] == conn {
                return true;
            }
            i += 1;
        }
        false
    }

    /// The number of live connections.
    pub fn len(&self) -> (r: usize)
        ensures
            r == self@.len(),
    {
        self.conns.len()
    }

    /// Returns the current connection list, so that slow per-connection
    /// sends can happen after the registry's critical section has ended.
    pub fn snapshot(&self) -> (r: Vec<u64>)
        ensures
            r@ == self@,
    {
        let r = self.conns.clone();
        proof {
            assert(r@ =~= self.conns@);
        }
        r
    }

    /// Adds `conn`; always succeeds. Registering an identity that is
    /// already present leaves the registry unchanged.
    pub fn register(&mut self, conn: u64)
        requires
            old(self).wf(),
        ensures
            final(self).wf(),
            registration_of(old(self)@, final(self)@, conn),
    {
        let ghost before = self.conns@;
        if !self.contains(conn) {
            self.conns.push(conn);
            proof {
                let after = self.conns@;
                assert(after[after.len() - 1] == conn);
                assert forall|x: u64| x != conn implies (after.contains(x) <==> before.contains(
                    x,
                )) by {
                    if after.contains(x) {
                        let j = choose|j: int| 0 <= j < after.len() && after[j] == x;
                        assert(j < before.len());
                        assert(before[j] == x);
                    }
                    if before.contains(x) {
                        let j = choose|j: int| 0 <= j < before.len() && before[j] == x;
                        assert(after[j] == x);
                    }
                }
                assert(after.no_duplicates()) by {
                    assert forall|p: int, q: int|
                        0 <= p < q < after.len() implies after[p] != after[q] by {
                        if q == after.len() - 1 {
                            assert(after[p] == before[p]);
                            assert(!before.contains(conn));
                        }
                    }
                }
            }
        }
    }

    /// Removes `conn` if present; a no-op if it is already absent, so that
    /// two teardown triggers racing each other (explicit close and heartbeat
    /// timeout) can both run it safely.
    pub fn unregister(&mut self, conn: u64)
        requires
            old(self).wf(),
        ensures
            final(self).wf(),
            removal_of(old(self)@, final(self)@, conn),
    {
        let ghost before = self.conns@;
        let mut i: usize = 0;
        while i < self.conns.len()
            invariant
                before == old(self)@,
                self.conns@ == before,
                before.no_duplicates(),
                0 <= i <= before.len(),
                forall|j: int| 0 <= j < i ==> before[j] != conn,
            decreases before.len() - i,
        {
            if self.conns[i] == conn {
                self.conns.remove(i);
                proof {
                    let after = self.conns@;
                    assert(before[i as int] == conn);
                    assert(before.contains(conn));
                    assert(forall|j: int|
                        0 <= j < after.len() ==> after[j] == if j < i {
                            before[j]
                        } else {
                            before[j + 1]
                        });
                    assert(!after.contains(conn)) by {
                        assert forall|j: int| 0 <= j < after.len() implies after[j] != conn by {
                            if j >= i {
                                assert(before[j + 1] != before[i as int]);
                            }
                        }
                    }
                    assert forall|x: u64| x != conn implies (after.contains(x)
                        <==> before.contains(x)) by {
                        if after.contains(x) {
                            let j = choose|j: int| 0 <= j < after.len() && after[j] == x;
                            if j < i {
                                assert(before[j] == x);
                            } else {
                                assert(before[j + 1] == x);
                            }
                        }
                        if before.contains(x) {
                            let j = choose|j: int| 0 <= j < before.len() && before[j] == x;
                            if j < i {
                                assert(after[j] == x);
                            } else {
                                assert(j != i);
                                assert(after[j - 1] == x);
                            }
                        }
                    }
                    assert(after.no_duplicates()) by {
                        assert forall|p: int, q: int|
                            0 <= p < q < after.len() implies after[p] != after[q] by {
                            let p0 = if p < i { p } else { p + 1 };
                            let q0 = if q < i { q } else { q + 1 };
                            assert(after[p] == before[p0]);
                            assert(after[q] == before[q0]);
                        }
                    }
                }
                return;
            }
            i += 1;
        }
        proof {
            assert(!before.contains(conn)) by {
                assert forall|j: int| 0 <= j < before.len() implies before[j] != conn by {}
            }
        }
    }
}

} // verus!
