//! Correlation of in-flight requests for transports that allow them to
//! overlap: each pending request id maps to one response slot, and the
//! entry leaves the table exactly when the answer arrives, whatever
//! order answers come in.

use vstd::prelude::*;

use crate::json::{json_eq, JsonSpec, JsonValue};

verus! {

/// Pending response slots, keyed by request id.  The slot type is the
/// transport's business; the core only stores and returns it.
pub struct CorrelationTable<S> {
    /// The in-flight requests: id and slot, in arrival order.
    pub entries: Vec<(JsonValue, S)>,
}

impl<S> CorrelationTable<S> {
    /// No two pending entries share an id.
    pub open spec fn wf(&self) -> bool {
        forall|a: int, b: int|
            0 <= a < b < self.entries@.len() ==> (#[trigger] self.entries@[a]).0@ != (
            #[trigger] self.entries@[b]).0@
    }

    /// Whether a request with this id is in flight.
    pub open spec fn spec_pending(&self, id: JsonSpec) -> bool {
        exists|i: int| 0 <= i < self.entries@.len() && (#[trigger] self.entries@[i]).0@ == id
    }

    /// An empty table.
    pub fn new() -> (r: Self)
        ensures
            r.wf(),
            r.entries@.len() == 0,
    {
        CorrelationTable { entries: Vec::new() }
    }

    /// The position of the entry pending under `id`, if any.
    fn index_of(&self, id: &JsonValue) -> (r: Option<usize>)
        ensures
            match r {
                Some(i) => i < self.entries@.len() && self.entries@[i as int].0@ == id@,
                None => !self.spec_pending(id@),
            },
    {
        let mut i: usize = 0;
        while i < self.entries.len()
            invariant
                i <= self.entries@.len(),
                forall|j: int| 0 <= j < i ==> (#[trigger] self.entries@[j]).0@ != id@,
            decreases self.entries@.len() - i,
        {
            if json_eq(&self.entries[i].0, id) {
                return Some(i);
            }
            i += 1;
        }
        None
    }

    /// Record an in-flight request.  A second request under a pending
    /// id is refused: the transport cannot correlate two answers.
    pub fn register(&mut self, id: JsonValue, slot: S) -> (accepted: bool)
        requires
            old(self).wf(),
        ensures
            final(self).wf(),
            accepted == !old(self).spec_pending(id@),
            accepted ==> final(self).entries@ == old(self).entries@.push((id, slot)),
            !accepted ==> *final(self) == *old(self),
            final(self).spec_pending(id@),
    {
        match self.index_of(&id) {
            Some(_) => false,
            None => {
                let ghost olds = self.entries@;
                self.entries.push((id, slot));
                proof {
                    assert(self.entries@[olds.len() as int].0@ == id@);
                    assert forall|a: int, b: int|
                        0 <= a < b < self.entries@.len() implies (
                    #[trigger] self.entries@[a]).0@ != (#[trigger] self.entries@[b]).0@ by {
                        assert(self.entries@[a] == olds[a]);
                        if b < olds.len() {
                            assert(self.entries@[b] == olds[b]);
                        }
                    }
                }
                true
            },
        }
    }

    /// An answer arrived: remove the entry pending under its id and
    /// hand the slot back.  An id with nothing in flight — an answer
    /// nothing asked for, or one already taken — yields nothing and
    /// changes nothing.
    pub fn take(&mut self, id: &JsonValue) -> (r: Option<S>)
        requires
            old(self).wf(),
        ensures
            final(self).wf(),
            !final(self).spec_pending(id@),
            match r {
                Some(slot) => exists|i: int|
                    0 <= i < old(self).entries@.len() && (#[trigger] old(self).entries@[i]).0@
                        == id@ && slot == old(self).entries@[i].1 && final(self).entries@ == old(
                        self,
                    ).entries@.remove(i),
                None => !old(self).spec_pending(id@) && *final(self) == *old(self),
            },
    {
        match self.index_of(id) {
            Some(i) => {
                let ghost olds = self.entries@;
                let ghost gi = i as int;
                let entry = self.entries.remove(i);
                proof {
                    assert forall|a: int, b: int|
                        0 <= a < b < self.entries@.len() implies (
                    #[trigger] self.entries@[a]).0@ != (#[trigger] self.entries@[b]).0@ by {
                        let oa = if a < gi {
                            a
                        } else {
                            a + 1
                        };
                        let ob = if b < gi {
                            b
                        } else {
                            b + 1
                        };
                        assert(self.entries@[a] == olds[oa]);
                        assert(self.entries@[b] == olds[ob]);
                    }
                    assert forall|a: int| 0 <= a < self.entries@.len() implies (
                    #[trigger] self.entries@[a]).0@ != id@ by {
                        let oa = if a < gi {
                            a
                        } else {
                            a + 1
                        };
                        assert(self.entries@[a] == olds[oa]);
                        assert(olds[gi].0@ == id@);
                    }
                }
                Some(entry.1)
            },
            None => None,
        }
    }

    /// How many requests are in flight.
    pub fn len(&self) -> (n: usize)
        ensures
            n == self.entries@.len(),
    {
        self.entries.len()
    }
}

} // verus!
