//! The subscription manager: which connections are interested in which
//! resource URIs.
//!
//! Membership is a set of (URI, connection) pairs with no duplicate
//! membership per URI.  Subscribing is idempotent; unsubscribing an
//! absent membership is a no-op; closing a connection prunes all of its
//! memberships.

use vstd::prelude::*;

verus! {

/// Tracks which connections are subscribed to which resource URIs.
pub struct SubscriptionManager {
    /// The memberships, as (URI, connection identifier) pairs.
    pub entries: Vec<(String, u64)>,
}

impl SubscriptionManager {
    /// No two memberships name the same URI and connection.
    pub open spec fn wf(&self) -> bool {
        forall|a: int, b: int|
            0 <= a < b < self.entries@.len() ==> !((#[trigger] self.entries@[a]).0@
                == (#[trigger] self.entries@[b]).0@ && self.entries@[a].1 == self.entries@[b].1)
    }

    /// Whether connection `id` is subscribed to `uri`.
    pub open spec fn spec_subscribed(&self, uri: Seq<char>, id: u64) -> bool {
        exists|i: int|
            0 <= i < self.entries@.len() && (#[trigger] self.entries@[i]).0@ == uri
                && self.entries@[i].1 == id
    }

    /// An empty manager.
    pub fn new() -> (r: Self)
        ensures
            r.wf(),
            r.entries@.len() == 0,
    {
        SubscriptionManager { entries: Vec::new() }
    }

    /// The position of the membership (uri, id), if recorded.
    fn index_of(&self, uri: &str, id: u64) -> (r: Option<usize>)
        ensures
            match r {
                Some(i) => i < self.entries@.len() && self.entries@[i as int].0@ == uri@
                    && self.entries@[i as int].1 == id,
                None => !self.spec_subscribed(uri@, id),
            },
    {
        let mut i: usize = 0;
        while i < self.entries.len()
            invariant
                i <= self.entries@.len(),
                forall|j: int|
                    0 <= j < i ==> !((#[trigger] self.entries@[j]).0@ == uri@
                        && self.entries@[j].1 == id),
            decreases self.entries@.len() - i,
        {
            if crate::text::str_eq(self.entries[i].0.as_str(), uri) && self.entries[i].1 == id {
                return Some(i);
            }
            i += 1;
        }
        None
    }

    /// Record that `id` is interested in `uri`; idempotent.  No other
    /// membership changes.
    pub fn subscribe(&mut self, id: u64, uri: String)
        requires
            old(self).wf(),
        ensures
            final(self).wf(),
            final(self).spec_subscribed(uri@, id),
            forall|u: Seq<char>, c: u64|
                !(u == uri@ && c == id) ==> final(self).spec_subscribed(u, c) == old(
                    self,
                ).spec_subscribed(u, c),
    {
        match self.index_of(uri.as_str(), id) {
            Some(_) => (),
            None => {
                let ghost olds = self.entries@;
                self.entries.push((uri, id));
                proof {
                    assert(self.entries@[olds.len() as int].0@ == uri@);
                    assert(self.entries@[olds.len() as int].1 == id);
                    assert forall|a: int, b: int| 0 <= a < b < self.entries@.len() implies !((
                    #[trigger] self.entries@[a]).0@ == (#[trigger] self.entries@[b]).0@
                        && self.entries@[a].1 == self.entries@[b].1) by {
                        if b == olds.len() as int {
                            assert(self.entries@[a] == olds[a]);
                        } else {
                            assert(self.entries@[a] == olds[a]);
                            assert(self.entries@[b] == olds[b]);
                        }
                    }
                    assert forall|u: Seq<char>, c: u64| !(u == uri@ && c == id) implies self.spec_subscribed(u, c) == old(self).spec_subscribed(u, c) by {
                        if old(self).spec_subscribed(u, c) {
                            let i = choose|i: int|
                                0 <= i < olds.len() && (#[trigger] olds[i]).0@ == u && olds[i].1
                                    == c;
                            assert(self.entries@[i] == olds[i]);
                        }
                        if self.spec_subscribed(u, c) {
                            let i = choose|i: int|
                                0 <= i < self.entries@.len() && (#[trigger] self.entries@[i]).0@
                                    == u && self.entries@[i].1 == c;
                            if i < olds.len() {
                                assert(olds[i] == self.entries@[i]);
                            }
                        }
                    }
                }
            },
        }
    }

    /// Drop the membership of `id` in `uri`, if recorded.  No other
    /// membership changes.
    pub fn unsubscribe(&mut self, id: u64, uri: &str) -> (found: bool)
        requires
            old(self).wf(),
        ensures
            final(self).wf(),
            !final(self).spec_subscribed(uri@, id),
            found == old(self).spec_subscribed(uri@, id),
            forall|u: Seq<char>, c: u64|
                !(u == uri@ && c == id) ==> final(self).spec_subscribed(u, c) == old(
                    self,
                ).spec_subscribed(u, c),
    {
        match self.index_of(uri, id) {
            Some(i) => {
                let ghost olds = self.entries@;
                let ghost gi = i as int;
                self.entries.remove(i);
                proof {
                    assert forall|a: int|
                        0 <= a < self.entries@.len() implies #[trigger] self.entries@[a] == (
                    if a < gi {
                        olds[a]
                    } else {
                        olds[a + 1]
                    }) by {}
                    assert forall|a: int, b: int| 0 <= a < b < self.entries@.len() implies !((
                    #[trigger] self.entries@[a]).0@ == (#[trigger] self.entries@[b]).0@
                        && self.entries@[a].1 == self.entries@[b].1) by {
                        let oa = if a < gi {
                            a
                        } else {
                            a + 1
                        };
                        let ob = if b < gi {
                            b
                        } else {
                            b + 1
                        };
                        assert(self.entries@[a] == olds[oa]);
                        assert(self.entries@[b] == olds[ob]);
                    }
                    assert forall|u: Seq<char>, c: u64| !(u == uri@ && c == id) implies self.spec_subscribed(u, c) == old(self).spec_subscribed(u, c) by {
                        if old(self).spec_subscribed(u, c) {
                            let oi = choose|oi: int|
                                0 <= oi < olds.len() && (#[trigger] olds[oi]).0@ == u && olds[oi].1
                                    == c;
                            let ni = if oi < gi {
                                oi
                            } else {
                                oi - 1
                            };
                            assert(oi != gi);
                            assert(self.entries@[ni] == olds[oi]);
                        }
                        if self.spec_subscribed(u, c) {
                            let ni = choose|ni: int|
                                0 <= ni < self.entries@.len() && (#[trigger] self.entries@[ni]).0@
                                    == u && self.entries@[ni].1 == c;
                            let oi = if ni < gi {
                                ni
                            } else {
                                ni + 1
                            };
                            assert(self.entries@[ni] == olds[oi]);
                        }
                    }
                    assert forall|a: int|
                        0 <= a < self.entries@.len() implies !((#[trigger] self.entries@[a]).0@
                        == uri@ && self.entries@[a].1 == id) by {
                        let oa = if a < gi {
                            a
                        } else {
                            a + 1
                        };
                        assert(self.entries@[a] == olds[oa]);
                        assert(olds[gi].0@ == uri@ && olds[gi].1 == id);
                    }
                }
                true
            },
            None => false,
        }
    }

    /// The connections subscribed to `uri`, each once.
    pub fn subscribers_of(&self, uri: &str) -> (r: Vec<u64>)
        requires
            self.wf(),
        ensures
            r@.no_duplicates(),
            forall|c: u64| r@.contains(c) <==> self.spec_subscribed(uri@, c),
    {
        let mut out: Vec<u64> = Vec::new();
        let mut i: usize = 0;
        while i < self.entries.len()
            invariant
                self.wf(),
                i <= self.entries@.len(),
                out@.no_duplicates(),
                forall|c: u64| #[trigger]
                    out@.contains(c) <==> exists|j: int|
                        0 <= j < i && (#[trigger] self.entries@[j]).0@ == uri@
                            && self.entries@[j].1 == c,
            decreases self.entries@.len() - i,
        {
            if crate::text::str_eq(self.entries[i].0.as_str(), uri) {
                let c = self.entries[i].1;
                proof {
                    if out@.contains(c) {
                        let j = choose|j: int|
                            0 <= j < i && (#[trigger] self.entries@[j]).0@ == uri@
                                && self.entries@[j].1 == c;
                        assert(false);
                    }
                }
                let ghost out0 = out@;
                out.push(c);
                proof {
                    assert(out@[out@.len() - 1] == c);
                    assert forall|a: int, b: int| 0 <= a < b < out@.len() implies out@[a]
                        != out@[b] by {
                        assert(out@[a] == out0[a]);
                        if b < out@.len() - 1 {
                            assert(out@[b] == out0[b]);
                        } else {
                            assert(out0.contains(out0[a]));
                        }
                    }
                    assert forall|c2: u64| #[trigger] out@.contains(c2) implies exists|j: int|
                        0 <= j < i + 1 && (#[trigger] self.entries@[j]).0@ == uri@
                            && self.entries@[j].1 == c2 by {
                        let a = choose|a: int| 0 <= a < out@.len() && out@[a] == c2;
                        if a < out@.len() - 1 {
                            assert(out0[a] == c2);
                            assert(out0.contains(c2));
                        } else {
                            assert(self.entries@[i as int].0@ == uri@ && self.entries@[i as int].1
                                == c2);
                        }
                    }
                    assert forall|c2: u64|
                        exists|j: int|
                            0 <= j < i + 1 && (#[trigger] self.entries@[j]).0@ == uri@
                                && self.entries@[j].1 == c2 implies #[trigger] out@.contains(
                        c2,
                    ) by {
                        let j = choose|j: int|
                            0 <= j < i + 1 && (#[trigger] self.entries@[j]).0@ == uri@
                                && self.entries@[j].1 == c2;
                        if j < i {
                            assert(out0.contains(c2));
                            let a = choose|a: int| 0 <= a < out0.len() && out0[a] == c2;
                            assert(out@[a] == c2);
                        } else {
                            assert(out@[out@.len() - 1] == c2);
                        }
                    }
                }
            }
            i += 1;
        }
        out
    }

    /// Drop every membership of connection `id`; nothing else changes.
    #[verifier::loop_isolation(false)]
    pub fn prune_connection(&mut self, id: u64)
        requires
            old(self).wf(),
        ensures
            final(self).wf(),
            forall|u: Seq<char>, c: u64|
                final(self).spec_subscribed(u, c) <==> (old(self).spec_subscribed(u, c) && c
                    != id),
    {
        let ghost olds = self.entries@;
        let mut kept: Vec<(String, u64)> = Vec::new();
        let ghost mut srcs: Seq<int> = Seq::empty();
        let mut i: usize = 0;
        while i < self.entries.len()
            invariant
                self.entries@ == olds,
                self.wf(),
                i <= olds.len(),
                srcs.len() == kept@.len(),
                forall|a: int| 0 <= a < kept@.len() ==> 0 <= #[trigger] srcs[a] < i,
                forall|a: int|
                    0 <= a < kept@.len() ==> olds[srcs[a]] == (#[trigger] kept@[a]),
                forall|a: int| 0 <= a < kept@.len() ==> (#[trigger] olds[srcs[a]]).1 != id,
                forall|a: int, b: int| 0 <= a < b < srcs.len() ==> srcs[a] < srcs[b],
                forall|j: int|
                    0 <= j < i && (#[trigger] olds[j]).1 != id ==> kept@.contains(olds[j]),
            decreases olds.len() - i,
        {
            if self.entries[i].1 != id {
                let pair = (self.entries[i].0.clone(), self.entries[i].1);
                let ghost kept0 = kept@;
                let ghost srcs0 = srcs;
                kept.push(pair);
                proof {
                    srcs = srcs.push(i as int);
                    assert(kept@[kept@.len() - 1] == olds[i as int]);
                    assert(srcs[srcs.len() - 1] == i as int);
                    assert forall|a: int|
                        0 <= a < kept@.len() implies 0 <= srcs[a] < i + 1 && olds[srcs[a]] == (
                    #[trigger] kept@[a]) && olds[srcs[a]].1 != id by {
                        if a < kept@.len() - 1 {
                            assert(kept@[a] == kept0[a]);
                            assert(srcs[a] == srcs0[a]);
                            assert(0 <= srcs0[a] < i && olds[srcs0[a]] == kept0[a]
                                && olds[srcs0[a]].1 != id);
                        }
                    }
                    assert forall|a: int, b: int| 0 <= a < b < srcs.len() implies srcs[a]
                        < srcs[b] by {
                        assert(srcs[a] == srcs0[a]);
                        assert(0 <= srcs0[a] < i && olds[srcs0[a]] == kept0[a] && olds[srcs0[a]].1
                            != id);
                        if b < srcs.len() - 1 {
                            assert(srcs[b] == srcs0[b]);
                        }
                    }
                    assert forall|j: int|
                        0 <= j < i + 1 && (#[trigger] olds[j]).1 != id implies kept@.contains(
                        olds[j],
                    ) by {
                        if j < i {
                            assert(kept0.contains(olds[j]));
                            let a = choose|a: int| 0 <= a < kept0.len() && kept0[a] == olds[j];
                            assert(kept@[a] == olds[j]);
                        } else {
                            assert(kept@[kept@.len() - 1] == olds[j]);
                        }
                    }
                }
            } else {
                proof {
                    assert forall|a: int|
                        0 <= a < kept@.len() implies 0 <= srcs[a] < i + 1 && olds[srcs[a]] == (
                    #[trigger] kept@[a]) && olds[srcs[a]].1 != id by {
                        assert(0 <= srcs[a] < i && olds[srcs[a]] == kept@[a] && olds[srcs[a]].1
                            != id);
                    }
                }
            }
            i += 1;
        }
        self.entries = kept;
        proof {
            assert forall|a: int, b: int| 0 <= a < b < self.entries@.len() implies !((
            #[trigger] self.entries@[a]).0@ == (#[trigger] self.entries@[b]).0@
                && self.entries@[a].1 == self.entries@[b].1) by {
                assert(olds[srcs[a]] == self.entries@[a]);
                assert(olds[srcs[b]] == self.entries@[b]);
                assert(srcs[a] < srcs[b]);
            }
            assert forall|u: Seq<char>, c: u64|
                self.spec_subscribed(u, c) <==> (old(self).spec_subscribed(u, c) && c != id) by {
                if self.spec_subscribed(u, c) {
                    let a = choose|a: int|
                        0 <= a < self.entries@.len() && (#[trigger] self.entries@[a]).0@ == u
                            && self.entries@[a].1 == c;
                    assert(olds[srcs[a]] == self.entries@[a]);
                    assert(old(self).spec_subscribed(u, c));
                }
                if old(self).spec_subscribed(u, c) && c != id {
                    let j = choose|j: int|
                        0 <= j < olds.len() && (#[trigger] olds[j]).0@ == u && olds[j].1 == c;
                    assert(self.entries@.contains(olds[j]));
                    let a = choose|a: int|
                        0 <= a < self.entries@.len() && self.entries@[a] == olds[j];
                    assert(self.entries@[a].0@ == u && self.entries@[a].1 == c);
                }
            }
        }
    }
}

} // verus!
