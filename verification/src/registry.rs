//! The concurrent-safe handler registry's core: a name-keyed store of
//! handlers and their metadata, with registration-order listing and
//! cursor pagination.
//!
//! A registry value is one consistent snapshot; the embedding
//! application guards it with a shared/exclusive lock so that every
//! reader observes a complete pre- or post-mutation state.  `add` is
//! last-write-wins: after it, every entry under the key holds the new
//! handler, so later lookups reach only that handler.

use vstd::prelude::*;

use crate::dup::DeepClone;
use crate::error::McpError;
use crate::text::{parse_u64_dec, spec_dec_text, spec_dec_val, spec_is_dec, u64_to_dec};

verus! {

/// One registration: key, descriptive metadata, and the handler.
pub struct RegEntry<M, H> {
    /// The name or URI the handler is registered under.
    pub key: String,
    /// Descriptive metadata returned by listing.
    pub meta: M,
    /// The collaborator-supplied handler.
    pub handler: H,
}

/// A name-keyed store of handlers, listed in registration order.
pub struct Registry<M, H> {
    /// The registrations, first-registered first.
    pub entries: Vec<RegEntry<M, H>>,
}

/// Where a pagination cursor points in a list of the given length:
/// absent means the start; otherwise the cursor must be the decimal
/// text of a position no greater than the length.
pub open spec fn spec_cursor_pos(c: Option<Seq<char>>, len: int) -> Option<int> {
    match c {
        None => Some(0),
        Some(s) => if spec_is_dec(s) && spec_dec_val(s) <= len {
            Some(spec_dec_val(s))
        } else {
            None
        },
    }
}

impl<M, H> Registry<M, H> {
    /// The keys, in registration order.
    pub open spec fn spec_keys(&self) -> Seq<Seq<char>> {
        Seq::new(self.entries@.len(), |i: int| self.entries@[i].key@)
    }

    /// Keys are unique.
    pub open spec fn wf(&self) -> bool {
        forall|i: int, j: int|
            0 <= i < j < self.entries@.len() ==> #[trigger] self.entries@[i].key@ != #[trigger] self.entries@[j].key@
    }

    /// Whether some entry is registered under `k`.
    pub open spec fn spec_has_key(&self, k: Seq<char>) -> bool {
        exists|i: int| 0 <= i < self.entries@.len() && #[trigger] self.entries@[i].key@ == k
    }

    /// An empty registry.
    pub fn new() -> (r: Self)
        ensures
            r.entries@.len() == 0,
            r.wf(),
    {
        Registry { entries: Vec::new() }
    }

    /// The number of registrations.
    pub fn len(&self) -> (n: usize)
        ensures
            n == self.entries@.len(),
    {
        self.entries.len()
    }

    /// The position of the entry registered under `key`, if any.
    pub fn index_of(&self, key: &str) -> (r: Option<usize>)
        ensures
            match r {
                Some(i) => i < self.entries@.len() && self.entries@[i as int].key@ == key@,
                None => !self.spec_has_key(key@),
            },
    {
        let mut i: usize = 0;
        while i < self.entries.len()
            invariant
                i <= self.entries@.len(),
                forall|j: int| 0 <= j < i ==> #[trigger] self.entries@[j].key@ != key@,
            decreases self.entries@.len() - i,
        {
            if crate::text::str_eq(self.entries[i].key.as_str(), key) {
                return Some(i);
            }
            i += 1;
        }
        None
    }

    /// The handler registered under `key`, if any.
    pub fn get(&self, key: &str) -> (r: Option<&H>)
        ensures
            match r {
                Some(h) => exists|i: int|
                    0 <= i < self.entries@.len() && #[trigger] self.entries@[i].key@ == key@ && *h
                        == self.entries@[i].handler,
                None => !self.spec_has_key(key@),
            },
    {
        match self.index_of(key) {
            Some(i) => Some(&self.entries[i].handler),
            None => None,
        }
    }

    /// What a last-write-wins registration does to the entry list: an
    /// existing entry is replaced in place, a new one is appended, and
    /// afterwards every entry under the key holds exactly the new
    /// metadata and handler, so later lookups reach only the new
    /// handler.
    pub open spec fn spec_add_effect(r0: Self, r1: Self, key: String, meta: M, handler: H) -> bool {
        &&& r1.wf()
        &&& r1.spec_has_key(key@)
        &&& (r0.spec_has_key(key@) ==> exists|i: int|
            0 <= i < r0.entries@.len() && #[trigger] r0.entries@[i].key@ == key@ && r1.entries@
                == r0.entries@.update(i, RegEntry { key, meta, handler }))
        &&& (!r0.spec_has_key(key@) ==> r1.entries@ == r0.entries@.push(
            RegEntry { key, meta, handler },
        ))
        &&& forall|i: int|
            0 <= i < r1.entries@.len() && #[trigger] r1.entries@[i].key@ == key@
                ==> r1.entries@[i].meta == meta && r1.entries@[i].handler == handler
    }

    /// What removing a key does to the entry list.
    pub open spec fn spec_remove_effect(r0: Self, r1: Self, key: Seq<char>, found: bool) -> bool {
        &&& r1.wf()
        &&& found == r0.spec_has_key(key)
        &&& (found ==> exists|i: int|
            0 <= i < r0.entries@.len() && #[trigger] r0.entries@[i].key@ == key && r1.entries@
                == r0.entries@.remove(i))
        &&& (!found ==> r1.entries@ == r0.entries@)
        &&& !r1.spec_has_key(key)
    }

    /// Register `handler` under `key`, last-write-wins.
    pub fn add(&mut self, key: String, meta: M, handler: H)
        requires
            old(self).wf(),
        ensures
            Self::spec_add_effect(*old(self), *final(self), key, meta, handler),
    {
        let found = self.index_of(key.as_str());
        match found {
            Some(i) => {
                let ghost olds = self.entries@;
                self.entries.set(i, RegEntry { key, meta, handler });
                proof {
                    assert(self.entries@[i as int].key@ == key@);
                    assert forall|a: int, b: int|
                        0 <= a < b < self.entries@.len() implies #[trigger] self.entries@[a].key@
                        != #[trigger] self.entries@[b].key@ by {
                        assert(olds[a].key@ != olds[b].key@);
                        assert(self.entries@[a].key@ == olds[a].key@);
                        assert(self.entries@[b].key@ == olds[b].key@);
                    }
                    assert forall|a: int|
                        0 <= a < self.entries@.len() && #[trigger] self.entries@[a].key@ == key@
                            implies self.entries@[a].meta == meta && self.entries@[a].handler
                        == handler by {
                        if a != i as int {
                            assert(olds[a].key@ == self.entries@[a].key@);
                            assert(olds[i as int].key@ == key@);
                        }
                    }
                }
            },
            None => {
                let ghost olds = self.entries@;
                self.entries.push(RegEntry { key, meta, handler });
                proof {
                    assert(self.entries@[olds.len() as int].key@ == key@);
                    assert forall|a: int, b: int|
                        0 <= a < b < self.entries@.len() implies #[trigger] self.entries@[a].key@
                        != #[trigger] self.entries@[b].key@ by {
                        if b == olds.len() as int {
                            assert(self.entries@[a].key@ == olds[a].key@);
                            assert(!old(self).spec_has_key(key@));
                            assert(olds[a].key@ != key@);
                        } else {
                            assert(self.entries@[a].key@ == olds[a].key@);
                            assert(self.entries@[b].key@ == olds[b].key@);
                        }
                    }
                    assert forall|a: int|
                        0 <= a < self.entries@.len() && #[trigger] self.entries@[a].key@ == key@
                            implies self.entries@[a].meta == meta && self.entries@[a].handler
                        == handler by {
                        if a < olds.len() as int {
                            assert(olds[a].key@ != key@);
                        }
                    }
                }
            },
        }
    }

    /// Remove the entry registered under `key`.  Afterwards no entry is.
    pub fn remove(&mut self, key: &str) -> (found: bool)
        requires
            old(self).wf(),
        ensures
            Self::spec_remove_effect(*old(self), *final(self), key@, found),
    {
        match self.index_of(key) {
            Some(i) => {
                let ghost olds = self.entries@;
                let ghost gi = i as int;
                self.entries.remove(i);
                proof {
                    assert forall|a: int, b: int|
                        0 <= a < b < self.entries@.len() implies #[trigger] self.entries@[a].key@
                        != #[trigger] self.entries@[b].key@ by {
                        let oa = if a < gi {
                            a
                        } else {
                            a + 1
                        };
                        let ob = if b < gi {
                            b
                        } else {
                            b + 1
                        };
                        assert(self.entries@[a].key@ == olds[oa].key@);
                        assert(self.entries@[b].key@ == olds[ob].key@);
                    }
                    assert forall|a: int| 0 <= a < self.entries@.len() implies #[trigger] self
                        .entries@[a].key@ != key@ by {
                        let oa = if a < gi {
                            a
                        } else {
                            a + 1
                        };
                        assert(self.entries@[a].key@ == olds[oa].key@);
                        assert(olds[gi].key@ == key@);
                    }
                }
                true
            },
            None => false,
        }
    }
}

impl<M: DeepView + DeepClone, H> Registry<M, H> {
    /// The metadata values, in registration order.
    pub open spec fn spec_metas(&self) -> Seq<M::V> {
        Seq::new(self.entries@.len(), |i: int| self.entries@[i].meta.deep_view())
    }

    /// One page of the listing, in registration order.  An absent
    /// cursor asks for the first page; a cursor is valid exactly when
    /// it is the decimal text of a position no greater than the length.
    /// The returned cursor is absent exactly when the page reaches the
    /// end of the listing.
    pub fn list_page(&self, page_size: usize, cursor: Option<&String>) -> (r: Result<
        (Vec<M>, Option<String>),
        McpError,
    >)
        ensures
            match r {
                Ok(pn) => {
                    &&& spec_cursor_pos(cursor.deep_view(), self.entries@.len() as int) is Some
                    &&& {
                        let start = spec_cursor_pos(
                            cursor.deep_view(),
                            self.entries@.len() as int,
                        )->0;
                        let end = if start + page_size <= self.entries@.len() {
                            start + page_size
                        } else {
                            self.entries@.len() as int
                        };
                        &&& pn.0.deep_view() == self.spec_metas().subrange(start, end)
                        &&& match pn.1 {
                            Some(c) => end < self.entries@.len() && c@ == spec_dec_text(end as nat),
                            None => end == self.entries@.len(),
                        }
                    }
                },
                Err(e) => {
                    &&& spec_cursor_pos(cursor.deep_view(), self.entries@.len() as int) is None
                    &&& e is Validation
                },
            },
    {
        let len = self.entries.len();
        let start: usize = match cursor {
            None => 0,
            Some(c) => match parse_u64_dec(c.as_str()) {
                Some(v) => {
                    if v <= len as u64 {
                        v as usize
                    } else {
                        return Err(McpError::Validation(String::from_str("invalid cursor")));
                    }
                },
                None => {
                    proof {
                        assert(len as int <= u64::MAX);
                    }
                    return Err(McpError::Validation(String::from_str("invalid cursor")));
                },
            },
        };
        let end: usize = if page_size <= len - start {
            start + page_size
        } else {
            len
        };
        let mut page: Vec<M> = Vec::new();
        let mut i: usize = start;
        while i < end
            invariant
                start <= i <= end <= self.entries@.len(),
                page@.len() == i - start,
                forall|j: int| 0 <= j < i - start ==> (#[trigger] page@[j]).deep_view()
                    == self.entries@[start + j].meta.deep_view(),
            decreases end - i,
        {
            page.push(self.entries[i].meta.deep_clone());
            i += 1;
        }
        proof {
            assert(page.deep_view() =~= self.spec_metas().subrange(start as int, end as int));
        }
        let next = if end < len {
            Some(u64_to_dec(end as u64))
        } else {
            None
        };
        Ok((page, next))
    }
}

} // verus!
