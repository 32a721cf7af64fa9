//! Deep copies that provably preserve a value's mathematical view.
//!
//! `derive(Clone)` tells the verifier nothing about the copy, so types
//! whose contracts speak about their views implement `DeepClone`: the
//! copy's `deep_view` equals the original's.

use vstd::prelude::*;

use crate::json::JsonValue;

verus! {

/// A copy whose mathematical value equals the original's.
pub trait DeepClone: DeepView + Sized {
    /// Produce a copy with the same view.
    fn deep_clone(&self) -> (r: Self)
        ensures
            r.deep_view() == self.deep_view(),
    ;
}

impl DeepClone for String {
    fn deep_clone(&self) -> (r: Self)
        ensures
            r.deep_view() == self.deep_view(),
    {
        self.clone()
    }
}

impl DeepClone for JsonValue {
    fn deep_clone(&self) -> (r: Self)
        ensures
            r.deep_view() == self.deep_view(),
    {
        self.clone()
    }
}

impl<A: DeepClone, B: DeepClone> DeepClone for (A, B) {
    fn deep_clone(&self) -> (r: Self)
        ensures
            r.deep_view() == self.deep_view(),
    {
        (self.0.deep_clone(), self.1.deep_clone())
    }
}

impl<T: DeepClone> DeepClone for Option<T> {
    fn deep_clone(&self) -> (r: Self)
        ensures
            r.deep_view() == self.deep_view(),
    {
        match self {
            Some(t) => Some(t.deep_clone()),
            None => None,
        }
    }
}

impl<T: DeepClone> DeepClone for Vec<T> {
    fn deep_clone(&self) -> (r: Self)
        ensures
            r.deep_view() == self.deep_view(),
    {
        let mut out: Vec<T> = Vec::new();
        let mut i: usize = 0;
        while i < self.len()
            invariant
                i <= self@.len(),
                out@.len() == i as nat,
                forall|j: int| 0 <= j < i ==> (#[trigger] out@[j]).deep_view()
                    == self@[j].deep_view(),
            decreases self@.len() - i,
        {
            out.push(self[i].deep_clone());
            i += 1;
        }
        proof {
            assert(out.deep_view() =~= self.deep_view());
        }
        out
    }
}

} // verus!
