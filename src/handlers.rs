use vstd::prelude::*;
use crate::protocol::RequestKind;

verus! {

/// The registry of request kinds that have a handler. It is built once, when
/// a server is made, and only read afterwards.
pub struct Handlers {
    kinds: Vec<RequestKind>,
}

impl View for Handlers {
    /// The kinds that have a handler.
    type V = Set<RequestKind>;

    closed spec fn view(&self) -> Set<RequestKind> {
        Set::new(|k: RequestKind| self.kinds@.contains(k))
    }
}

impl Handlers {
    /// A registry with no handler.
    pub fn new() -> (r: Handlers)
        ensures
            r@ == Set::<RequestKind>::empty(),
    {
        let r = Handlers { kinds: Vec::new() };
        assert(r@ =~= Set::<RequestKind>::empty());
        r
    }

    /// Registers the handler of `kind`.
    pub fn add(self, kind: RequestKind) -> (r: Handlers)
        ensures
            r@ == self@.insert(kind),
    {
        let mut kinds = self.kinds;
        kinds.push(kind);
        let r = Handlers { kinds };
        assert forall|k: RequestKind| r.kinds@.contains(k) <==> self@.insert(kind).contains(k) by {
            if k != kind && r.kinds@.contains(k) {
                let i = choose|i: int| 0 <= i < r.kinds@.len() && r.kinds@[i] == k;
                assert(self.kinds@[i] == k);
            }
            if k == kind {
                assert(r.kinds@[r.kinds@.len() - 1] == k);
            }
            if self.kinds@.contains(k) {
                let i = choose|i: int| 0 <= i < self.kinds@.len() && self.kinds@[i] == k;
                assert(r.kinds@[i] == k);
            }
        }
        assert(r@ =~= self@.insert(kind));
        r
    }

    /// Whether `kind` has a handler.
    pub fn get(&self, kind: RequestKind) -> (r: bool)
        ensures
            r == self@.contains(kind),
    {
        let mut i: usize = 0;
        while i < self.kinds.len()
            invariant
                i <= self.kinds@.len(),
                forall|j: int| 0 <= j < i ==> self.kinds@[j] != kind,
            decreases self.kinds@.len() - i,
        {
            if self.kinds[i] == kind {
                return true;
            }
            i = i + 1;
        }
        false
    }
}

} // verus!
