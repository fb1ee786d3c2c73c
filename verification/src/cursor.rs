//! The cursor protocol for walking runtime-owned collections.
//!
//! The runtime exposes fields, methods, nested types and interfaces of a
//! class as a repeatable "give me the next item for this opaque cursor"
//! call, seeded with a null cursor. The opaque cursor itself lives with the
//! unverified shell that makes the foreign calls; a [`CursorSession`] here
//! tracks the protocol's state: the items yielded so far, in order, and
//! whether the sequence is exhausted. Feeding a non-null reply appends one
//! item; feeding a null reply ends the session for good — an exhausted
//! session cannot be fed again, so a cursor can never be rewound or
//! duplicated, and no item is recorded twice.

use vstd::prelude::*;

verus! {

/// One enumeration pass over a runtime-owned collection.
pub struct CursorSession {
    items: Vec<usize>,
    exhausted: bool,
}

impl CursorSession {
    /// The raw items yielded so far, in the order the runtime produced them.
    pub closed spec fn items_spec(&self) -> Seq<usize> {
        self.items@
    }

    /// Whether the runtime has signalled the end of the sequence.
    pub closed spec fn exhausted_spec(&self) -> bool {
        self.exhausted
    }

    /// Every recorded item is a non-null pointer.
    pub open spec fn wf(&self) -> bool {
        forall|i: int| 0 <= i < self.items_spec().len() ==> #[trigger] self.items_spec()[i] != 0
    }

    /// Starts an enumeration pass: nothing yielded, nothing signalled. The
    /// shell seeds the foreign cursor with null on its side.
    pub fn begin() -> (r: CursorSession)
        ensures
            r.items_spec().len() == 0,
            !r.exhausted_spec(),
            r.wf(),
    {
        CursorSession { items: Vec::new(), exhausted: false }
    }

    /// Absorbs one reply of the foreign next-item call: a non-null pointer
    /// is one more item, a null pointer is the end of the sequence, for
    /// good. Returns whether an item was yielded.
    ///
    /// An exhausted session cannot be fed: exhaustion is terminal, so the
    /// protocol can neither rewind nor duplicate a cursor.
    pub fn feed(&mut self, raw: usize) -> (yielded: bool)
        requires
            !old(self).exhausted_spec(),
            old(self).wf(),
        ensures
            final(self).wf(),
            yielded == (raw != 0),
            raw != 0 ==> final(self).items_spec() == old(self).items_spec().push(raw) && !final(self).exhausted_spec(),
            raw == 0 ==> final(self).items_spec() == old(self).items_spec() && final(self).exhausted_spec(),
    {
        if raw == 0 {
            self.exhausted = true;
            false
        } else {
            self.items.push(raw);
            proof {
                assert forall|i: int|
                    0 <= i < self.items_spec().len() implies #[trigger] self.items_spec()[i]
                    != 0 by {
                    if i < old(self).items_spec().len() {
                        assert(old(self).items_spec()[i] != 0);
                    }
                }
            }
            true
        }
    }

    /// Whether the pass has ended.
    pub fn is_exhausted(&self) -> (r: bool)
        ensures
            r == self.exhausted_spec(),
    {
        self.exhausted
    }

    /// How many items the pass has yielded so far.
    pub fn count(&self) -> (r: usize)
        ensures
            r == self.items_spec().len(),
    {
        self.items.len()
    }

    /// The raw items yielded so far.
    pub fn raw_items(&self) -> (r: &Vec<usize>)
        ensures
            r@ == self.items_spec(),
    {
        &self.items
    }
}

} // verus!
