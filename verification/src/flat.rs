//! Flat array adapter: the `{length, data}` container that hands a
//! variable-length collection to a foreign caller.  An empty array may
//! carry either no block at all or a zero-length block; readers must
//! gate on the length, never on the block's presence.

use vstd::prelude::*;
use vstd::pervasive::unreached;

verus! {

/// The flat `{length, data}` layout of a contiguous run of records.
#[derive(Debug)]
pub struct CArray<T> {
    len: usize,
    data: Option<Vec<T>>,
}

impl<T> CArray<T> {
    /// The records the array carries, in order.
    pub closed spec fn view_seq(self) -> Seq<T> {
        match self.data {
            Some(v) => v@,
            None => Seq::empty(),
        }
    }

    /// Well-formed: the stored length counts exactly the records the
    /// block carries (no block carries no records).
    pub closed spec fn wf(self) -> bool {
        &&& self.len == self.view_seq().len()
        &&& (self.data is None ==> self.len == 0)
    }

    /// Whether the array owns a data block.  An empty array may own a
    /// zero-length block or none; a non-empty one always owns a block.
    pub closed spec fn has_block(self) -> bool {
        self.data is Some
    }

    /// Heap blocks the array itself owns: its data block, when the
    /// array is non-empty.  A zero-length block is released with the
    /// top-level record and is not counted separately.
    pub open spec fn block_count(self) -> nat {
        if self.view_seq().len() == 0 {
            0
        } else {
            1
        }
    }

    /// An empty array carrying no block at all.
    pub fn empty() -> (a: CArray<T>)
        ensures
            a.wf(),
            a.view_seq() == Seq::<T>::empty(),
            !a.has_block(),
    {
        CArray { len: 0, data: None }
    }

    /// Wrap an owned run of records into the flat layout.  An empty
    /// run yields a zero-length block.
    pub fn from_vec(items: Vec<T>) -> (a: CArray<T>)
        ensures
            a.wf(),
            a.view_seq() == items@,
            a.has_block(),
    {
        CArray { len: items.len(), data: Some(items) }
    }

    /// The number of records; the only field a reader may gate on.
    pub fn length(&self) -> (n: usize)
        ensures
            self.wf() ==> n == self.view_seq().len(),
    {
        self.len
    }

    /// Read one record; the index must be gated on `length`.
    pub fn get(&self, i: usize) -> (r: &T)
        requires
            self.wf(),
            i < self.view_seq().len(),
        ensures
            *r == self.view_seq()[i as int],
    {
        match &self.data {
            Some(v) => &v[i],
            None => unreached(),
        }
    }

    /// Take the data block back out, for the release protocol's walk.
    pub fn into_data(self) -> (r: Option<Vec<T>>)
        ensures
            match r {
                Some(v) => self.has_block() && v@ == self.view_seq(),
                None => !self.has_block() && self.view_seq() == Seq::<T>::empty(),
            },
    {
        self.data
    }
}

/// An empty array is empty however it is represented: whether it
/// carries a zero-length block or no block at all, it holds no
/// records and owns no countable block, so a reader gating on the
/// length and a release walking the blocks treat both forms alike.
pub proof fn lemma_empty_array_uniform<T>(a: CArray<T>)
    requires
        a.wf(),
        a.view_seq().len() == 0,
    ensures
        a.view_seq() == Seq::<T>::empty(),
        a.block_count() == 0,
{
    assert(a.view_seq() =~= Seq::<T>::empty());
}

} // verus!
