//! A generic `ChunkIterator` that operates over a `Vec`.
//!
//! This type is not designed to work over FFI, but it can be embedded inside
//! an object that is, for example.

use vstd::prelude::*;

verus! {

/// Items that are handed out chunk by chunk.
pub struct ChunkIterator<T> {
    items: Vec<T>,
}

impl<T> View for ChunkIterator<T> {
    type V = Seq<T>;

    /// The items that have not been handed out.
    closed spec fn view(&self) -> Seq<T> {
        self.items@
    }
}

/// How many items the next chunk holds.
pub open spec fn chunk_len(left: nat, chunk_size: u32) -> nat {
    if chunk_size < left {
        chunk_size as nat
    } else {
        left
    }
}

impl<T> ChunkIterator<T> {
    /// Hands out the given items.
    pub fn new(items: Vec<T>) -> (r: Self)
        ensures
            r@ == items@,
    {
        Self { items }
    }

    /// How many items have not been handed out.
    pub fn len(&self) -> (r: u32)
        requires
            self@.len() <= u32::MAX,
        ensures
            r == self@.len(),
    {
        self.items.len() as u32
    }

    /// The next items, as many as asked for or as are left; none once
    /// everything has been handed out.
    pub fn next(&mut self, chunk_size: u32) -> (r: Option<Vec<T>>)
        ensures
            r is Some <==> old(self)@.len() > 0,
            r is None ==> final(self)@ == old(self)@,
            r matches Some(chunk) ==> {
                let n = chunk_len(old(self)@.len(), chunk_size) as int;
                &&& chunk@ == old(self)@.take(n)
                &&& final(self)@ == old(self)@.skip(n)
            },
    {
        if self.items.len() == 0 {
            None
        } else if chunk_size == 0 {
            let head: Vec<T> = Vec::new();
            assert(head@ =~= self@.take(0));
            assert(self@ =~= self@.skip(0));
            Some(head)
        } else {
            // Compute the `chunk_size`.
            let chunk_size: usize = if self.items.len() < chunk_size as usize {
                self.items.len()
            } else {
                chunk_size as usize
            };
            // Split the items vector.
            let mut tail: Vec<T> = self.items.split_off(chunk_size);
            // `Vec::split_off` returns the tail, and `items` contains the
            // head. Let's swap them.
            std::mem::swap(&mut tail, &mut self.items);
            // Finally, let's rename `tail` to `head`.
            let head: Vec<T> = tail;
            assert(head@ =~= old(self)@.take(chunk_size as int));
            assert(self@ =~= old(self)@.skip(chunk_size as int));
            Some(head)
        }
    }
}

/// What is left after chunks of the given sizes.
pub open spec fn left_after<T>(items: Seq<T>, sizes: Seq<u32>) -> Seq<T>
    decreases sizes.len(),
{
    if sizes.len() == 0 {
        items
    } else {
        let left = left_after(items, sizes.drop_last());
        left.skip(chunk_len(left.len(), sizes.last()) as int)
    }
}

/// The chunks of the given sizes, one after the other.
pub open spec fn handed_out<T>(items: Seq<T>, sizes: Seq<u32>) -> Seq<T>
    decreases sizes.len(),
{
    if sizes.len() == 0 {
        Seq::empty()
    } else {
        let left = left_after(items, sizes.drop_last());
        handed_out(items, sizes.drop_last()) + left.take(chunk_len(left.len(), sizes.last()) as int)
    }
}

/// Whatever the sizes of the chunks, what was handed out and what is left are
/// the items, in their order: none is lost and none handed out twice.
pub proof fn no_item_is_lost<T>(items: Seq<T>, sizes: Seq<u32>)
    ensures
        handed_out(items, sizes) + left_after(items, sizes) == items,
    decreases sizes.len(),
{
    if sizes.len() == 0 {
        assert(handed_out(items, sizes) + left_after(items, sizes) =~= items);
    } else {
        no_item_is_lost(items, sizes.drop_last());
        let left = left_after(items, sizes.drop_last());
        let n = chunk_len(left.len(), sizes.last()) as int;
        assert(left.take(n) + left.skip(n) =~= left);
        assert(handed_out(items, sizes) + left_after(items, sizes) =~= handed_out(
            items,
            sizes.drop_last(),
        ) + left);
    }
}

/// Chunks that are not empty come to an end: as many as there are items hand
/// out everything.
pub proof fn chunks_come_to_an_end<T>(items: Seq<T>, sizes: Seq<u32>)
    requires
        forall|i: int| 0 <= i < sizes.len() ==> #[trigger] sizes[i] > 0,
    ensures
        left_after(items, sizes).len() + sizes.len() <= items.len() || left_after(
            items,
            sizes,
        ).len() == 0,
    decreases sizes.len(),
{
    if sizes.len() > 0 {
        chunks_come_to_an_end(items, sizes.drop_last());
        assert(sizes.last() > 0);
    }
}

/// A chunk is as large as was asked for, or as what is left.
pub proof fn chunks_are_as_large_as_asked_for(left: nat, chunk_size: u32)
    ensures
        chunk_len(left, chunk_size) <= left && chunk_len(left, chunk_size) <= chunk_size,
        chunk_len(left, chunk_size) == left || chunk_len(left, chunk_size) == chunk_size,
{
}

/// All items are there at first, and are counted.
pub proof fn all_items_are_there_at_first<T>(items: Vec<T>, r: ChunkIterator<T>, n: u32)
    requires
        items@.len() <= u32::MAX,
        call_ensures(ChunkIterator::<T>::new, (items,), r),
        call_ensures(ChunkIterator::<T>::len, (&r,), n),
    ensures
        r@ == items@,
        n == items@.len(),
{
}

/// A chunk is the first of what is left, as many as were asked for or as there are, and what is left
/// then follows it; there is none only where nothing is left.
pub proof fn chunks_come_in_order<T>(
    items: &mut ChunkIterator<T>,
    chunk_size: u32,
    r: Option<Vec<T>>,
)
    requires
        call_ensures(ChunkIterator::<T>::next, (items, chunk_size), r),
    ensures
        r is None <==> mut_ref_current(items)@.len() == 0,
        r is None ==> mut_ref_future(items)@ == mut_ref_current(items)@,
        r matches Some(chunk) ==> {
            &&& chunk@ + mut_ref_future(items)@ == mut_ref_current(items)@
            &&& chunk@.len() <= chunk_size
            &&& chunk@.len() == chunk_size || mut_ref_future(items)@.len() == 0
        },
{
    if let Some(chunk) = r {
        assert(chunk@ + mut_ref_future(items)@ =~= mut_ref_current(items)@);
    }
}

} // verus!
