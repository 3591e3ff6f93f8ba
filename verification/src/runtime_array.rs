use vstd::prelude::*;

use crate::error::BaseError;
use crate::zeroable::Zeroable;

verus! {

/// A heap-allocated array whose length is chosen at run time and never
/// changes afterwards. The storage is a row of slots; a slot either holds an
/// element (`Some`) or is unoccupied (`None`), so a slot that was never
/// written — or whose element was moved out by the consuming iterator — is
/// known to be empty instead of holding an arbitrary bit pattern. The
/// allocation is owned exclusively: it travels with the value, is handed over
/// whole to the consuming iterator, and is released exactly once, when its
/// one owner goes out of scope.
#[derive(Debug, Clone, Hash)]
pub struct ArrayCStyle<T> {
    slots: Vec<Option<T>>,
}

impl<T> View for ArrayCStyle<T> {
    type V = Seq<Option<T>>;

    closed spec fn view(&self) -> Seq<Option<T>> {
        self.slots@
    }
}

impl<T> ArrayCStyle<T> {
    /// Whether `n` elements of `T` fit in one valid memory layout: the byte
    /// size must not exceed the platform's addressable-size limit.
    pub open spec fn layout_fits(n: usize) -> bool {
        n * vstd::layout::size_of::<T>() <= isize::MAX
    }

    /// Runtime check for `layout_fits`.
    fn layout_ok(n: usize) -> (b: bool)
        ensures
            b == Self::layout_fits(n),
    {
        match n.checked_mul(core::mem::size_of::<T>()) {
            Some(bytes) => bytes <= (isize::MAX as usize),
            None => false,
        }
    }

    /// Creates a fresh array of `n` slots, all unoccupied. Fails exactly
    /// when `n` elements of `T` do not fit in a valid memory layout; an
    /// allocator refusal does not return at all, so every returned array is
    /// fully backed. The caller is expected to fill a slot before reading it.
    pub fn new(n: usize) -> (r: Result<Self, BaseError>)
        ensures
            Self::layout_fits(n) ==> (r matches Ok(a) && a@ == Seq::new(
                n as nat,
                |i: int| None::<T>,
            )),
            !Self::layout_fits(n) ==> r is Err,
            r matches Err(e) ==> e.0@ == "Layout or memory allocation failed"@,
    {
        if !Self::layout_ok(n) {
            return Err(BaseError("Layout or memory allocation failed".to_owned()));
        }
        let mut slots: Vec<Option<T>> = Vec::new();
        let mut i: usize = 0;
        while i < n
            invariant
                i <= n,
                slots@ == Seq::new(i as nat, |k: int| None::<T>),
            decreases n - i,
        {
            slots.push(None);
            i = i + 1;
            proof {
                assert(slots@ =~= Seq::new(i as nat, |k: int| None::<T>));
            }
        }
        Ok(ArrayCStyle { slots })
    }

    /// The number of slots, fixed when the array was constructed.
    pub fn len(&self) -> (n: usize)
        ensures
            n == self@.len(),
    {
        self.slots.len()
    }

    /// Read-only view of the backing storage, one entry per slot.
    pub fn ptr(&self) -> (p: &[Option<T>])
        ensures
            p@ == self@,
    {
        self.slots.as_slice()
    }

    /// Mutable view of the backing storage. The view is a slice, so the
    /// length of the array cannot change through it.
    pub fn ptr_mut(&mut self) -> (p: &mut [Option<T>])
        ensures
            p@ == old(self)@,
            final(self)@ == final(p)@,
    {
        self.slots.as_mut_slice()
    }

    /// Checked read: returns the element at `index`, or nothing when the
    /// index is out of range or the slot is unoccupied. Never fatal.
    pub fn get(&self, index: usize) -> (r: Option<&T>)
        ensures
            index >= self@.len() ==> r is None,
            index < self@.len() ==> (match self@[index as int] {
                Some(v) => r matches Some(rv) && *rv == v,
                None => r is None,
            }),
    {
        if index >= self.slots.len() {
            return None;
        }
        self.slots[index].as_ref()
    }

    /// Unchecked read: the terse surface for callers that have already
    /// validated the index. Reading out of range, or from a slot that holds
    /// no element, is a caller logic error and is ruled out up front.
    pub fn index(&self, index: usize) -> (r: &T)
        requires
            index < self@.len(),
            self@[index as int] is Some,
        ensures
            self@[index as int] == Some(*r),
    {
        match &self.slots[index] {
            Some(v) => v,
            None => unreached(),
        }
    }

    /// Checked write access: returns a mutable borrow of the element at
    /// `index`, or nothing when the index is out of range or the slot is
    /// unoccupied — the array is then left unchanged. Never fatal.
    pub fn get_mut(&mut self, index: usize) -> (r: Option<&mut T>)
        ensures
            index >= old(self)@.len() ==> r is None && final(self)@ == old(self)@,
            index < old(self)@.len() ==> (match old(self)@[index as int] {
                Some(v) => r is Some && *r.unwrap() == v && final(self)@ == old(self)@.update(
                    index as int,
                    Some(*final(r.unwrap())),
                ),
                None => r is None && final(self)@ == old(self)@,
            }),
    {
        if index >= self.slots.len() {
            return None;
        }
        self.slots[index].as_mut()
    }

    /// Unchecked write access: the terse surface, mutable. Writing out of
    /// range, or through a slot that holds no element, is a caller logic
    /// error and is ruled out up front. Only the addressed slot changes.
    pub fn index_mut(&mut self, index: usize) -> (r: &mut T)
        requires
            index < old(self)@.len(),
            old(self)@[index as int] is Some,
        ensures
            old(self)@[index as int] == Some(*r),
            final(self)@ == old(self)@.update(index as int, Some(*final(r))),
    {
        match &mut self.slots[index] {
            Some(v) => v,
            None => unreached(),
        }
    }

    /// Overwrites the slot at `index` with `value`, occupying it if it was
    /// empty. No other slot is affected. Out-of-range writes are a caller
    /// logic error and are ruled out up front.
    pub fn set(&mut self, index: usize, value: T)
        requires
            index < old(self)@.len(),
        ensures
            final(self)@ == old(self)@.update(index as int, Some(value)),
    {
        self.slots.set(index, Some(value));
    }
}

impl<T: Zeroable> ArrayCStyle<T> {
    /// Creates a fresh array of `n` slots, each holding the zero element of
    /// `T`. Fails exactly when `n` elements of `T` do not fit in a valid
    /// memory layout.
    pub fn zeroed(n: usize) -> (r: Result<Self, BaseError>)
        ensures
            Self::layout_fits(n) ==> (r matches Ok(a) && a@ == Seq::new(
                n as nat,
                |i: int| Some(T::zero_spec()),
            )),
            !Self::layout_fits(n) ==> r is Err,
            r matches Err(e) ==> e.0@ == "Layout or memory allocation failed for zeroed array"@,
    {
        if !Self::layout_ok(n) {
            return Err(BaseError("Layout or memory allocation failed for zeroed array".to_owned()));
        }
        let mut slots: Vec<Option<T>> = Vec::new();
        let mut i: usize = 0;
        while i < n
            invariant
                i <= n,
                slots@ == Seq::new(i as nat, |k: int| Some(T::zero_spec())),
            decreases n - i,
        {
            slots.push(Some(T::zero()));
            i = i + 1;
            proof {
                assert(slots@ =~= Seq::new(i as nat, |k: int| Some(T::zero_spec())));
            }
        }
        Ok(ArrayCStyle { slots })
    }
}

impl<T> ArrayCStyle<T> {
    /// Builds an array from a sequence of elements, one slot per element, in
    /// order. The sequence carries its exact element count, so the array is
    /// sized to it and every slot ends up occupied; a count disagreeing with
    /// the elements actually produced cannot arise here.
    pub fn from_iter(items: Vec<T>) -> (r: Self)
        ensures
            r@.len() == items@.len(),
            forall|i: int| 0 <= i < items@.len() ==> r@[i] == Some(items@[i]),
    {
        let ghost orig = items@;
        let mut rest = items;
        let mut slots: Vec<Option<T>> = Vec::new();
        while rest.len() > 0
            invariant
                slots@.len() + rest@.len() == orig.len(),
                rest@ == orig.skip(slots@.len() as int),
                forall|i: int| 0 <= i < slots@.len() ==> slots@[i] == Some(orig[i]),
            decreases rest@.len(),
        {
            let x = rest.remove(0);
            slots.push(Some(x));
            proof {
                assert(rest@ =~= orig.skip(slots@.len() as int));
            }
        }
        ArrayCStyle { slots }
    }

    /// Hands the array's storage over to a consuming iterator. The array is
    /// moved in, so the allocation now has the iterator as its one owner and
    /// this handle can never release — or touch — it again.
    pub fn into_iter(self) -> (it: ArrayIntoIter<T>)
        ensures
            it@ == self@,
    {
        let ghost s = self@;
        let it = ArrayIntoIter { slots: self.slots, start: 0 };
        proof {
            assert(it@ =~= s);
        }
        it
    }
}

impl<T: Copy> ArrayCStyle<T> {
    /// Builds an array by copying every element of a contiguous buffer, in
    /// order. The source is left untouched, and the two stay independent:
    /// later writes to one are never seen through the other.
    pub fn from_slice(src: &[T]) -> (r: Self)
        ensures
            r@.len() == src@.len(),
            forall|i: int| 0 <= i < src@.len() ==> r@[i] == Some(src@[i]),
    {
        let mut slots: Vec<Option<T>> = Vec::new();
        let mut i: usize = 0;
        while i < src.len()
            invariant
                i <= src@.len(),
                slots@.len() == i,
                forall|k: int| 0 <= k < i ==> slots@[k] == Some(src@[k]),
            decreases src@.len() - i,
        {
            slots.push(Some(*vstd::slice::slice_index_get(src, i)));
            i = i + 1;
        }
        ArrayCStyle { slots }
    }
}

/// A consuming iterator over an array's storage. It owns the allocation the
/// array handed over; a cursor marks the next slot to yield. Yielding moves
/// the slot's element out, leaves an empty slot behind so that nothing reads
/// it again through this path, and advances the cursor — each slot is
/// yielded at most once, and the storage is released exactly once, when the
/// iterator goes out of scope.
#[derive(Debug, Hash)]
pub struct ArrayIntoIter<T> {
    slots: Vec<Option<T>>,
    start: usize,
}

impl<T> View for ArrayIntoIter<T> {
    type V = Seq<Option<T>>;

    closed spec fn view(&self) -> Seq<Option<T>> {
        self.slots@.skip(self.start as int)
    }
}

impl<T> ArrayIntoIter<T> {
    #[verifier::type_invariant]
    spec fn cursor_in_range(self) -> bool {
        self.start <= self.slots@.len()
    }

    /// Yields the slot at the cursor — the element that was there, or
    /// nothing for a slot that was never written — and advances. Once the
    /// cursor reaches the end the iterator is exhausted for good: every
    /// further call yields nothing and changes nothing.
    pub fn next(&mut self) -> (r: Option<Option<T>>)
        ensures
            old(self)@.len() == 0 ==> r is None && final(self)@ == old(self)@,
            old(self)@.len() > 0 ==> r == Some(old(self)@[0]) && final(self)@ == old(
                self,
            )@.drop_first(),
    {
        proof {
            use_type_invariant(&*self);
        }
        if self.start == self.slots.len() {
            None
        } else {
            let v = self.slots[self.start].take();
            self.start = self.start + 1;
            proof {
                assert(self@ =~= old(self)@.drop_first());
            }
            Some(v)
        }
    }

    /// How many slots are still ahead of the cursor.
    pub fn remaining(&self) -> (n: usize)
        ensures
            n == self@.len(),
    {
        proof {
            use_type_invariant(&*self);
        }
        self.slots.len() - self.start
    }
}

/// Write/read consistency: writing an element into a slot makes exactly that
/// slot hold exactly that element, and leaves every other slot as it was.
pub proof fn lemma_write_then_read<T>(slots: Seq<Option<T>>, i: int, v: T)
    requires
        0 <= i < slots.len(),
    ensures
        slots.update(i, Some(v))[i] == Some(v),
        forall|j: int| 0 <= j < slots.len() && j != i ==> slots.update(i, Some(v))[j] == slots[j],
{
}

/// Drain order: after any number of steps, what remains of a consuming
/// iterator is a suffix of the original storage, the next yield is exactly
/// the slot at that position, and one more step leaves the next suffix — so
/// a full drain yields every slot once, in original order.
pub proof fn lemma_drain_step<T>(slots: Seq<Option<T>>, k: int)
    requires
        0 <= k < slots.len(),
    ensures
        slots.skip(k)[0] == slots[k],
        slots.skip(k).drop_first() == slots.skip(k + 1),
{
    assert(slots.skip(k).drop_first() =~= slots.skip(k + 1));
}

} // verus!
