//! The owned growable sequence container.
//!
//! A [`TryVec`] holds `len` initialized elements in a block sized for
//! `capacity` elements, obtained from the allocator it was constructed
//! with.  Growth is eager and exact: an operation that needs room asks
//! the allocator for a block of exactly the required size, moves the
//! initialized prefix and releases the old block.  Every allocation
//! failure is surfaced as a value, and an operation that fails leaves the
//! container exactly as it was — in particular a failed [`TryVec::push`]
//! or [`TryVec::insert`] hands the rejected element back to the caller.

use crate::allocator::array_layout;
use crate::allocator::array_layout_of;
use crate::allocator::AllocError;
use crate::allocator::AllocatorCapability;
use crate::allocator::Block;
use crate::allocator::Global;
use vstd::layout::size_of;
use vstd::prelude::*;

verus! {

/// Why a [`TryVec::insert`] was refused: the allocator could not grow
/// the container, or the requested index lies beyond the current length.
#[derive(Clone, Copy, Debug, PartialEq, Eq, Structural)]
pub enum InsertError {
    Alloc,
    OutOfBounds,
}

/// The owned growable sequence container: `len` initialized elements at
/// the front of a block with room for `capacity`, plus the allocator the
/// block came from.  An empty container holds no block at all.
pub struct TryVec<T, A: AllocatorCapability = Global> {
    data: Vec<T>,
    cap: usize,
    block: Option<Block>,
    alloc: A,
}

impl<T, A: AllocatorCapability> View for TryVec<T, A> {
    type V = Seq<T>;

    closed spec fn view(&self) -> Seq<T> {
        self.data@
    }
}

impl<T, A: AllocatorCapability> TryVec<T, A> {
    /// The number of elements the container has room for without
    /// growing.
    pub closed spec fn spec_capacity(&self) -> usize {
        self.cap
    }

    /// The allocator instance the container was constructed with.
    pub closed spec fn spec_allocator(&self) -> A {
        self.alloc
    }

    /// Well-formedness: the initialized prefix fits in the capacity, a
    /// block is held exactly when there is any capacity, and the block's
    /// layout is the one computed for `capacity` elements of `T`.
    pub closed spec fn wf(&self) -> bool {
        &&& self.data@.len() <= self.cap
        &&& (self.cap > 0 <==> self.block is Some)
        &&& (self.block matches Some(b) ==> b.layout.size as nat == size_of::<T>() * (
        self.cap as nat) && b.layout == array_layout_of::<T>(self.cap as nat)
            && self.alloc.live() > 0)
    }

    /// Creates an empty container backed by the given allocator.  No
    /// allocation happens; the capacity is zero.
    pub fn new_in(alloc: A) -> (v: TryVec<T, A>)
        ensures
            v.wf(),
            v@ == Seq::<T>::empty(),
            v.spec_capacity() == 0,
            v.spec_allocator() == alloc,
    {
        TryVec { data: Vec::new(), cap: 0, block: None, alloc }
    }

    /// Creates a container with room for `capacity` elements, backed by
    /// the given allocator.  Succeeds exactly when nothing needs to be
    /// allocated or the allocator grants the block; on failure no
    /// container exists, so it is never partially allocated.
    pub fn with_capacity_in(capacity: usize, alloc: A) -> (r: Result<TryVec<T, A>, AllocError>)
        ensures
            r matches Ok(v) ==> v.wf() && v@ == Seq::<T>::empty() && v.spec_capacity()
                == capacity,
            capacity == 0 ==> (r matches Ok(v) ==> v.spec_allocator() == alloc),
            capacity > 0 ==> (r matches Ok(v) ==> v.spec_allocator().calls() == alloc.calls()
                + 1),
            r is Ok <==> capacity == 0 || (size_of::<T>() * capacity <= usize::MAX
                && alloc.grants(array_layout_of::<T>(capacity as nat))),
    {
        let mut v = Self::new_in(alloc);
        match v.try_reserve(capacity) {
            Ok(()) => Ok(v),
            Err(e) => Err(e),
        }
    }

    /// The number of initialized elements.
    pub fn len(&self) -> (n: usize)
        ensures
            n == self@.len(),
    {
        self.data.len()
    }

    /// The number of elements there is room for without growing.
    pub fn capacity(&self) -> (n: usize)
        ensures
            n == self.spec_capacity(),
    {
        self.cap
    }

    /// Whether the container holds no elements.
    pub fn is_empty(&self) -> (b: bool)
        ensures
            b <==> self@.len() == 0,
    {
        self.data.len() == 0
    }

    /// A reference to the allocator the container was constructed with.
    pub fn allocator(&self) -> (a: &A)
        ensures
            *a == self.spec_allocator(),
    {
        &self.alloc
    }

    /// Ensures there is room for `additional` more elements beyond the
    /// current length.  If the capacity already suffices nothing at all
    /// happens; otherwise one block of exactly `len + additional`
    /// elements is requested, the contents move into it and the old
    /// block is released.  On failure — overflow of the needed size, or
    /// the allocator refusing the block — the container is unchanged:
    /// same length, same capacity, same contents.
    pub fn try_reserve(&mut self, additional: usize) -> (r: Result<(), AllocError>)
        requires
            old(self).wf(),
        ensures
            final(self).wf(),
            final(self)@ == old(self)@,
            r is Ok <==> old(self)@.len() + additional <= old(self).spec_capacity()
                || (old(self)@.len() + additional <= usize::MAX
                && size_of::<T>() * (old(self)@.len() + additional) <= usize::MAX
                && old(self).spec_allocator().grants(array_layout_of::<T>((old(self)@.len() + additional) as nat))),
            old(self)@.len() + additional <= old(self).spec_capacity()
                ==> *final(self) == *old(self),
            r is Ok ==> old(self)@.len() + additional <= final(self).spec_capacity(),
            r is Ok && old(self)@.len() + additional > old(self).spec_capacity()
                ==> final(self).spec_capacity() == old(self)@.len() + additional
                && final(self).spec_allocator().calls() == old(self).spec_allocator().calls() + 1,
            r is Err ==> final(self).spec_capacity() == old(self).spec_capacity()
                && final(self).spec_allocator().live() == old(self).spec_allocator().live(),
    {
        let len = self.data.len();
        if additional <= self.cap - len {
            return Ok(());
        }
        let needed = match len.checked_add(additional) {
            Some(n) => n,
            None => {
                return Err(AllocError);
            },
        };
        let layout = match array_layout(
            core::mem::size_of::<T>(),
            core::mem::align_of::<T>(),
            needed,
        ) {
            Ok(l) => l,
            Err(e) => {
                return Err(e);
            },
        };
        match self.alloc.allocate(layout) {
            Ok(new_block) => {
                let mut prev: Option<Block> = Some(new_block);
                core::mem::swap(&mut prev, &mut self.block);
                match prev {
                    Some(b) => self.alloc.deallocate(b),
                    None => {},
                }
                self.cap = needed;
                Ok(())
            },
            Err(e) => Err(e),
        }
    }

    /// Ensures there is room for one more element; shorthand for
    /// reserving a single slot.
    pub fn try_reserve_one(&mut self) -> (r: Result<(), AllocError>)
        requires
            old(self).wf(),
        ensures
            final(self).wf(),
            final(self)@ == old(self)@,
            r is Ok <==> old(self)@.len() < old(self).spec_capacity()
                || (old(self)@.len() + 1 <= usize::MAX
                && size_of::<T>() * (old(self)@.len() + 1) <= usize::MAX
                && old(self).spec_allocator().grants(array_layout_of::<T>((old(self)@.len() + 1) as nat))),
            old(self)@.len() < old(self).spec_capacity() ==> *final(self) == *old(self),
            r is Ok ==> old(self)@.len() < final(self).spec_capacity(),
            r is Ok && old(self)@.len() == old(self).spec_capacity()
                ==> final(self).spec_capacity() == old(self)@.len() + 1,
            r is Err ==> final(self).spec_capacity() == old(self).spec_capacity(),
    {
        self.try_reserve(1)
    }

    /// Appends `value`, growing by exactly one slot if the container is
    /// full.  A failed growth returns the rejected value together with
    /// the failure, and the container keeps its length, capacity and
    /// contents; when there is already room the push is owed to succeed
    /// and the allocator is not consulted at all.
    pub fn push(&mut self, value: T) -> (r: Result<(), (T, AllocError)>)
        requires
            old(self).wf(),
        ensures
            final(self).wf(),
            r matches Ok(()) ==> final(self)@ == old(self)@.push(value),
            r matches Err(p) ==> p.0 == value && final(self)@ == old(self)@
                && final(self).spec_capacity() == old(self).spec_capacity(),
            r is Ok <==> old(self)@.len() < old(self).spec_capacity()
                || (old(self)@.len() + 1 <= usize::MAX
                && size_of::<T>() * (old(self)@.len() + 1) <= usize::MAX
                && old(self).spec_allocator().grants(array_layout_of::<T>((old(self)@.len() + 1) as nat))),
            r is Err ==> old(self)@.len() == old(self).spec_capacity(),
            old(self)@.len() < old(self).spec_capacity()
                ==> final(self).spec_capacity() == old(self).spec_capacity()
                && final(self).spec_allocator() == old(self).spec_allocator(),
            r is Ok && old(self)@.len() == old(self).spec_capacity()
                ==> final(self).spec_capacity() == old(self)@.len() + 1,
    {
        if self.data.len() == self.cap {
            match self.try_reserve(1) {
                Ok(()) => {},
                Err(e) => {
                    return Err((value, e));
                },
            }
        }
        self.data.push(value);
        Ok(())
    }

    /// Removes and returns the last element, or reports that the
    /// container is empty.  Never allocates.
    pub fn pop(&mut self) -> (r: Option<T>)
        requires
            old(self).wf(),
        ensures
            final(self).wf(),
            old(self)@.len() > 0 ==> r == Some(old(self)@.last())
                && final(self)@ == old(self)@.drop_last(),
            old(self)@.len() == 0 ==> r is None && final(self)@ == old(self)@,
            final(self).spec_capacity() == old(self).spec_capacity(),
            final(self).spec_allocator() == old(self).spec_allocator(),
    {
        self.data.pop()
    }

    /// Places `value` at `index`, shifting the elements from `index` on
    /// one slot right, growing by exactly one slot if the container is
    /// full.  An index beyond the current length is refused as a
    /// structured error — a deliberate choice here, rather than clamping
    /// the index or leaving the case to an underlying bounds check; as
    /// with [`TryVec::push`], any refusal hands the rejected value back
    /// and leaves the container unchanged.
    pub fn insert(&mut self, index: usize, value: T) -> (r: Result<(), (T, InsertError)>)
        requires
            old(self).wf(),
        ensures
            final(self).wf(),
            r matches Ok(()) ==> index <= old(self)@.len()
                && final(self)@ == old(self)@.insert(index as int, value),
            r matches Err(p) ==> p.0 == value && final(self)@ == old(self)@
                && final(self).spec_capacity() == old(self).spec_capacity(),
            index > old(self)@.len() ==> (r matches Err(p) && p.1 == InsertError::OutOfBounds),
            index <= old(self)@.len() ==> (r matches Err(p) ==> p.1 == InsertError::Alloc
                && old(self)@.len() == old(self).spec_capacity()),
            r is Ok <==> index <= old(self)@.len() && (old(self)@.len() < old(self).spec_capacity()
                || (old(self)@.len() + 1 <= usize::MAX
                && size_of::<T>() * (old(self)@.len() + 1) <= usize::MAX
                && old(self).spec_allocator().grants(array_layout_of::<T>((old(self)@.len() + 1) as nat)))),
            index <= old(self)@.len() && old(self)@.len() < old(self).spec_capacity()
                ==> final(self).spec_capacity() == old(self).spec_capacity()
                && final(self).spec_allocator() == old(self).spec_allocator(),
    {
        if index > self.data.len() {
            return Err((value, InsertError::OutOfBounds));
        }
        if self.data.len() == self.cap {
            match self.try_reserve(1) {
                Ok(()) => {},
                Err(_) => {
                    return Err((value, InsertError::Alloc));
                },
            }
        }
        self.data.insert(index, value);
        Ok(())
    }

    /// Removes and returns the element at `index`, shifting the
    /// elements after it one slot left; order is preserved.  An index
    /// beyond the current length yields `None` and changes nothing.
    pub fn remove(&mut self, index: usize) -> (r: Option<T>)
        requires
            old(self).wf(),
        ensures
            final(self).wf(),
            index < old(self)@.len() ==> r == Some(old(self)@[index as int])
                && final(self)@ == old(self)@.remove(index as int),
            index >= old(self)@.len() ==> r is None && *final(self) == *old(self),
            final(self).spec_capacity() == old(self).spec_capacity(),
            final(self).spec_allocator() == old(self).spec_allocator(),
    {
        if index < self.data.len() {
            Some(self.data.remove(index))
        } else {
            None
        }
    }

    /// Removes and returns the element at `index` in constant time by
    /// moving the last element into its place.  An index beyond the
    /// current length yields `None` and changes nothing.
    pub fn swap_remove(&mut self, index: usize) -> (r: Option<T>)
        requires
            old(self).wf(),
        ensures
            final(self).wf(),
            index < old(self)@.len() ==> r == Some(old(self)@[index as int])
                && final(self)@ == old(self)@.update(index as int, old(self)@.last()).drop_last(),
            index >= old(self)@.len() ==> r is None && *final(self) == *old(self),
            final(self).spec_capacity() == old(self).spec_capacity(),
            final(self).spec_allocator() == old(self).spec_allocator(),
    {
        if index < self.data.len() {
            Some(self.data.swap_remove(index))
        } else {
            None
        }
    }

    /// Drops all elements.  The capacity and the block are retained, so
    /// no allocation or deallocation happens.
    pub fn clear(&mut self)
        requires
            old(self).wf(),
        ensures
            final(self).wf(),
            final(self)@ == Seq::<T>::empty(),
            final(self).spec_capacity() == old(self).spec_capacity(),
            final(self).spec_allocator() == old(self).spec_allocator(),
    {
        self.data.clear();
    }

    /// The initialized elements, as a read-only slice.
    pub fn as_slice(&self) -> (s: &[T])
        ensures
            s@ == self@,
    {
        self.data.as_slice()
    }

    /// A read-only iteration over the elements `[0, len)`, borrowing
    /// the container for its duration.
    pub fn iter<'a>(&'a self) -> (it: core::slice::Iter<'a, T>)
        ensures
            vstd::std_specs::iter::IteratorSpec::remaining(&it) == self@.as_ref(),
    {
        broadcast use vstd::std_specs::slice::axiom_spec_slice_iter;

        self.data.as_slice().iter()
    }

    /// The initialized elements, as a mutable slice.  The slice cannot
    /// change the length, so a caller that keeps the element count the
    /// same keeps the container well-formed.
    pub fn as_mut_slice(&mut self) -> (s: &mut [T])
        requires
            old(self).wf(),
        ensures
            s@ == old(self)@,
            final(self)@ == final(s)@,
            final(self).spec_capacity() == old(self).spec_capacity(),
            final(self).spec_allocator() == old(self).spec_allocator(),
            final(s)@.len() == old(self)@.len() ==> final(self).wf(),
    {
        self.data.as_mut_slice()
    }

    /// Gives up the container and hands its elements over as a plain
    /// vector; the block is no longer tracked.
    pub fn into_vec(self) -> (v: Vec<T>)
        ensures
            v@ == self@,
    {
        self.data
    }
}

impl<T> TryVec<T, Global> {
    /// Creates an empty container backed by the default allocator.
    pub fn new() -> (v: TryVec<T, Global>)
        ensures
            v.wf(),
            v@ == Seq::<T>::empty(),
            v.spec_capacity() == 0,
    {
        Self::new_in(Global::new())
    }

    /// Creates a container with room for `capacity` elements, backed by
    /// the default allocator, which grants every request; only a size
    /// computation that overflows can fail.
    pub fn with_capacity(capacity: usize) -> (r: Result<TryVec<T, Global>, AllocError>)
        ensures
            r matches Ok(v) ==> v.wf() && v@ == Seq::<T>::empty() && v.spec_capacity()
                == capacity,
            r is Ok <==> capacity == 0 || size_of::<T>() * capacity <= usize::MAX,
    {
        Self::with_capacity_in(capacity, Global::new())
    }
}

/// Law: a successful `try_reserve(additional)` leaves the capacity at
/// `len + additional` or more, and `push` neither consults the allocator
/// nor can fail while the length is below the capacity — so each of the
/// next `additional` pushes, the `k`-th of which starts at length
/// `len + k`, still finds spare capacity.  Reserving first therefore
/// makes exactly `additional` pushes allocation-free.
pub proof fn lemma_reserve_covers_pushes(len: nat, additional: nat, cap: nat, k: nat)
    requires
        len + additional <= cap,
        k < additional,
    ensures
        len + k < cap,
{
}

/// Law: `clear` leaves the empty contents whatever was held before, and
/// a successful `push` appends to the contents — so `clear` followed by
/// `push(x)` yields the one-element contents `[x]`, regardless of prior
/// contents.
pub proof fn lemma_clear_then_push<T>(x: T)
    ensures
        Seq::<T>::empty().push(x) == seq![x],
{
    assert(Seq::<T>::empty().push(x) =~= seq![x]);
}

impl<T> Default for TryVec<T, Global> {
    /// The empty container backed by the default allocator.
    fn default() -> (v: TryVec<T, Global>)
        ensures
            v.wf(),
            v@ == Seq::<T>::empty(),
            v.spec_capacity() == 0,
    {
        TryVec::new()
    }
}

} // verus!
