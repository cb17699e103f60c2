//! The owned single-value container.
//!
//! A [`TryBox`] holds exactly one value in a dedicated block obtained
//! from the allocator it was constructed with.  Construction allocates
//! then writes; if the allocation fails the value — already moved in —
//! is lost, a deliberate contract that differs from the sequence
//! container's push.  A raw, logically uninitialized variant
//! ([`TryBoxUninit`], and [`TryBoxSliceUninit`] for a fixed number of
//! contiguous elements) allocates the block only; it becomes an
//! initialized container exclusively through an `assume_init` call,
//! whose precondition — every slot written — is enforced here by the
//! verifier rather than left to the caller's care.

use crate::allocator::array_layout;
use crate::allocator::array_layout_of;
use crate::allocator::AllocError;
use crate::allocator::AllocatorCapability;
use crate::allocator::Block;
use crate::allocator::Global;
use vstd::layout::size_of;
use vstd::pervasive::VecAdditionalExecFns;
use vstd::prelude::*;

verus! {

/// The owned single-value container: one initialized value, the block
/// that holds it, and the allocator the block came from.
pub struct TryBox<T, A: AllocatorCapability = Global> {
    value: T,
    block: Block,
    alloc: A,
}

/// The raw variant of [`TryBox`]: the block is allocated, but the slot
/// need not hold a value yet.
pub struct TryBoxUninit<T, A: AllocatorCapability = Global> {
    slot: Option<T>,
    block: Block,
    alloc: A,
}

/// The array-of-fixed-length variant of [`TryBox`]: `N` contiguous
/// initialized elements in one block.
pub struct TryBoxSlice<T, A: AllocatorCapability = Global> {
    values: Vec<T>,
    block: Block,
    alloc: A,
}

/// The raw variant of [`TryBoxSlice`]: a block for `N` elements whose
/// slots are written one by one.
pub struct TryBoxSliceUninit<T, A: AllocatorCapability = Global> {
    slots: Vec<Option<T>>,
    block: Block,
    alloc: A,
}

impl<T, A: AllocatorCapability> View for TryBox<T, A> {
    type V = T;

    closed spec fn view(&self) -> T {
        self.value
    }
}

impl<T, A: AllocatorCapability> TryBox<T, A> {
    /// The allocator instance the container was constructed with.
    pub closed spec fn spec_allocator(&self) -> A {
        self.alloc
    }

    /// Well-formedness: the block is sized and aligned for exactly one
    /// value of the held type.
    pub closed spec fn wf(&self) -> bool {
        self.block.layout == array_layout_of::<T>(1) && size_of::<T>() <= usize::MAX
    }

    /// Allocates a block for one value and writes `value` into it.  The
    /// request succeeds exactly when the allocator grants the layout;
    /// on failure the value is lost — it was already moved in before
    /// the allocation was attempted.
    pub fn new_in(value: T, alloc: A) -> (r: Result<TryBox<T, A>, AllocError>)
        ensures
            r matches Ok(b) ==> b.wf() && b@ == value && b.spec_allocator().calls() == alloc.calls()
                + 1,
            r is Ok <==> alloc.grants(array_layout_of::<T>(1)),
    {
        let layout = match array_layout(core::mem::size_of::<T>(), core::mem::align_of::<T>(), 1) {
            Ok(l) => l,
            Err(e) => {
                return Err(e);
            },
        };
        let mut alloc = alloc;
        match alloc.allocate(layout) {
            Ok(block) => Ok(TryBox { value, block, alloc }),
            Err(e) => Err(e),
        }
    }

    /// Allocates a block for one value and makes no assumption about its
    /// contents; the result is the distinct raw variant.
    pub fn new_uninit_in(alloc: A) -> (r: Result<TryBoxUninit<T, A>, AllocError>)
        ensures
            r matches Ok(u) ==> u.wf() && !u.is_init() && u.spec_allocator().calls()
                == alloc.calls() + 1,
            r is Ok <==> alloc.grants(array_layout_of::<T>(1)),
    {
        let layout = match array_layout(core::mem::size_of::<T>(), core::mem::align_of::<T>(), 1) {
            Ok(l) => l,
            Err(e) => {
                return Err(e);
            },
        };
        let mut alloc = alloc;
        match alloc.allocate(layout) {
            Ok(block) => Ok(TryBoxUninit { slot: None, block, alloc }),
            Err(e) => Err(e),
        }
    }

    /// Certifies that the slot of the raw container has been written and
    /// turns it into the initialized container, without reallocation.
    /// The certification is a verified precondition here, not a runtime
    /// check.
    pub fn assume_init(raw: TryBoxUninit<T, A>) -> (b: TryBox<T, A>)
        requires
            raw.wf(),
            raw.is_init(),
        ensures
            b.wf(),
            b@ == raw.spec_value(),
            b.spec_allocator() == raw.spec_allocator(),
    {
        let TryBoxUninit { slot, block, alloc } = raw;
        match slot {
            Some(value) => TryBox { value, block, alloc },
            None => vstd::pervasive::unreached(),
        }
    }

    /// A reference to the held value; always valid, never allocates.
    pub fn get(&self) -> (r: &T)
        ensures
            *r == self@,
    {
        &self.value
    }

    /// A mutable reference to the held value; always valid, never
    /// allocates.
    pub fn get_mut(&mut self) -> (r: &mut T)
        requires
            old(self).wf(),
        ensures
            *r == old(self)@,
            final(self)@ == *final(r),
            final(self).wf(),
            final(self).spec_allocator() == old(self).spec_allocator(),
    {
        &mut self.value
    }

    /// Takes the held value out without returning the block to the
    /// allocator: the obligation to ever release the block leaves the
    /// container and is not taken up by anyone — a deliberate,
    /// permanent leak.
    pub fn leak(slf: TryBox<T, A>) -> (r: T)
        ensures
            r == slf@,
    {
        let TryBox { value, block, alloc } = slf;
        value
    }
}

impl<T> TryBox<T, Global> {
    /// Allocates with the default allocator, which grants every request
    /// for a single value, and writes `value` into the block.
    pub fn new(value: T) -> (r: Result<TryBox<T, Global>, AllocError>)
        ensures
            r is Ok,
            r matches Ok(b) ==> b.wf() && b@ == value,
    {
        Self::new_in(value, Global::new())
    }

    /// Allocates a raw container with the default allocator.
    pub fn new_uninit() -> (r: Result<TryBoxUninit<T, Global>, AllocError>)
        ensures
            r is Ok,
            r matches Ok(u) ==> u.wf() && !u.is_init(),
    {
        Self::new_uninit_in(Global::new())
    }
}

impl<T, A: AllocatorCapability> TryBoxUninit<T, A> {
    /// The allocator instance the container was constructed with.
    pub closed spec fn spec_allocator(&self) -> A {
        self.alloc
    }

    /// Whether the slot has been written.
    pub closed spec fn is_init(&self) -> bool {
        self.slot is Some
    }

    /// The written value.
    pub closed spec fn spec_value(&self) -> T
        recommends
            self.is_init(),
    {
        self.slot.unwrap()
    }

    /// Well-formedness: the block is sized and aligned for exactly one
    /// value of the held type.
    pub closed spec fn wf(&self) -> bool {
        self.block.layout == array_layout_of::<T>(1) && size_of::<T>() <= usize::MAX
    }

    /// Writes a value into the slot.  After this the container may be
    /// certified initialized.
    pub fn write(&mut self, value: T)
        requires
            old(self).wf(),
        ensures
            final(self).wf(),
            final(self).is_init(),
            final(self).spec_value() == value,
            final(self).spec_allocator() == old(self).spec_allocator(),
    {
        self.slot = Some(value);
    }
}

impl<T, A: AllocatorCapability> TryBox<T, A> {
    /// Allocates one block for `len` contiguous elements, the total size
    /// computed with overflow checking, and makes no assumption about
    /// the slots' contents.
    pub fn new_uninit_slice_in(len: usize, alloc: A) -> (r: Result<
        TryBoxSliceUninit<T, A>,
        AllocError,
    >)
        ensures
            r matches Ok(u) ==> u.wf() && u.spec_len() == len && forall|i: int|
                0 <= i < len ==> !u.is_init_at(i),
            r matches Ok(u) ==> u.spec_allocator().calls() == alloc.calls() + 1,
            r is Ok <==> size_of::<T>() * len <= usize::MAX && alloc.grants(array_layout_of::<T>(len as nat)),
    {
        let layout = match array_layout(
            core::mem::size_of::<T>(),
            core::mem::align_of::<T>(),
            len,
        ) {
            Ok(l) => l,
            Err(e) => {
                return Err(e);
            },
        };
        let mut alloc = alloc;
        let block = match alloc.allocate(layout) {
            Ok(b) => b,
            Err(e) => {
                return Err(e);
            },
        };
        let mut slots: Vec<Option<T>> = Vec::new();
        let mut i: usize = 0;
        while i < len
            invariant
                i <= len,
                slots@.len() == i,
                forall|j: int| 0 <= j < i ==> slots@[j] is None,
            decreases len - i,
        {
            slots.push(None);
            i = i + 1;
        }
        Ok(TryBoxSliceUninit { slots, block, alloc })
    }
}

impl<T: Copy, A: AllocatorCapability> TryBox<T, A> {
    /// Allocates one block for `len` contiguous elements and fills every
    /// slot with `value`.
    pub fn new_slice_in(len: usize, value: T, alloc: A) -> (r: Result<
        TryBoxSlice<T, A>,
        AllocError,
    >)
        ensures
            r matches Ok(s) ==> s.wf() && s@.len() == len && forall|i: int|
                0 <= i < len ==> s@[i] == value,
            r is Ok <==> size_of::<T>() * len <= usize::MAX && alloc.grants(array_layout_of::<T>(len as nat)),
    {
        let mut raw = match TryBox::<T, A>::new_uninit_slice_in(len, alloc) {
            Ok(u) => u,
            Err(e) => {
                return Err(e);
            },
        };
        raw.fill(value);
        let s = TryBoxSlice::assume_init(raw);
        proof {
            assert(s@.len() == len);
            assert forall|i: int| 0 <= i < len implies s@[i] == value by {
                assert(s@[i] == raw.spec_value_at(i));
            }
        }
        Ok(s)
    }
}

impl<T: Copy> TryBox<T, Global> {
    /// Allocates with the default allocator, which grants every request
    /// whose total size does not overflow, and fills every slot with
    /// `value`.
    pub fn new_slice(len: usize, value: T) -> (r: Result<TryBoxSlice<T, Global>, AllocError>)
        ensures
            r matches Ok(s) ==> s.wf() && s@.len() == len && forall|i: int|
                0 <= i < len ==> s@[i] == value,
            r is Ok <==> size_of::<T>() * len <= usize::MAX,
    {
        TryBox::<T, Global>::new_slice_in(len, value, Global::new())
    }
}

impl<T, A: AllocatorCapability> TryBoxSliceUninit<T, A> {
    /// The allocator instance the container was constructed with.
    pub closed spec fn spec_allocator(&self) -> A {
        self.alloc
    }

    /// The number of slots.
    pub closed spec fn spec_len(&self) -> nat {
        self.slots@.len()
    }

    /// Whether the slot at `i` has been written.
    pub closed spec fn is_init_at(&self, i: int) -> bool {
        0 <= i < self.slots@.len() && self.slots@[i] is Some
    }

    /// Whether every slot has been written.
    pub open spec fn all_init(&self) -> bool {
        forall|i: int| 0 <= i < self.spec_len() ==> self.is_init_at(i)
    }

    /// The value written at slot `i`.
    pub closed spec fn spec_value_at(&self, i: int) -> T
        recommends
            self.is_init_at(i),
    {
        self.slots@[i].unwrap()
    }

    /// Well-formedness: the block is sized and aligned for exactly the
    /// number of slots.
    pub closed spec fn wf(&self) -> bool {
        self.block.layout == array_layout_of::<T>(self.slots@.len()) && size_of::<T>()
            * self.slots@.len() <= usize::MAX
    }

    /// The number of slots.
    pub fn len(&self) -> (n: usize)
        ensures
            n == self.spec_len(),
    {
        self.slots.len()
    }

    /// Writes a value into the slot at `index`, leaving every other
    /// slot as it was.
    pub fn write_at(&mut self, index: usize, value: T)
        requires
            old(self).wf(),
            index < old(self).spec_len(),
        ensures
            final(self).wf(),
            final(self).spec_len() == old(self).spec_len(),
            final(self).is_init_at(index as int),
            final(self).spec_value_at(index as int) == value,
            forall|j: int|
                0 <= j < old(self).spec_len() && j != index ==> final(self).is_init_at(j)
                    == old(self).is_init_at(j),
            forall|j: int|
                0 <= j < old(self).spec_len() && j != index && old(self).is_init_at(j)
                    ==> final(self).spec_value_at(j) == old(self).spec_value_at(j),
    {
        self.slots.set(index, Some(value));
    }
}

impl<T: Copy, A: AllocatorCapability> TryBoxSliceUninit<T, A> {
    /// Writes `value` into every slot.
    pub fn fill(&mut self, value: T)
        requires
            old(self).wf(),
        ensures
            final(self).wf(),
            final(self).spec_len() == old(self).spec_len(),
            forall|j: int| 0 <= j < old(self).spec_len() ==> final(self).is_init_at(j),
            forall|j: int|
                0 <= j < old(self).spec_len() ==> final(self).spec_value_at(j) == value,
    {
        let n = self.slots.len();
        let mut i: usize = 0;
        while i < n
            invariant
                i <= n,
                self.slots@.len() == n,
                self.block == old(self).block,
                self.wf(),
                forall|j: int| 0 <= j < i ==> self.slots@[j] == Some(value),
            decreases n - i,
        {
            self.slots.set(i, Some(value));
            i = i + 1;
        }
    }
}

impl<T, A: AllocatorCapability> View for TryBoxSlice<T, A> {
    type V = Seq<T>;

    closed spec fn view(&self) -> Seq<T> {
        self.values@
    }
}

impl<T, A: AllocatorCapability> TryBoxSlice<T, A> {
    /// Well-formedness: the block is sized and aligned for exactly the
    /// held elements.
    pub closed spec fn wf(&self) -> bool {
        self.block.layout == array_layout_of::<T>(self.values@.len()) && size_of::<T>()
            * self.values@.len() <= usize::MAX
    }

    /// Certifies that every slot of the raw container has been written
    /// and turns it into the initialized container, without
    /// reallocation: the result exposes exactly the written values, in
    /// slot order, with nothing default-initialized behind the caller's
    /// back.
    pub fn assume_init(raw: TryBoxSliceUninit<T, A>) -> (b: TryBoxSlice<T, A>)
        requires
            raw.wf(),
            raw.all_init(),
        ensures
            b.wf(),
            b@.len() == raw.spec_len(),
            forall|i: int| 0 <= i < raw.spec_len() ==> b@[i] == raw.spec_value_at(i),
    {
        let TryBoxSliceUninit { slots, block, alloc } = raw;
        let mut slots = slots;
        let ghost orig = slots@;
        let n = slots.len();
        proof {
            assert forall|j: int| 0 <= j < n implies orig[j] is Some by {
                assert(raw.is_init_at(j));
            }
        }
        let mut values: Vec<T> = Vec::new();
        let mut i: usize = 0;
        while i < n
            invariant
                i <= n,
                slots@.len() == n,
                values@.len() == i,
                forall|j: int| 0 <= j < n ==> #[trigger] orig[j] is Some,
                forall|j: int| i <= j < n ==> #[trigger] slots@[j] == orig[j],
                forall|j: int| 0 <= j < i ==> #[trigger] values@[j] == orig[j].unwrap(),
            decreases n - i,
        {
            proof {
                assert(slots@[i as int] == orig[i as int]);
                assert(orig[i as int] is Some);
            }
            let mut taken: Option<T> = None;
            slots.set_and_swap(i, &mut taken);
            match taken {
                Some(v) => values.push(v),
                None => vstd::pervasive::unreached(),
            }
            i = i + 1;
        }
        proof {
            assert forall|j: int| 0 <= j < raw.spec_len() implies values@[j] == raw.spec_value_at(
                j,
            ) by {
                assert(values@[j] == orig[j].unwrap());
            }
        }
        TryBoxSlice { values, block, alloc }
    }

    /// The number of elements.
    pub fn len(&self) -> (n: usize)
        ensures
            n == self@.len(),
    {
        self.values.len()
    }

    /// A reference to the element at `index`; always valid once
    /// initialized, never allocates.
    pub fn get(&self, index: usize) -> (r: &T)
        requires
            index < self@.len(),
        ensures
            *r == self@[index as int],
    {
        vstd::std_specs::vec::vec_index(&self.values, index)
    }

    /// Replaces the element at `index`.
    pub fn set(&mut self, index: usize, value: T)
        requires
            old(self).wf(),
            index < old(self)@.len(),
        ensures
            final(self).wf(),
            final(self)@ == old(self)@.update(index as int, value),
    {
        self.values.set(index, value);
    }

    /// The elements, as a read-only slice.
    pub fn as_slice(&self) -> (s: &[T])
        ensures
            s@ == self@,
    {
        self.values.as_slice()
    }
}

} // verus!
