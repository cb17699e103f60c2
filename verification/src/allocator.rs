//! The allocator capability the containers are built on.
//!
//! A container never allocates memory itself: it asks an allocator for a
//! [`Block`] described by a [`BlockLayout`], and returns the block to the
//! same allocator when it is done with it.  Allocation is fallible: the
//! allocator answers every request with either a block of the requested
//! layout or [`AllocError`], and the containers surface that failure to
//! their callers as a structured value.
//!
//! Two allocators are provided: [`Global`], which satisfies every
//! well-formed request, and [`FaultAlloc`], which grants only a fixed
//! number of requests and then refuses — useful for exercising the
//! failure paths of the containers.

use vstd::layout::align_of;
use vstd::layout::size_of;
use vstd::prelude::*;

verus! {

/// The layout of an array of `count` elements of type `T`, as
/// [`array_layout`] computes it when the size does not overflow.
pub open spec fn array_layout_of<T>(count: nat) -> BlockLayout {
    BlockLayout { size: (size_of::<T>() * count) as usize, align: align_of::<T>() as usize }
}

/// The single error kind of this crate: a layout could not be satisfied,
/// either because memory was insufficient or because the requested size
/// overflowed.
#[derive(Clone, Copy, Debug, PartialEq, Eq, Structural)]
pub struct AllocError;

/// The shape of a memory request: a size in bytes and an alignment.
#[derive(Clone, Copy, Debug, PartialEq, Eq, Structural)]
pub struct BlockLayout {
    pub size: usize,
    pub align: usize,
}

/// A raw region of memory of a known layout, owned by whoever obtained it
/// from an allocator.  A block must be returned to the allocator it came
/// from; it is deliberately not `Clone`, so each block has one owner.
#[derive(Debug)]
pub struct Block {
    pub layout: BlockLayout,
}

/// Computes the layout of an array of `count` elements, each of size
/// `elem_size` and alignment `elem_align`.  Overflow of the total size is
/// reported as an allocation failure, never as silent wraparound.
pub fn array_layout(elem_size: usize, elem_align: usize, count: usize) -> (r: Result<
    BlockLayout,
    AllocError,
>)
    ensures
        r matches Ok(l) ==> l.size == elem_size * count && l.align == elem_align,
        r is Ok <==> elem_size * count <= usize::MAX,
{
    match elem_size.checked_mul(count) {
        Some(size) => Ok(BlockLayout { size, align: elem_align }),
        None => Err(AllocError),
    }
}

/// The capability the containers consume: allocate a block, give a block
/// back.  `calls` counts the allocation requests made so far and `live`
/// the blocks handed out and not yet returned; together they let a
/// container state that an operation performed no allocation, or that a
/// failed growth leaked nothing.
pub trait AllocatorCapability: Sized {
    /// How many allocation requests this allocator has answered.
    spec fn calls(&self) -> nat;

    /// How many blocks are currently handed out and not yet returned.
    spec fn live(&self) -> nat;

    /// Whether this allocator, in its current state, would satisfy a
    /// request for the given layout.  Each allocator defines this for
    /// itself; the containers use it to say exactly when an operation
    /// that needs memory succeeds.
    spec fn grants(&self, layout: BlockLayout) -> bool;

    /// Requests a block of the given layout.  The request succeeds if and
    /// only if the allocator grants the layout in its current state; on
    /// success the block has exactly the requested layout, on failure
    /// nothing was handed out.
    fn allocate(&mut self, layout: BlockLayout) -> (r: Result<Block, AllocError>)
        ensures
            final(self).calls() == old(self).calls() + 1,
            r is Ok <==> old(self).grants(layout),
            r matches Ok(b) ==> b.layout == layout && final(self).live() == old(self).live() + 1,
            r is Err ==> final(self).live() == old(self).live(),
    ;

    /// Returns a block obtained from this allocator.  Never fails.
    fn deallocate(&mut self, block: Block)
        requires
            old(self).live() > 0,
        ensures
            final(self).calls() == old(self).calls(),
            final(self).live() == old(self).live() - 1,
    ;
}

/// The default allocator: satisfies every request whose layout could be
/// computed.  Containers constructed without an explicit allocator use an
/// instance of this one.
pub struct Global {
    calls: Ghost<nat>,
    live: Ghost<nat>,
}

impl Global {
    pub fn new() -> (g: Global)
        ensures
            g.calls() == 0,
            g.live() == 0,
    {
        Global { calls: Ghost(0), live: Ghost(0) }
    }
}

impl AllocatorCapability for Global {
    closed spec fn calls(&self) -> nat {
        self.calls@
    }

    closed spec fn live(&self) -> nat {
        self.live@
    }

    open spec fn grants(&self, layout: BlockLayout) -> bool {
        true
    }

    fn allocate(&mut self, layout: BlockLayout) -> (r: Result<Block, AllocError>)
        ensures
            r is Ok,
    {
        self.calls = Ghost(self.calls@ + 1);
        self.live = Ghost(self.live@ + 1);
        Ok(Block { layout })
    }

    fn deallocate(&mut self, block: Block) {
        self.live = Ghost((self.live@ - 1) as nat);
    }
}

/// A fault-injecting allocator: grants the first `budget` requests and
/// refuses every one after that.  It lets a caller force an allocation
/// failure at a chosen point and observe how many allocations a sequence
/// of operations performed.
pub struct FaultAlloc {
    successes_left: usize,
    calls: Ghost<nat>,
    live: Ghost<nat>,
}

impl FaultAlloc {
    /// An allocator that will satisfy exactly `budget` further requests.
    pub fn new(budget: usize) -> (a: FaultAlloc)
        ensures
            a.successes_left() == budget,
            a.calls() == 0,
            a.live() == 0,
    {
        FaultAlloc { successes_left: budget, calls: Ghost(0), live: Ghost(0) }
    }

    /// How many further requests this allocator will satisfy.
    pub closed spec fn successes_left(&self) -> usize {
        self.successes_left
    }

    /// Reports how many further requests will be satisfied.
    pub fn remaining(&self) -> (n: usize)
        ensures
            n == self.successes_left(),
    {
        self.successes_left
    }
}

impl AllocatorCapability for FaultAlloc {
    closed spec fn calls(&self) -> nat {
        self.calls@
    }

    closed spec fn live(&self) -> nat {
        self.live@
    }

    open spec fn grants(&self, layout: BlockLayout) -> bool {
        self.successes_left() > 0
    }

    fn allocate(&mut self, layout: BlockLayout) -> (r: Result<Block, AllocError>)
        ensures
            r is Ok ==> final(self).successes_left() == old(self).successes_left() - 1,
            r is Err ==> final(self).successes_left() == old(self).successes_left(),
    {
        self.calls = Ghost(self.calls@ + 1);
        if self.successes_left > 0 {
            self.successes_left = self.successes_left - 1;
            self.live = Ghost(self.live@ + 1);
            Ok(Block { layout })
        } else {
            Err(AllocError)
        }
    }

    fn deallocate(&mut self, block: Block)
        ensures
            final(self).successes_left() == old(self).successes_left(),
    {
        self.live = Ghost((self.live@ - 1) as nat);
    }
}

} // verus!
