use vstd::prelude::*;
use crate::errors::RenderError;

verus! {

/// What a GPU-visible buffer is tagged for.
#[derive(Clone, Copy, Debug, PartialEq, Eq, Structural)]
pub enum BufferUsage {
    Vertex,
    Index,
    Storage,
}

/// Model of one CPU-writable, GPU-readable memory region: its byte
/// capacity, the bytes most recently written into its mapped region, and
/// its usage tag. Once allocated, the capacity is immutable: a write larger
/// than the capacity must replace the buffer (see `BufferSlot::update`),
/// never grow it in place.
pub struct GpuBuffer {
    pub capacity: usize,
    pub contents: Vec<u8>,
    pub usage: BufferUsage,
}

impl GpuBuffer {
    /// A buffer never holds more bytes than its capacity.
    pub open spec fn wf(self) -> bool {
        self.contents@.len() <= self.capacity
    }

    /// Allocate a region of exactly `size_bytes`, initially empty.
    pub fn create(size_bytes: usize, usage: BufferUsage) -> (r: GpuBuffer)
        ensures
            r.wf(),
            r.capacity == size_bytes,
            r.contents@ == Seq::<u8>::empty(),
            r.usage == usage,
    {
        GpuBuffer { capacity: size_bytes, contents: Vec::new(), usage }
    }

    /// Copy `data` into the buffer's mapped region. The caller must have
    /// checked that the data fits: `fill` never grows a buffer.
    pub fn fill(&mut self, data: &Vec<u8>)
        requires
            old(self).wf(),
            data@.len() <= old(self).capacity,
        ensures
            final(self).wf(),
            final(self).capacity == old(self).capacity,
            final(self).usage == old(self).usage,
            final(self).contents@ == data@,
    {
        self.contents = data.clone();
    }

    /// The buffer-fill entry point exposed to collaborators: copy `data`
    /// into the mapped region if it fits, and report the update as failed
    /// otherwise, leaving the buffer untouched — fill never grows a
    /// buffer; the caller must replace it instead.
    pub fn try_fill(&mut self, data: &Vec<u8>) -> (r: Result<(), RenderError>)
        requires
            old(self).wf(),
        ensures
            final(self).wf(),
            r is Ok <==> data@.len() <= old(self).capacity,
            r is Ok ==> final(self).contents@ == data@ && final(self).capacity == old(
                self,
            ).capacity && final(self).usage == old(self).usage,
            r is Err ==> *final(self) == *old(self) && r == Err::<(), RenderError>(
                RenderError::AllocationFailure,
            ),
    {
        if data.len() <= self.capacity {
            self.fill(data);
            Ok(())
        } else {
            Err(RenderError::AllocationFailure)
        }
    }
}

/// The state of one buffer slot of a mesh/material component: either no
/// buffer has been allocated yet, or one is bound.
pub enum BufferSlot {
    Uninitialized,
    Allocated(GpuBuffer),
}

/// The capacity a slot holds, zero while it is uninitialized.
pub open spec fn slot_capacity(s: BufferSlot) -> nat {
    match s {
        BufferSlot::Uninitialized => 0,
        BufferSlot::Allocated(b) => b.capacity as nat,
    }
}

/// The capacity left after writing `n` bytes under the growth policy:
/// a sufficient capacity is reused, an insufficient one is replaced by an
/// allocation of exactly `n` bytes.
pub open spec fn grown_capacity(cap: nat, n: nat) -> nat {
    if n <= cap {
        cap
    } else {
        n
    }
}

/// The capacity a slot holds after a whole sequence of writes, applied in
/// order under the growth policy.
pub open spec fn capacity_after(cap: nat, sizes: Seq<nat>) -> nat
    decreases sizes.len(),
{
    if sizes.len() == 0 {
        cap
    } else {
        capacity_after(grown_capacity(cap, sizes[0]), sizes.drop_first())
    }
}

impl BufferSlot {
    pub open spec fn wf(self) -> bool {
        match self {
            BufferSlot::Uninitialized => true,
            BufferSlot::Allocated(b) => b.wf(),
        }
    }

    /// The bytes currently held, empty while uninitialized.
    pub open spec fn spec_contents(self) -> Seq<u8> {
        match self {
            BufferSlot::Uninitialized => Seq::empty(),
            BufferSlot::Allocated(b) => b.contents@,
        }
    }

    /// Write `data` into the slot under the growth policy: if no buffer
    /// exists or the existing one is too small, allocate a fresh buffer of
    /// exactly `data`'s size and replace the old one; otherwise reuse and
    /// re-fill the existing buffer. Capacity never decreases.
    pub fn update(&mut self, data: &Vec<u8>, usage: BufferUsage)
        requires
            old(self).wf(),
        ensures
            final(self).wf(),
            *final(self) is Allocated,
            final(self).spec_contents() == data@,
            slot_capacity(*final(self)) == grown_capacity(slot_capacity(*old(self)), data@.len()),
            slot_capacity(*final(self)) >= data@.len(),
            slot_capacity(*final(self)) >= slot_capacity(*old(self)),
            *final(self) matches BufferSlot::Allocated(b) ==> b.usage == (match *old(self) {
                BufferSlot::Allocated(ob) => if data@.len() <= ob.capacity { ob.usage } else { usage },
                BufferSlot::Uninitialized => usage,
            }),
    {
        match self {
            BufferSlot::Allocated(b) => {
                if data.len() <= b.capacity {
                    b.fill(data);
                } else {
                    let mut fresh = GpuBuffer::create(data.len(), usage);
                    fresh.fill(data);
                    *self = BufferSlot::Allocated(fresh);
                }
            },
            BufferSlot::Uninitialized => {
                let mut fresh = GpuBuffer::create(data.len(), usage);
                fresh.fill(data);
                *self = BufferSlot::Allocated(fresh);
            },
        }
    }
}

/// Law: one write leaves at least as much capacity as it wrote, and never
/// shrinks what was there.
pub proof fn lemma_grown_capacity_bounds(cap: nat, n: nat)
    ensures
        grown_capacity(cap, n) >= n,
        grown_capacity(cap, n) >= cap,
{
}

/// Law: over any sequence of writes, the capacity never decreases, and
/// after the whole sequence it still covers the most recent write.
pub proof fn lemma_capacity_never_decreases(cap: nat, sizes: Seq<nat>)
    ensures
        capacity_after(cap, sizes) >= cap,
        sizes.len() > 0 ==> capacity_after(cap, sizes) >= sizes.last(),
    decreases sizes.len(),
{
    if sizes.len() > 0 {
        lemma_capacity_never_decreases(grown_capacity(cap, sizes[0]), sizes.drop_first());
        if sizes.len() == 1 {
            assert(capacity_after(cap, sizes) >= grown_capacity(cap, sizes[0]));
        } else {
            assert(sizes.drop_first().last() == sizes.last());
        }
    }
}

} // verus!
