//! The guest-side memory arena: a bump allocator over one contiguous byte
//! array, the landing zone for payloads crossing the boundary.
//!
//! Every operation is checked: writes and reads must name a live allocation
//! and fit inside it, and releasing a buffer that is not live is a reported
//! error rather than undefined behaviour.

use vstd::prelude::*;

verus! {

/// A buffer handle: the start offset and the capacity of one allocation
/// inside the arena's memory.
#[derive(Clone, Copy, PartialEq, Eq, Structural, Debug)]
pub struct Handle {
    pub ptr: u32,
    pub size: u32,
}

/// The ways a checked arena operation can fail.
#[derive(Clone, Copy, PartialEq, Eq, Structural, Debug)]
pub enum ArenaError {
    /// No live allocation starts at the given pointer.
    NoSuchAllocation,
    /// A live allocation starts at the pointer, but the payload does not fit
    /// inside its capacity.
    CapacityExceeded,
    /// The exact (pointer, size) pair is not a live allocation.
    NotLive,
    /// The arena has too little unallocated memory left.
    OutOfMemory,
}

/// The memory `m` with `data` written at offset `ptr`; everything outside
/// that region is unchanged.
pub open spec fn write_bytes(m: Seq<u8>, ptr: int, data: Seq<u8>) -> Seq<u8> {
    Seq::new(m.len(), |i: int| if ptr <= i < ptr + data.len() { data[i - ptr] } else { m[i] })
}

/// The `len` bytes of memory `m` starting at offset `ptr`.
pub open spec fn read_bytes(m: Seq<u8>, ptr: int, len: int) -> Seq<u8> {
    m.subrange(ptr, ptr + len)
}

/// Round trip at the byte level: reading back the region just written
/// yields exactly the bytes that were written.
pub proof fn lemma_write_read_round_trip(m: Seq<u8>, ptr: int, data: Seq<u8>)
    requires
        0 <= ptr,
        ptr + data.len() <= m.len(),
    ensures
        read_bytes(write_bytes(m, ptr, data), ptr, data.len() as int) == data,
{
    assert(read_bytes(write_bytes(m, ptr, data), ptr, data.len() as int) =~= data);
}

/// The arena: one linear byte memory, the set of live allocations, and the
/// bump offset below which all allocations so far were carved out.
pub struct Arena {
    mem: Vec<u8>,
    live: Vec<Handle>,
    next: u32,
}

impl Arena {
    /// The size of the arena's memory in bytes: the length of `contents()`.
    pub open spec fn mem_size(&self) -> nat {
        self.contents().len()
    }

    /// The bytes of the arena's memory.
    pub closed spec fn contents(&self) -> Seq<u8> {
        self.mem@
    }

    /// The live allocations, in the order they were made.
    pub closed spec fn live_allocs(&self) -> Seq<Handle> {
        self.live@
    }

    /// The bump offset: memory at and above it is still unallocated.
    pub closed spec fn bump(&self) -> nat {
        self.next as nat
    }

    /// Two handles name non-overlapping memory regions.
    pub open spec fn disjoint(a: Handle, b: Handle) -> bool {
        a.ptr + a.size <= b.ptr || b.ptr + b.size <= a.ptr
    }

    /// The arena's invariant: every live allocation lies below the bump
    /// offset, the bump offset lies inside memory, and live allocations are
    /// pairwise disjoint.
    pub open spec fn wf(&self) -> bool {
        &&& self.bump() <= self.mem_size()
        &&& self.mem_size() <= u32::MAX as nat
        &&& forall|i: int|
            0 <= i < self.live_allocs().len() ==> (#[trigger] self.live_allocs()[i]).ptr
                + self.live_allocs()[i].size <= self.bump()
        &&& forall|i: int, j: int|
            0 <= i < j < self.live_allocs().len() ==> Self::disjoint(
                self.live_allocs()[i],
                self.live_allocs()[j],
            )
    }

    /// There is a live allocation starting at `ptr` with at least `len`
    /// bytes of capacity.
    pub open spec fn region_live(&self, ptr: u32, len: nat) -> bool {
        exists|i: int|
            0 <= i < self.live_allocs().len() && (#[trigger] self.live_allocs()[i]).ptr == ptr
                && len <= self.live_allocs()[i].size
    }

    /// Some live allocation starts at `ptr`.
    pub open spec fn ptr_live(&self, ptr: u32) -> bool {
        exists|i: int|
            0 <= i < self.live_allocs().len() && (#[trigger] self.live_allocs()[i]).ptr == ptr
    }

    /// A live region lies inside memory.
    pub proof fn lemma_region_in_bounds(&self, ptr: u32, len: nat)
        requires
            self.wf(),
            self.region_live(ptr, len),
        ensures
            ptr + len <= self.mem_size(),
    {
        let i = choose|i: int|
            0 <= i < self.live_allocs().len() && (#[trigger] self.live_allocs()[i]).ptr == ptr
                && len <= self.live_allocs()[i].size;
        assert(self.live_allocs()[i].ptr + self.live_allocs()[i].size <= self.bump());
    }

    /// A fresh arena of `size` zeroed bytes with no live allocations.
    pub fn new(size: u32) -> (r: Arena)
        ensures
            r.wf(),
            r.mem_size() == size as nat,
            r.live_allocs() == Seq::<Handle>::empty(),
            r.bump() == 0,
            r.contents() == Seq::new(size as nat, |i: int| 0u8),
    {
        let mut mem: Vec<u8> = Vec::new();
        while mem.len() < size as usize
            invariant
                mem@.len() <= size as nat,
                forall|i: int| 0 <= i < mem@.len() ==> mem@[i] == 0u8,
            decreases size as int - mem@.len(),
        {
            mem.push(0u8);
        }
        let r = Arena { mem, live: Vec::new(), next: 0 };
        proof {
            assert(r.contents() =~= Seq::new(size as nat, |i: int| 0u8));
            assert(r.live_allocs() =~= Seq::<Handle>::empty());
        }
        r
    }

    /// Reserves `size` bytes and returns their start offset. The new region
    /// is disjoint from every live allocation; the arena's bytes are left
    /// untouched. Fails exactly when fewer than `size` unallocated bytes
    /// remain above the bump offset.
    pub fn allocate(&mut self, size: u32) -> (r: Result<u32, ArenaError>)
        requires
            old(self).wf(),
        ensures
            final(self).wf(),
            final(self).mem_size() == old(self).mem_size(),
            final(self).contents() == old(self).contents(),
            r is Ok <==> size as nat <= old(self).mem_size() - old(self).bump(),
            r matches Ok(p) ==> {
                &&& p == old(self).bump()
                &&& p + size <= final(self).mem_size()
                &&& final(self).bump() == old(self).bump() + size
                &&& final(self).live_allocs() == old(self).live_allocs().push(
                    Handle { ptr: p, size },
                )
                &&& forall|i: int|
                    0 <= i < old(self).live_allocs().len() ==> Self::disjoint(
                        #[trigger] old(self).live_allocs()[i],
                        Handle { ptr: p, size },
                    )
            },
            r is Err ==> {
                &&& r == Err::<u32, ArenaError>(ArenaError::OutOfMemory)
                &&& final(self).live_allocs() == old(self).live_allocs()
                &&& final(self).bump() == old(self).bump()
            },
    {
        if size as usize <= self.mem.len() - self.next as usize {
            let p = self.next;
            self.next = p + size;
            self.live.push(Handle { ptr: p, size });
            Ok(p)
        } else {
            Err(ArenaError::OutOfMemory)
        }
    }

    /// Releases the allocation that was handed out as exactly this
    /// (pointer, size) pair. Fails, changing nothing, exactly when no such
    /// allocation is live — in particular on a repeated release.
    pub fn deallocate(&mut self, ptr: u32, size: u32) -> (r: Result<(), ArenaError>)
        requires
            old(self).wf(),
        ensures
            final(self).wf(),
            final(self).mem_size() == old(self).mem_size(),
            final(self).contents() == old(self).contents(),
            final(self).bump() == old(self).bump(),
            r is Ok <==> old(self).live_allocs().contains(Handle { ptr, size }),
            r is Ok ==> exists|i: int|
                0 <= i < old(self).live_allocs().len() && #[trigger] old(self).live_allocs()[i]
                    == (Handle { ptr, size })
                    && final(self).live_allocs() == old(self).live_allocs().remove(i),
            r is Err ==> r == Err::<(), ArenaError>(ArenaError::NotLive)
                && final(self).live_allocs() == old(self).live_allocs(),
    {
        let target = Handle { ptr, size };
        let n = self.live.len();
        let mut i: usize = 0;
        while i < n
            invariant
                old(self).wf(),
                n == self.live@.len(),
                i <= n,
                forall|k: int| 0 <= k < i ==> self.live@[k] != target,
                *self == *old(self),
                target == (Handle { ptr, size }),
            decreases n - i,
        {
            if self.live[i] == target {
                proof {
                    assert(old(self).live_allocs()[i as int] == target);
                }
                self.live.remove(i);
                proof {
                    Self::lemma_remove_keeps_wf(*old(self), i as int);
                }
                return Ok(());
            }
            i += 1;
        }
        assert(!old(self).live_allocs().contains(target));
        Err(ArenaError::NotLive)
    }

    /// Removing one live allocation preserves the arena's invariant.
    proof fn lemma_remove_keeps_wf(a: Arena, i: int)
        requires
            a.wf(),
            0 <= i < a.live_allocs().len(),
        ensures
            forall|k: int|
                0 <= k < a.live_allocs().remove(i).len() ==> (#[trigger] a.live_allocs().remove(
                    i,
                )[k]).ptr + a.live_allocs().remove(i)[k].size <= a.bump(),
            forall|k: int, l: int|
                0 <= k < l < a.live_allocs().remove(i).len() ==> Self::disjoint(
                    a.live_allocs().remove(i)[k],
                    a.live_allocs().remove(i)[l],
                ),
    {
        let s = a.live_allocs();
        let t = s.remove(i);
        assert forall|k: int| 0 <= k < t.len() implies (#[trigger] t[k]).ptr + t[k].size
            <= a.bump() by {
            if k < i {
                assert(t[k] == s[k]);
            } else {
                assert(t[k] == s[k + 1]);
            }
        }
        assert forall|k: int, l: int| 0 <= k < l < t.len() implies Self::disjoint(t[k], t[l]) by {
            let k0 = if k < i { k } else { k + 1 };
            let l0 = if l < i { l } else { l + 1 };
            assert(t[k] == s[k0]);
            assert(t[l] == s[l0]);
            assert(Self::disjoint(s[k0], s[l0]));
        }
    }

    /// Writes `data` at `ptr`, which must be the start of a live allocation
    /// with capacity for it. On success the region holds `data` and all
    /// other bytes are unchanged; on failure nothing changes.
    pub fn write(&mut self, ptr: u32, data: &[u8]) -> (r: Result<(), ArenaError>)
        requires
            old(self).wf(),
        ensures
            final(self).wf(),
            final(self).mem_size() == old(self).mem_size(),
            final(self).live_allocs() == old(self).live_allocs(),
            final(self).bump() == old(self).bump(),
            r is Ok <==> old(self).region_live(ptr, data@.len()),
            r is Ok ==> final(self).contents() == write_bytes(
                old(self).contents(),
                ptr as int,
                data@,
            ),
            r is Err ==> final(self).contents() == old(self).contents(),
            r == Err::<(), ArenaError>(ArenaError::NoSuchAllocation) <==> !old(self).ptr_live(ptr),
            r == Err::<(), ArenaError>(ArenaError::CapacityExceeded) <==> old(self).ptr_live(ptr)
                && !old(self).region_live(ptr, data@.len()),
    {
        match self.find_region(ptr, data.len()) {
            Ok(()) => (),
            Err(e) => {
                return Err(e);
            },
        }
        proof {
            self.lemma_region_in_bounds(ptr, data@.len());
        }
        let ghost m0 = self.mem@;
        let mut k: usize = 0;
        while k < data.len()
            invariant
                self.live@ == old(self).live@,
                self.next == old(self).next,
                k <= data@.len(),
                ptr as int + data@.len() <= self.mem@.len(),
                self.mem@.len() <= u32::MAX as nat,
                self.mem@.len() == m0.len(),
                forall|i: int|
                    0 <= i < self.mem@.len() ==> #[trigger] self.mem@[i] == (if ptr <= i < ptr
                        + k {
                        data@[i - ptr]
                    } else {
                        m0[i]
                    }),
            decreases data@.len() - k,
        {
            self.mem.set(ptr as usize + k, data[k]);
            k += 1;
        }
        proof {
            assert(self.mem@ =~= write_bytes(m0, ptr as int, data@));
        }
        Ok(())
    }

    /// Reads `len` bytes starting at `ptr`, which must be the start of a
    /// live allocation of at least that capacity.
    pub fn read(&self, ptr: u32, len: u32) -> (r: Result<Vec<u8>, ArenaError>)
        requires
            self.wf(),
        ensures
            r is Ok <==> self.region_live(ptr, len as nat),
            r matches Ok(v) ==> v@ == read_bytes(self.contents(), ptr as int, len as int),
            r == Err::<Vec<u8>, ArenaError>(ArenaError::NoSuchAllocation) <==> !self.ptr_live(ptr),
            r == Err::<Vec<u8>, ArenaError>(ArenaError::CapacityExceeded) <==> self.ptr_live(ptr)
                && !self.region_live(ptr, len as nat),
    {
        match self.find_region(ptr, len as usize) {
            Ok(()) => (),
            Err(e) => {
                return Err(e);
            },
        }
        proof {
            self.lemma_region_in_bounds(ptr, len as nat);
        }
        let mut out: Vec<u8> = Vec::new();
        let mut k: usize = 0;
        while k < len as usize
            invariant
                k <= len as nat,
                ptr as int + len as int <= self.mem@.len(),
                self.mem@.len() <= u32::MAX as nat,
                out@ == self.mem@.subrange(ptr as int, ptr as int + k),
            decreases len as int - k,
        {
            out.push(self.mem[ptr as usize + k]);
            proof {
                assert(out@ =~= self.mem@.subrange(ptr as int, ptr as int + k + 1));
            }
            k += 1;
        }
        Ok(out)
    }

    /// Scans the live allocations for one starting at `ptr` with at least
    /// `len` bytes of capacity.
    fn find_region(&self, ptr: u32, len: usize) -> (r: Result<(), ArenaError>)
        ensures
            r is Ok <==> self.region_live(ptr, len as nat),
            r == Err::<(), ArenaError>(ArenaError::NoSuchAllocation) <==> !self.ptr_live(ptr),
            r == Err::<(), ArenaError>(ArenaError::CapacityExceeded) <==> self.ptr_live(ptr)
                && !self.region_live(ptr, len as nat),
    {
        let n = self.live.len();
        let mut i: usize = 0;
        let mut seen_ptr = false;
        while i < n
            invariant
                n == self.live_allocs().len(),
                i <= n,
                forall|k: int|
                    0 <= k < i ==> !((#[trigger] self.live_allocs()[k]).ptr == ptr && len as nat
                        <= self.live_allocs()[k].size),
                seen_ptr <==> exists|k: int|
                    0 <= k < i && (#[trigger] self.live_allocs()[k]).ptr == ptr,
            decreases n - i,
        {
            let h = self.live[i];
            if h.ptr == ptr {
                if len <= h.size as usize {
                    proof {
                        assert(self.live_allocs()[i as int].ptr == ptr && len as nat
                            <= self.live_allocs()[i as int].size);
                    }
                    return Ok(());
                }
                seen_ptr = true;
            }
            i += 1;
        }
        if seen_ptr {
            Err(ArenaError::CapacityExceeded)
        } else {
            Err(ArenaError::NoSuchAllocation)
        }
    }
}

} // verus!
