//! The guest's linear memory and its bump allocator.
//!
//! Addresses are 32-bit offsets into the memory. Every allocation reserves at least one byte,
//! so that live allocations have distinct addresses, and nothing is ever allocated below
//! `HEAP_BASE`, so that no allocation sits at the null address. Releasing the topmost
//! allocation gives its bytes back; releasing any other only ends its life.
use vstd::prelude::*;

verus! {

/// Lowest address that an allocation can have.
pub const HEAP_BASE: u32 = 8;

/// Size in bytes that the linear memory can grow to.
pub const MEMORY_LIMIT: u32 = 0x8000_0000;

/// Bytes that an allocation of `size` reserves.
pub open spec fn span(size: int) -> int {
    if size == 0 {
        1
    } else {
        size
    }
}

/// The regions reserved for an allocation of `sa` bytes at `a` and of `sb` bytes at `b`
/// share no byte.
pub open spec fn disjoint(a: int, sa: int, b: int, sb: int) -> bool {
    a + span(sa) <= b || b + span(sb) <= a
}

/// Little-endian bytes of a 32-bit word.
pub open spec fn le_bytes(v: u32) -> Seq<u8> {
    seq![v as u8, (v >> 8u32) as u8, (v >> 16u32) as u8, (v >> 24u32) as u8]
}

/// The guest's linear memory, together with the allocations that are live in it.
pub struct GuestMemory {
    bytes: Vec<u8>,
    live: Ghost<Map<int, int>>,
}

impl GuestMemory {
    /// What the memory holds, from address 0 to its current top.
    pub closed spec fn contents(&self) -> Seq<u8> {
        self.bytes@
    }

    /// The live allocations, from base address to the size asked for.
    pub closed spec fn live(&self) -> Map<int, int> {
        self.live@
    }

    /// The address just past the highest reserved byte.
    pub open spec fn top(&self) -> int {
        self.contents().len() as int
    }

    /// The memory lies within its limit, and each live allocation lies within the memory,
    /// above `HEAP_BASE`, apart from every other live allocation.
    pub open spec fn wf(&self) -> bool {
        &&& HEAP_BASE <= self.top() <= MEMORY_LIMIT
        &&& forall|a: int|
            #![trigger self.live().contains_key(a)]
            self.live().contains_key(a) ==> HEAP_BASE <= a && 0 <= self.live()[a] && a + span(
                self.live()[a],
            ) <= self.top()
        &&& forall|a: int, b: int|
            #![trigger self.live().contains_key(a), self.live().contains_key(b)]
            self.live().contains_key(a) && self.live().contains_key(b) && a != b ==> disjoint(
                a,
                self.live()[a],
                b,
                self.live()[b],
            )
    }

    /// `after` is this memory once `size` bytes were allocated at `addr`.
    pub open spec fn allocated(&self, size: int, addr: int, after: GuestMemory) -> bool {
        &&& addr == self.top()
        &&& after.live() == self.live().insert(addr, size)
        &&& after.contents() == self.contents() + Seq::new(span(size) as nat, |i: int| 0u8)
    }

    /// `after` is this memory once the allocation of `size` bytes at `addr` was released.
    pub open spec fn released(&self, addr: int, size: int, after: GuestMemory) -> bool {
        &&& after.live() == self.live().remove(addr)
        &&& after.contents() == if addr + span(size) == self.top() {
            self.contents().subrange(0, addr)
        } else {
            self.contents()
        }
    }

    /// `after` is this memory with `data` written at `addr`.
    pub open spec fn written(&self, addr: int, data: Seq<u8>, after: GuestMemory) -> bool {
        &&& after.live() == self.live()
        &&& after.contents() == self.contents().subrange(0, addr) + data + self.contents().subrange(
            addr + data.len(),
            self.top(),
        )
    }

    /// An empty memory: only the reserved bytes below `HEAP_BASE`, all zero, and nothing
    /// allocated.
    pub fn new() -> (r: GuestMemory)
        ensures
            r.wf(),
            r.contents() == Seq::new(HEAP_BASE as nat, |i: int| 0u8),
            r.live() == Map::<int, int>::empty(),
    {
        let mut bytes: Vec<u8> = Vec::new();
        let mut i: u32 = 0;
        while i < HEAP_BASE
            invariant
                i <= HEAP_BASE,
                bytes@ == Seq::new(i as nat, |k: int| 0u8),
            decreases HEAP_BASE - i,
        {
            bytes.push(0u8);
            i = i + 1;
            assert(bytes@ =~= Seq::new(i as nat, |k: int| 0u8));
        }
        GuestMemory { bytes, live: Ghost(Map::empty()) }
    }

    /// Copies `len` bytes from `addr` out of the memory.
    pub fn read(&self, addr: u32, len: u32) -> (r: Vec<u8>)
        requires
            self.wf(),
            addr as int + len as int <= self.top(),
        ensures
            r@ == self.contents().subrange(addr as int, addr as int + len as int),
    {
        let mut r: Vec<u8> = Vec::new();
        let mut i: u32 = 0;
        while i < len
            invariant
                i <= len,
                addr as int + len as int <= self.bytes@.len() <= MEMORY_LIMIT,
                r@ == self.bytes@.subrange(addr as int, addr as int + i as int),
            decreases len - i,
        {
            r.push(self.bytes[(addr + i) as usize]);
            i = i + 1;
            assert(r@ =~= self.bytes@.subrange(addr as int, addr as int + i as int));
        }
        r
    }

    /// Writes `data` at `addr`.
    pub fn write(&mut self, addr: u32, data: &[u8])
        requires
            old(self).wf(),
            addr as int + data@.len() <= old(self).top(),
        ensures
            final(self).wf(),
            old(self).written(addr as int, data@, *final(self)),
    {
        let ghost before = self.bytes@;
        let n = data.len();
        let mut i: usize = 0;
        while i < n
            invariant
                n == data@.len(),
                i <= n,
                addr as int + n <= before.len() <= MEMORY_LIMIT,
                self.live@ == old(self).live@,
                self.bytes@.len() == before.len(),
                forall|k: int|
                    0 <= k < before.len() ==> self.bytes@[k] == if addr <= k < addr + i {
                        data@[k - addr]
                    } else {
                        before[k]
                    },
            decreases n - i,
        {
            self.bytes.set(addr as usize + i, data[i]);
            i = i + 1;
        }
        assert(self.live() == old(self).live() && self.top() == old(self).top());
        assert(self.bytes@ =~= before.subrange(0, addr as int) + data@ + before.subrange(
            addr + data@.len(),
            before.len() as int,
        ));
    }

    /// Reads the little-endian 32-bit word at `addr`.
    pub fn read_u32(&self, addr: u32) -> (r: u32)
        requires
            self.wf(),
            addr as int + 4 <= self.top(),
        ensures
            le_bytes(r) == self.contents().subrange(addr as int, addr as int + 4),
    {
        let a = addr as usize;
        let b0 = self.bytes[a];
        let b1 = self.bytes[a + 1];
        let b2 = self.bytes[a + 2];
        let b3 = self.bytes[a + 3];
        let r: u32 = (b0 as u32) | ((b1 as u32) << 8u32) | ((b2 as u32) << 16u32) | ((b3 as u32)
            << 24u32);
        assert(r as u8 == b0 && (r >> 8u32) as u8 == b1 && (r >> 16u32) as u8 == b2 && (r
            >> 24u32) as u8 == b3) by (bit_vector)
            requires
                r == (b0 as u32) | ((b1 as u32) << 8u32) | ((b2 as u32) << 16u32) | ((b3 as u32)
                    << 24u32),
        ;
        assert(le_bytes(r) =~= self.bytes@.subrange(addr as int, addr as int + 4));
        r
    }

    /// Writes `v` as a little-endian 32-bit word at `addr`.
    pub fn write_u32(&mut self, addr: u32, v: u32)
        requires
            old(self).wf(),
            addr as int + 4 <= old(self).top(),
        ensures
            final(self).wf(),
            old(self).written(addr as int, le_bytes(v), *final(self)),
    {
        let word: [u8; 4] = [v as u8, (v >> 8u32) as u8, (v >> 16u32) as u8, (v >> 24u32) as u8];
        assert(word@ =~= le_bytes(v));
        self.write(addr, &word);
    }
}

/// Reserves `size` bytes and returns their base address, or 0 where the memory cannot grow
/// by that much (the memory is then left as it was). The new bytes are zero. A size must fit
/// in the guest's `isize`.
pub fn allocate(mem: &mut GuestMemory, size: u32) -> (addr: u32)
    requires
        old(mem).wf(),
        size <= 0x7fff_ffff,
    ensures
        final(mem).wf(),
        addr == 0 <==> old(mem).top() + span(size as int) > MEMORY_LIMIT,
        addr == 0 ==> *final(mem) == *old(mem),
        addr != 0 ==> old(mem).allocated(size as int, addr as int, *final(mem)),
{
    let top = mem.bytes.len();
    let need: u32 = if size == 0 {
        1
    } else {
        size
    };
    if need > MEMORY_LIMIT || top as u32 > MEMORY_LIMIT - need {
        return 0;
    }
    let ghost before = mem.bytes@;
    let mut i: u32 = 0;
    while i < need
        invariant
            i <= need,
            mem.bytes@ == before + Seq::new(i as nat, |k: int| 0u8),
            mem.live@ == old(mem).live@,
        decreases need - i,
    {
        mem.bytes.push(0u8);
        i = i + 1;
        assert(mem.bytes@ =~= before + Seq::new(i as nat, |k: int| 0u8));
    }
    let addr = top as u32;
    proof {
        assert(addr as int == old(mem).top());
        assert forall|a: int| #[trigger] old(mem).live().contains_key(a) implies a + span(
            old(mem).live()[a],
        ) <= addr by {}
        mem.live@ = mem.live@.insert(addr as int, size as int);
        assert(span(size as int) == need as int);
        assert(mem.top() == old(mem).top() + need && mem.top() <= MEMORY_LIMIT);
        assert forall|a: int| #[trigger] mem.live().contains_key(a) implies HEAP_BASE <= a && 0
            <= mem.live()[a] && a + span(mem.live()[a]) <= mem.top() by {
            if a != addr {
                assert(old(mem).live().contains_key(a));
            }
        }
        assert forall|a: int, b: int|
            #![trigger mem.live().contains_key(a), mem.live().contains_key(b)]
            mem.live().contains_key(a) && mem.live().contains_key(b) && a != b implies disjoint(
                a,
                mem.live()[a],
                b,
                mem.live()[b],
            ) by {
            if a != addr && b != addr {
                assert(old(mem).live().contains_key(a) && old(mem).live().contains_key(b));
            } else if a == addr {
                assert(old(mem).live().contains_key(b));
            } else {
                assert(old(mem).live().contains_key(a));
            }
        }
    }
    addr
}

/// Releases the allocation of `size` bytes at `addr`; `size` must be the one it was
/// allocated with. The topmost allocation gives its bytes back to the memory.
pub fn dealloc(mem: &mut GuestMemory, addr: u32, size: u32)
    requires
        old(mem).wf(),
        old(mem).live().contains_key(addr as int),
        old(mem).live()[addr as int] == size as int,
    ensures
        final(mem).wf(),
        old(mem).released(addr as int, size as int, *final(mem)),
{
    let need: u32 = if size == 0 {
        1
    } else {
        size
    };
    proof {
        mem.live@ = mem.live@.remove(addr as int);
    }
    if addr as usize + need as usize == mem.bytes.len() {
        mem.bytes.truncate(addr as usize);
        assert forall|a: int| #[trigger] mem.live@.contains_key(a) implies a + span(mem.live@[a])
            <= addr by {
            assert(old(mem).live().contains_key(a) && a != addr);
        }
    }
}

/// Live allocations never overlap: the regions of two distinct live allocations share no
/// byte.
pub proof fn lemma_live_regions_disjoint(m: GuestMemory, a: int, b: int)
    requires
        m.wf(),
        m.live().contains_key(a),
        m.live().contains_key(b),
        a != b,
    ensures
        disjoint(a, m.live()[a], b, m.live()[b]),
{
}

/// Allocating zero bytes and at once releasing them leaves the memory exactly as it was, so
/// later allocations see no trace of it.
pub proof fn lemma_empty_alloc_release(m0: GuestMemory, addr: int, m1: GuestMemory, m2: GuestMemory)
    requires
        m0.wf(),
        m0.allocated(0, addr, m1),
        m1.released(addr, 0, m2),
    ensures
        m2.contents() == m0.contents(),
        m2.live() == m0.live(),
{
    assert(!m0.live().contains_key(addr));
    assert(m2.contents() =~= m0.contents());
    assert(m2.live() =~= m0.live());
}

} // verus!
