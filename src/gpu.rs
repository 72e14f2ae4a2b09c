use vstd::prelude::*;

use crate::mailbox::{
    allocate_request, allocate_request_spec, handle_request_spec, lock_request, release_request,
    reply_value, reply_value_spec, unlock_request, MEM_FLAG_DIRECT, MEM_FLAG_ZERO,
    TAG_LOCK_MEMORY, TAG_RELEASE_MEMORY, TAG_UNLOCK_MEMORY,
};
use crate::mem::MemMap;
use crate::platform::PAGE_SIZE;

verus! {

/// The high bits by which the bus address of GPU memory differs from its
/// physical address.
pub const GPU_BUS_ALIAS: u32 = 0xC000_0000;

/// The flags of every allocation: zeroed, and not cached.
pub const GPU_MEM_FLAGS: u32 = MEM_FLAG_DIRECT | MEM_FLAG_ZERO;

/// `size` rounded up to a whole number of pages.
pub open spec fn page_round(size: nat) -> nat {
    if size % (PAGE_SIZE as nat) == 0 {
        size
    } else {
        (size - size % (PAGE_SIZE as nat) + PAGE_SIZE) as nat
    }
}

/// The physical address of GPU memory at bus address `bus`.
pub open spec fn bus_to_phys(bus: u32) -> u32 {
    bus & !GPU_BUS_ALIAS
}

/// The rounded size is the smallest multiple of the page size that is at
/// least `size`.
pub proof fn lemma_page_round(size: nat, m: nat)
    ensures
        page_round(size) % (PAGE_SIZE as nat) == 0,
        page_round(size) >= size,
        page_round(size) < size + PAGE_SIZE,
        m % (PAGE_SIZE as nat) == 0 && m >= size ==> m >= page_round(size),
{
    let p = PAGE_SIZE as int;
    let s = size as int;
    let q = s / p;
    assert(s == q * p + s % p) by (nonlinear_arith)
        requires
            p > 0,
            q == s / p,
    ;
    if s % p != 0 {
        assert(page_round(size) == (q + 1) * p) by (nonlinear_arith)
            requires
                page_round(size) == s - s % p + p,
                s == q * p + s % p,
        ;
        assert(((q + 1) * p) % p == 0) by (nonlinear_arith)
            requires
                p > 0,
        ;
        if m % (PAGE_SIZE as nat) == 0 && m >= size {
            let k = m as int / p;
            assert(m == k * p) by (nonlinear_arith)
                requires
                    p > 0,
                    k == m as int / p,
                    m as int % p == 0,
            ;
            assert(k > q) by (nonlinear_arith)
                requires
                    m == k * p,
                    m >= s,
                    s == q * p + s % p,
                    0 < s % p < p,
            ;
            assert(m >= (q + 1) * p) by (nonlinear_arith)
                requires
                    m == k * p,
                    k >= q + 1,
                    p > 0,
            ;
        }
    }
}

/// First step of an allocation: asking the firmware for memory.
pub struct Allocating {
    size: u32,
}

/// Second step: locking the memory, which gives its bus address.
pub struct Locking {
    size: u32,
    handle: u32,
}

/// Third step: mapping the memory into this process.
pub struct Mapping {
    size: u32,
    handle: u32,
    bus: u32,
}

/// GPU memory that is allocated, locked, and mapped into this process.
pub struct GpuMem {
    handle: u32,
    size: usize,
    memmap: MemMap,
}

/// One step of giving GPU memory back.
pub enum Release {
    /// Remove the mapping of `size` bytes at `virt` from this process.
    Unmap { virt: usize, size: usize },
    /// Send this request through the mailbox.
    Send(Vec<u32>),
}

impl Allocating {
    #[verifier::type_invariant]
    spec fn inv(self) -> bool {
        self.size as nat % (PAGE_SIZE as nat) == 0
    }

    pub closed spec fn spec_size(&self) -> nat {
        self.size as nat
    }

    /// The byte size asked for, a whole number of pages.
    pub fn size(&self) -> (r: usize)
        ensures
            r == self.spec_size(),
            r % PAGE_SIZE == 0,
    {
        proof {
            use_type_invariant(self);
        }
        self.size as usize
    }

    /// The allocate-memory request.
    pub fn request(&self) -> (r: Vec<u32>)
        ensures
            r@ == allocate_request_spec(
                self.spec_size() as u32,
                PAGE_SIZE as u32,
                GPU_MEM_FLAGS,
            ),
    {
        allocate_request(self.size, PAGE_SIZE as u32, GPU_MEM_FLAGS)
    }

    /// Takes the memory handle from the firmware's reply.
    pub fn allocated(self, reply: &[u32]) -> (r: Option<Locking>)
        ensures
            r is Some <==> reply_value_spec(reply@) is Some,
            r matches Some(l) ==> l.spec_size() == self.spec_size() && l.spec_handle()
                == reply_value_spec(reply@)->0,
    {
        proof {
            use_type_invariant(&self);
        }
        match reply_value(reply) {
            Some(handle) => Some(Locking { size: self.size, handle }),
            None => None,
        }
    }
}

impl Locking {
    #[verifier::type_invariant]
    spec fn inv(self) -> bool {
        self.size as nat % (PAGE_SIZE as nat) == 0
    }

    pub closed spec fn spec_size(&self) -> nat {
        self.size as nat
    }

    pub closed spec fn spec_handle(&self) -> u32 {
        self.handle
    }

    /// The lock-memory request.
    pub fn request(&self) -> (r: Vec<u32>)
        ensures
            r@ == handle_request_spec(TAG_LOCK_MEMORY, self.spec_handle()),
    {
        lock_request(self.handle)
    }

    /// Takes the bus address from the firmware's reply.
    pub fn locked(self, reply: &[u32]) -> (r: Option<Mapping>)
        ensures
            r is Some <==> reply_value_spec(reply@) is Some,
            r matches Some(m) ==> m.spec_size() == self.spec_size() && m.spec_handle()
                == self.spec_handle() && m.spec_bus() == reply_value_spec(reply@)->0,
    {
        proof {
            use_type_invariant(&self);
        }
        match reply_value(reply) {
            Some(bus) => Some(Mapping { size: self.size, handle: self.handle, bus }),
            None => None,
        }
    }
}

impl Mapping {
    #[verifier::type_invariant]
    spec fn inv(self) -> bool {
        self.size as nat % (PAGE_SIZE as nat) == 0
    }

    pub closed spec fn spec_size(&self) -> nat {
        self.size as nat
    }

    pub closed spec fn spec_handle(&self) -> u32 {
        self.handle
    }

    pub closed spec fn spec_bus(&self) -> u32 {
        self.bus
    }

    /// The byte size to map.
    pub fn size(&self) -> (r: usize)
        ensures
            r == self.spec_size(),
    {
        self.size as usize
    }

    /// The physical address to map.
    pub fn phys(&self) -> (r: usize)
        ensures
            r == bus_to_phys(self.spec_bus()),
    {
        (self.bus & !GPU_BUS_ALIAS) as usize
    }

    /// The memory, once mapped at `virt`.
    pub fn mapped(self, virt: usize) -> (r: GpuMem)
        ensures
            r.spec_handle() == self.spec_handle(),
            r.spec_size() == self.spec_size(),
            r.spec_memmap() == (MemMap {
                bus: self.spec_bus() as usize,
                phys: bus_to_phys(self.spec_bus()) as usize,
                virt,
            }),
    {
        proof {
            use_type_invariant(&self);
        }
        GpuMem {
            handle: self.handle,
            size: self.size as usize,
            memmap: MemMap { bus: self.bus as usize, phys: self.phys(), virt },
        }
    }
}

impl GpuMem {
    #[verifier::type_invariant]
    spec fn inv(self) -> bool {
        self.size % PAGE_SIZE == 0 && self.size <= u32::MAX
    }

    pub closed spec fn spec_handle(&self) -> u32 {
        self.handle
    }

    pub closed spec fn spec_size(&self) -> nat {
        self.size as nat
    }

    pub closed spec fn spec_memmap(&self) -> MemMap {
        self.memmap
    }

    /// Starts allocating at least `size` bytes of GPU memory: the size asked
    /// for is `size` rounded up to whole pages.
    pub fn allocate(size: usize) -> (r: Allocating)
        requires
            page_round(size as nat) <= u32::MAX,
        ensures
            r.spec_size() == page_round(size as nat),
    {
        let rem = size % PAGE_SIZE;
        let rounded = if rem == 0 {
            size
        } else {
            size - rem + PAGE_SIZE
        };
        proof {
            lemma_page_round(size as nat, 0);
        }
        Allocating { size: rounded as u32 }
    }

    /// The firmware's handle of the memory.
    pub fn handle(&self) -> (r: u32)
        ensures
            r == self.spec_handle(),
    {
        self.handle
    }

    /// The byte size, a whole number of pages.
    pub fn size(&self) -> (r: usize)
        ensures
            r == self.spec_size(),
            r % PAGE_SIZE == 0,
            r <= u32::MAX,
    {
        proof {
            use_type_invariant(self);
        }
        self.size
    }

    /// The memory's addresses.
    pub fn memmap(&self) -> (r: MemMap)
        ensures
            r == self.spec_memmap(),
    {
        self.memmap
    }

    /// How to give the memory back, in this order: unmap it, unlock it,
    /// release it.
    pub fn release(&self) -> (r: Vec<Release>)
        ensures
            r.len() == 3,
            r[0] == (Release::Unmap { virt: self.spec_memmap().virt, size: self.spec_size() as usize }),
            r[1] matches Release::Send(m) && m@ == handle_request_spec(
                TAG_UNLOCK_MEMORY,
                self.spec_handle(),
            ),
            r[2] matches Release::Send(m) && m@ == handle_request_spec(
                TAG_RELEASE_MEMORY,
                self.spec_handle(),
            ),
    {
        let mut r = Vec::new();
        r.push(Release::Unmap { virt: self.memmap.virt, size: self.size });
        r.push(Release::Send(unlock_request(self.handle)));
        r.push(Release::Send(release_request(self.handle)));
        r
    }
}

} // verus!
