use vstd::prelude::*;

verus! {

/// Flags of the allocate-memory tag.
pub const MEM_FLAG_DISCARDABLE: u32 = 1;
pub const MEM_FLAG_NORMAL: u32 = 0;
pub const MEM_FLAG_DIRECT: u32 = 4;
pub const MEM_FLAG_COHERENT: u32 = 8;
pub const MEM_FLAG_L1_NONALLOCATING: u32 = MEM_FLAG_DIRECT | MEM_FLAG_COHERENT;
pub const MEM_FLAG_ZERO: u32 = 16;
pub const MEM_FLAG_NO_INIT: u32 = 32;
pub const MEM_FLAG_HINT_PERMALOCK: u32 = 64;

/// The code of a request buffer.
pub const MAILBOX_PROCESS_REQUEST: u32 = 0;
/// Tags of the memory calls of the firmware's property interface.
pub const TAG_ALLOCATE_MEMORY: u32 = 0x3000c;
pub const TAG_LOCK_MEMORY: u32 = 0x3000d;
pub const TAG_UNLOCK_MEMORY: u32 = 0x3000e;
pub const TAG_RELEASE_MEMORY: u32 = 0x3000f;
/// The word of a buffer where the firmware writes the tag's first result.
pub const MAILBOX_VALUE_INDEX: usize = 5;

/// The allocate-memory request: total size in bytes, request code, tag,
/// value buffer size, request size, then size, alignment and flags, then
/// the end tag.
pub open spec fn allocate_request_spec(size: u32, align: u32, flags: u32) -> Seq<u32> {
    seq![36, MAILBOX_PROCESS_REQUEST, TAG_ALLOCATE_MEMORY, 12, 12, size, align, flags, 0]
}

/// A request whose tag takes one word, a memory handle.
pub open spec fn handle_request_spec(tag: u32, handle: u32) -> Seq<u32> {
    seq![28, MAILBOX_PROCESS_REQUEST, tag, 4, 4, handle, 0]
}

/// The first result word of a reply, where the reply holds one.
pub open spec fn reply_value_spec(reply: Seq<u32>) -> Option<u32> {
    if reply.len() > MAILBOX_VALUE_INDEX {
        Some(reply[MAILBOX_VALUE_INDEX as int])
    } else {
        None
    }
}

/// The request that allocates `size` bytes aligned to `align`.
pub fn allocate_request(size: u32, align: u32, flags: u32) -> (r: Vec<u32>)
    ensures
        r@ == allocate_request_spec(size, align, flags),
{
    let r = vec![36, MAILBOX_PROCESS_REQUEST, TAG_ALLOCATE_MEMORY, 12, 12, size, align, flags, 0];
    proof {
        assert(r@ =~= allocate_request_spec(size, align, flags));
    }
    r
}

fn handle_request(tag: u32, handle: u32) -> (r: Vec<u32>)
    ensures
        r@ == handle_request_spec(tag, handle),
{
    let r = vec![28, MAILBOX_PROCESS_REQUEST, tag, 4, 4, handle, 0];
    proof {
        assert(r@ =~= handle_request_spec(tag, handle));
    }
    r
}

/// The request that locks the memory of `handle` in place; the reply holds
/// its bus address.
pub fn lock_request(handle: u32) -> (r: Vec<u32>)
    ensures
        r@ == handle_request_spec(TAG_LOCK_MEMORY, handle),
{
    handle_request(TAG_LOCK_MEMORY, handle)
}

/// The request that unlocks the memory of `handle`.
pub fn unlock_request(handle: u32) -> (r: Vec<u32>)
    ensures
        r@ == handle_request_spec(TAG_UNLOCK_MEMORY, handle),
{
    handle_request(TAG_UNLOCK_MEMORY, handle)
}

/// The request that gives the memory of `handle` back to the firmware.
pub fn release_request(handle: u32) -> (r: Vec<u32>)
    ensures
        r@ == handle_request_spec(TAG_RELEASE_MEMORY, handle),
{
    handle_request(TAG_RELEASE_MEMORY, handle)
}

/// The first result word of a reply buffer.
pub fn reply_value(reply: &[u32]) -> (r: Option<u32>)
    ensures
        r == reply_value_spec(reply@),
{
    if reply.len() > MAILBOX_VALUE_INDEX {
        Some(reply[MAILBOX_VALUE_INDEX])
    } else {
        None
    }
}

} // verus!
