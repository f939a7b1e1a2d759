//! Host-visible linear storage: sizes, bounds and the bytes to upload.

use vstd::prelude::*;
use crate::device::{MEMORY_HOST_COHERENT, MEMORY_HOST_VISIBLE};

verus! {

/// Buffer usage bit: source of a transfer.
pub const USAGE_TRANSFER_SRC: u32 = 0x1;

/// Buffer usage bit: uniform buffer.
pub const USAGE_UNIFORM_BUFFER: u32 = 0x10;

/// Buffer usage bit: index buffer.
pub const USAGE_INDEX_BUFFER: u32 = 0x40;

/// Buffer usage bit: vertex buffer.
pub const USAGE_VERTEX_BUFFER: u32 = 0x80;

/// What a buffer and its memory are created with. The memory is mapped for
/// sequential host writes, and the buffer is used by one queue family.
#[derive(Clone, Copy, Debug, PartialEq, Eq, Structural)]
pub struct BufferRequest {
    /// Size in bytes.
    pub size: u64,
    pub usage: u32,
    /// Properties the memory must have: visible to the host, and coherent.
    pub memory_properties: u32,
}

#[derive(Clone, Copy, Debug, PartialEq, Eq, Structural)]
pub enum BufferError {
    /// There is nothing to store, or an element has no size.
    Empty,
    /// The bytes are not a whole number of elements.
    PartialElement,
    /// The bytes do not fit the allocation.
    TooLarge,
}

/// A buffer, its allocation and the bytes last written to its memory.
#[derive(Clone, Debug)]
pub struct Buffer {
    vk_buffer: u64,
    allocation: u64,
    allocation_size: u64,
    len: usize,
    bytes: Vec<u8>,
}

/// `data` written over the start of `memory`; what lies behind it stays.
pub open spec fn written_over(memory: Seq<u8>, data: Seq<u8>) -> Seq<u8> {
    if data.len() >= memory.len() {
        data
    } else {
        data + memory.subrange(data.len() as int, memory.len() as int)
    }
}

/// Copies a slice into a vector.
fn copy_bytes(data: &[u8]) -> (r: Vec<u8>)
    ensures
        r@ == data@,
{
    let mut out: Vec<u8> = Vec::new();
    let mut i: usize = 0;
    while i < data.len()
        invariant
            i <= data.len(),
            out@ == data@.subrange(0, i as int),
        decreases data.len() - i,
    {
        out.push(data[i]);
        i += 1;
    }
    assert(data@.subrange(0, data@.len() as int) == data@);
    out
}

impl Buffer {
    /// The bytes that the mapped memory holds from its start.
    pub closed spec fn mapped(&self) -> Seq<u8> {
        self.bytes@
    }

    /// Number of elements the buffer was created with.
    pub closed spec fn count(&self) -> nat {
        self.len as nat
    }

    /// The buffer's handle.
    pub closed spec fn handle(&self) -> u64 {
        self.vk_buffer
    }

    /// The handle of the memory allocation.
    pub closed spec fn memory(&self) -> u64 {
        self.allocation
    }

    /// Size of the allocation in bytes.
    pub closed spec fn capacity(&self) -> u64 {
        self.allocation_size
    }

    /// What was written fits the allocation.
    pub closed spec fn wf(&self) -> bool {
        self.bytes@.len() <= self.allocation_size
    }

    /// What a buffer for `byte_len` bytes is created with: exactly that size,
    /// in memory that the host can map and need not flush. `None` for no
    /// bytes: a buffer cannot be empty.
    pub fn request(byte_len: usize, usage: u32) -> (r: Option<BufferRequest>)
        ensures
            r == if byte_len == 0 {
                None
            } else {
                Some(
                    BufferRequest {
                        size: byte_len as u64,
                        usage,
                        memory_properties: MEMORY_HOST_VISIBLE | MEMORY_HOST_COHERENT,
                    },
                )
            },
    {
        if byte_len == 0 {
            None
        } else {
            Some(
                BufferRequest {
                    size: byte_len as u64,
                    usage,
                    memory_properties: MEMORY_HOST_VISIBLE | MEMORY_HOST_COHERENT,
                },
            )
        }
    }

    /// The buffer over an allocation of `allocation_size` bytes, with `data`
    /// uploaded: reading the memory back gives `data` byte for byte. `data`
    /// holds elements of `element_size` bytes each.
    pub fn new(
        data: &[u8],
        element_size: usize,
        vk_buffer: u64,
        allocation: u64,
        allocation_size: u64,
    ) -> (r: Result<Buffer, BufferError>)
        ensures
            r is Ok <==> element_size > 0 && data@.len() > 0 && data@.len() % (element_size as nat)
                == 0 && data@.len() <= allocation_size,
            r matches Ok(buffer) ==> {
                &&& buffer.wf()
                &&& buffer.mapped() == data@
                &&& buffer.count() == data@.len() / (element_size as nat)
                &&& buffer.handle() == vk_buffer
                &&& buffer.memory() == allocation
                &&& buffer.capacity() == allocation_size
            },
            r matches Err(e) ==> e == if element_size == 0 || data@.len() == 0 {
                BufferError::Empty
            } else if data@.len() % (element_size as nat) != 0 {
                BufferError::PartialElement
            } else {
                BufferError::TooLarge
            },
    {
        if element_size == 0 || data.len() == 0 {
            return Err(BufferError::Empty);
        }
        if data.len() % element_size != 0 {
            return Err(BufferError::PartialElement);
        }
        if data.len() as u64 > allocation_size {
            return Err(BufferError::TooLarge);
        }
        let mut buffer = Buffer {
            vk_buffer,
            allocation,
            allocation_size,
            len: data.len() / element_size,
            bytes: Vec::new(),
        };
        let uploaded = buffer.set_data(data);
        assert(uploaded is Ok);
        Ok(buffer)
    }

    /// Number of elements the buffer was created with.
    pub fn len(&self) -> (r: usize)
        ensures
            r == self.count(),
    {
        self.len
    }

    pub fn vk_buffer(&self) -> (r: u64)
        ensures
            r == self.handle(),
    {
        self.vk_buffer
    }

    /// The handle of the memory allocation.
    pub fn allocation(&self) -> (r: u64)
        ensures
            r == self.memory(),
    {
        self.allocation
    }

    /// The bytes to be found in the mapped memory, from its start.
    pub fn bytes(&self) -> (r: &Vec<u8>)
        ensures
            r@ == self.mapped(),
    {
        &self.bytes
    }

    /// Writes `data` to the start of the memory. Bytes behind it stay as they
    /// were; the element count does not change. Data larger than the
    /// allocation is refused and nothing is written. Nothing here waits for
    /// the device: the caller sees to it that no submission still reads the
    /// buffer.
    pub fn set_data(&mut self, data: &[u8]) -> (r: Result<(), BufferError>)
        requires
            old(self).wf(),
        ensures
            final(self).wf(),
            r is Ok <==> data@.len() <= old(self).capacity(),
            r is Ok ==> final(self).mapped() == written_over(old(self).mapped(), data@),
            r matches Err(e) ==> e == BufferError::TooLarge && final(self).mapped() == old(
                self,
            ).mapped(),
            final(self).count() == old(self).count(),
            final(self).handle() == old(self).handle(),
            final(self).memory() == old(self).memory(),
            final(self).capacity() == old(self).capacity(),
    {
        if data.len() as u64 > self.allocation_size {
            return Err(BufferError::TooLarge);
        }
        let mut written: Vec<u8> = copy_bytes(data);
        let mut i: usize = data.len();
        while i < self.bytes.len()
            invariant
                data@.len() <= i,
                i == data@.len() || i <= self.bytes@.len(),
                *self == *old(self),
                i <= self.bytes@.len() ==> written@ == data@ + self.bytes@.subrange(
                    data@.len() as int,
                    i as int,
                ),
                i > self.bytes@.len() ==> written@ == data@,
            decreases self.bytes.len() - i,
        {
            written.push(self.bytes[i]);
            i += 1;
        }
        assert(written@ =~= written_over(self.bytes@, data@));
        self.bytes = written;
        Ok(())
    }
}

} // verus!
