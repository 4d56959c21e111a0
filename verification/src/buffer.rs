//! Buffers and the memory / mapping flag translation.
//!
//! Abstract memory intent ([`MemoryFlags`]) is translated into the concrete
//! storage-creation flags of the context ([`BufferStorageFlags`]), and a
//! mapping request ([`MappingFlags`]) into the concrete access flags
//! ([`MapAccessFlags`]), capped by what the buffer was created to allow.

use vstd::prelude::*;

use crate::debug::Object;
use crate::debug::ObjectType;

verus! {

/// Memory property flags: independent capabilities requested at buffer
/// creation. Flags are freely combinable; [`to_creation_flags`] translates a
/// set of them into the storage-creation flags of the context.
#[derive(Debug, Copy, Clone, PartialEq, Eq, Structural)]
pub struct MemoryFlags {
    /// Device local memory on the GPU.
    pub device_local: bool,
    /// CPU-GPU coherent.
    pub coherent: bool,
    /// CPU can read from mapped memory.
    pub cpu_map_read: bool,
    /// CPU can write to mapped memory.
    pub cpu_map_write: bool,
    /// Required for copies to the buffer from host memory.
    pub dynamic: bool,
}

impl MemoryFlags {
    /// The empty set of capabilities.
    pub fn empty() -> (r: MemoryFlags)
        ensures
            r == (MemoryFlags {
                device_local: false,
                coherent: false,
                cpu_map_read: false,
                cpu_map_write: false,
                dynamic: false,
            }),
    {
        MemoryFlags {
            device_local: false,
            coherent: false,
            cpu_map_read: false,
            cpu_map_write: false,
            dynamic: false,
        }
    }

    /// The union of two capability sets.
    pub open spec fn spec_union(self, other: MemoryFlags) -> MemoryFlags {
        MemoryFlags {
            device_local: self.device_local || other.device_local,
            coherent: self.coherent || other.coherent,
            cpu_map_read: self.cpu_map_read || other.cpu_map_read,
            cpu_map_write: self.cpu_map_write || other.cpu_map_write,
            dynamic: self.dynamic || other.dynamic,
        }
    }

    /// Combine two capability sets.
    pub fn union(self, other: MemoryFlags) -> (r: MemoryFlags)
        ensures
            r == self.spec_union(other),
    {
        MemoryFlags {
            device_local: self.device_local || other.device_local,
            coherent: self.coherent || other.coherent,
            cpu_map_read: self.cpu_map_read || other.cpu_map_read,
            cpu_map_write: self.cpu_map_write || other.cpu_map_write,
            dynamic: self.dynamic || other.dynamic,
        }
    }

    /// Whether every capability of `other` is also in `self`.
    pub open spec fn spec_contains(self, other: MemoryFlags) -> bool {
        &&& other.device_local ==> self.device_local
        &&& other.coherent ==> self.coherent
        &&& other.cpu_map_read ==> self.cpu_map_read
        &&& other.cpu_map_write ==> self.cpu_map_write
        &&& other.dynamic ==> self.dynamic
    }

    /// Test whether every capability of `other` is also in `self`.
    pub fn contains(self, other: MemoryFlags) -> (r: bool)
        ensures
            r == self.spec_contains(other),
    {
        (!other.device_local || self.device_local) && (!other.coherent || self.coherent) && (
        !other.cpu_map_read
            || self.cpu_map_read) && (!other.cpu_map_write || self.cpu_map_write) && (
        !other.dynamic
            || self.dynamic)
    }
}

/// Memory mapping flags: how a caller intends to access a mapped range.
#[derive(Debug, Copy, Clone, PartialEq, Eq, Structural)]
pub struct MappingFlags {
    /// The driver won't synchronize memory access; the caller synchronizes
    /// manually via fences.
    pub unsynchronized: bool,
}

impl MappingFlags {
    /// No special mapping behavior.
    pub fn empty() -> (r: MappingFlags)
        ensures
            r == (MappingFlags { unsynchronized: false }),
    {
        MappingFlags { unsynchronized: false }
    }
}

/// Concrete storage-creation flags of the context, as computed from a set of
/// [`MemoryFlags`] when a buffer is created.
#[derive(Debug, Copy, Clone, PartialEq, Eq, Structural)]
pub struct BufferStorageFlags {
    /// Hint that the storage should live in client memory.
    pub client_storage: bool,
    /// Mapped ranges are coherent: writes become visible without a flush.
    pub map_coherent: bool,
    /// Mapped ranges stay valid across command submissions.
    pub map_persistent: bool,
    /// The buffer may be mapped for reading.
    pub map_read: bool,
    /// The buffer may be mapped for writing.
    pub map_write: bool,
    /// The buffer accepts direct sub-range updates from host memory.
    pub dynamic_storage: bool,
}

/// Concrete access flags for a mapping operation, as computed from the flags
/// a buffer was created with and the caller's [`MappingFlags`].
#[derive(Debug, Copy, Clone, PartialEq, Eq, Structural)]
pub struct MapAccessFlags {
    /// Access is unsynchronized; the caller fences manually.
    pub unsynchronized: bool,
    /// The mapping is coherent.
    pub coherent: bool,
    /// The mapping is persistent.
    pub persistent: bool,
    /// The mapping may be read.
    pub read: bool,
    /// The mapping may be written.
    pub write: bool,
}

/// The storage-creation flags implied by a set of memory property flags:
/// anything not device-local is hinted as client storage; coherence and
/// either mapping direction each imply a persistent mapping; dynamic updates
/// are independent of the mapping bits. Capabilities are additive.
pub open spec fn spec_to_creation_flags(memory: MemoryFlags) -> BufferStorageFlags {
    BufferStorageFlags {
        client_storage: !memory.device_local,
        map_coherent: memory.coherent,
        map_persistent: memory.coherent || memory.cpu_map_read || memory.cpu_map_write,
        map_read: memory.cpu_map_read,
        map_write: memory.cpu_map_write,
        dynamic_storage: memory.dynamic,
    }
}

/// Translate abstract memory property flags into the concrete
/// storage-creation flags passed to the context when allocating a buffer.
pub fn to_creation_flags(memory: MemoryFlags) -> (r: BufferStorageFlags)
    ensures
        r == spec_to_creation_flags(memory),
{
    BufferStorageFlags {
        client_storage: !memory.device_local,
        map_coherent: memory.coherent,
        map_persistent: memory.coherent || memory.cpu_map_read || memory.cpu_map_write,
        map_read: memory.cpu_map_read,
        map_write: memory.cpu_map_write,
        dynamic_storage: memory.dynamic,
    }
}

/// The access flags of a mapping operation: the unsynchronized bit comes from
/// the request alone; coherence, persistence and the two access directions
/// are capped by what the buffer was created with.
pub open spec fn spec_to_mapping_flags(
    stored: BufferStorageFlags,
    requested: MappingFlags,
) -> MapAccessFlags {
    MapAccessFlags {
        unsynchronized: requested.unsynchronized,
        coherent: stored.map_coherent,
        persistent: stored.map_persistent,
        read: stored.map_read,
        write: stored.map_write,
    }
}

/// Translate a mapping request into the concrete access flags for the
/// context, intersected with the flags the buffer was created with.
pub fn to_mapping_flags(stored: BufferStorageFlags, requested: MappingFlags) -> (r:
    MapAccessFlags)
    ensures
        r == spec_to_mapping_flags(stored, requested),
{
    MapAccessFlags {
        unsynchronized: requested.unsynchronized,
        coherent: stored.map_coherent,
        persistent: stored.map_persistent,
        read: stored.map_read,
        write: stored.map_write,
    }
}

/// Law (flag masking): for every combination of memory property flags and
/// mapping request, the computed access flags never allow reading unless the
/// buffer was created with the CPU-read capability, and never allow writing
/// unless it was created with the CPU-write capability.
pub proof fn lemma_mapping_access_capped(memory: MemoryFlags, requested: MappingFlags)
    ensures
        spec_to_mapping_flags(spec_to_creation_flags(memory), requested).read
            == memory.cpu_map_read,
        spec_to_mapping_flags(spec_to_creation_flags(memory), requested).write
            == memory.cpu_map_write,
{
}

/// Buffer handle together with the storage flags it was allocated with; the
/// flags are kept so that the legal access flags of a later mapping operation
/// can be computed.
#[derive(Debug, Clone, Copy, PartialEq, Eq, Structural)]
pub struct Buffer {
    /// Opaque name issued by the context.
    pub raw: u32,
    /// The storage-creation flags the buffer was allocated with.
    pub flags: BufferStorageFlags,
}

impl Buffer {
    /// Wrap a buffer name issued by the context, remembering its creation
    /// flags.
    pub fn new(raw: u32, flags: BufferStorageFlags) -> (r: Buffer)
        ensures
            r.raw == raw,
            r.flags == flags,
    {
        Buffer { raw, flags }
    }

    /// The access flags a mapping of this buffer receives for the given
    /// request.
    pub fn mapping_access(&self, requested: MappingFlags) -> (r: MapAccessFlags)
        ensures
            r == spec_to_mapping_flags(self.flags, requested),
    {
        to_mapping_flags(self.flags, requested)
    }
}

/// A subrange of a buffer resource.
#[derive(Debug, Clone, Copy, PartialEq, Eq, Structural)]
pub struct BufferRange {
    pub buffer: Buffer,
    pub offset: usize,
    pub size: usize,
}

impl Object for Buffer {
    /// Buffers label under the buffer namespace.
    fn object_type(&self) -> ObjectType {
        ObjectType::Buffer
    }

    fn handle(&self) -> u32 {
        self.raw
    }
}

} // verus!
