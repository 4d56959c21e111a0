//! Memory barriers.
//!
//! Barrier flags are sets of independent visibility requirements: which
//! categories of prior writes must be visible to which categories of
//! subsequent reads. A barrier request is translated into at most two
//! context calls by [`memory_barrier_plan`].

use vstd::prelude::*;

verus! {

/// Memory barrier flags.
#[derive(Debug, Copy, Clone, PartialEq, Eq, Structural)]
pub struct Barrier {
    /// Read access to a vertex buffer, used in drawing commands.
    pub vertex_attribute_read: bool,
    /// Read access to an index buffer, used in indexed drawing commands.
    pub index_read: bool,
    /// Read access to a uniform buffer.
    pub uniform_read: bool,
    /// Read access to a sampled image.
    pub sampled_image_read: bool,
    /// Read/write access to a storage image.
    pub storage_image_rw: bool,
    /// Read access to an indirect command buffer.
    pub indirect_command_read: bool,
    /// Read/write access to a buffer in transfers to or from images or
    /// attachments.
    pub buffer_image_transfer_rw: bool,
    /// Read/write access to an image in a transfer operation.
    pub image_transfer_rw: bool,
    /// Read/write access to a buffer in transfer and mapping operations.
    pub buffer_transfer_rw: bool,
    /// Read/write access to framebuffer attachments.
    pub framebuffer_rw: bool,
    /// Write access of a transform feedback operation.
    pub transform_feedback_write: bool,
    /// Read/write access to atomic counters.
    pub atomic_counter_rw: bool,
    /// Read/write access to storage buffers.
    pub storage_buffer_rw: bool,
    /// Read/write access of fragments to texels of an image bound to the
    /// current framebuffer; ordered by a dedicated texture barrier rather
    /// than by the general memory barrier.
    pub input_attachment_read: bool,
}

impl Barrier {
    /// No visibility requirement.
    pub fn empty() -> (r: Barrier)
        ensures
            r == spec_barrier_empty(),
    {
        Barrier {
            vertex_attribute_read: false,
            index_read: false,
            uniform_read: false,
            sampled_image_read: false,
            storage_image_rw: false,
            indirect_command_read: false,
            buffer_image_transfer_rw: false,
            image_transfer_rw: false,
            buffer_transfer_rw: false,
            framebuffer_rw: false,
            transform_feedback_write: false,
            atomic_counter_rw: false,
            storage_buffer_rw: false,
            input_attachment_read: false,
        }
    }

    /// Every visibility requirement.
    pub fn all() -> (r: Barrier)
        ensures
            r == spec_barrier_all(),
    {
        Barrier {
            vertex_attribute_read: true,
            index_read: true,
            uniform_read: true,
            sampled_image_read: true,
            storage_image_rw: true,
            indirect_command_read: true,
            buffer_image_transfer_rw: true,
            image_transfer_rw: true,
            buffer_transfer_rw: true,
            framebuffer_rw: true,
            transform_feedback_write: true,
            atomic_counter_rw: true,
            storage_buffer_rw: true,
            input_attachment_read: true,
        }
    }

    /// Whether the set, after taking out the input-attachment requirement,
    /// is empty.
    pub open spec fn spec_rest_is_empty(self) -> bool {
        &&& !self.vertex_attribute_read
        &&& !self.index_read
        &&& !self.uniform_read
        &&& !self.sampled_image_read
        &&& !self.storage_image_rw
        &&& !self.indirect_command_read
        &&& !self.buffer_image_transfer_rw
        &&& !self.image_transfer_rw
        &&& !self.buffer_transfer_rw
        &&& !self.framebuffer_rw
        &&& !self.transform_feedback_write
        &&& !self.atomic_counter_rw
        &&& !self.storage_buffer_rw
    }

    /// The context's bit mask for the requirements of this set, leaving out
    /// the input-attachment requirement, which a dedicated texture barrier
    /// orders instead.
    pub open spec fn spec_mask(self) -> u32 {
        (if self.vertex_attribute_read {
            0x0001u32
        } else {
            0u32
        }) | (if self.index_read {
            0x0002u32
        } else {
            0u32
        }) | (if self.uniform_read {
            0x0004u32
        } else {
            0u32
        }) | (if self.sampled_image_read {
            0x0008u32
        } else {
            0u32
        }) | (if self.storage_image_rw {
            0x0020u32
        } else {
            0u32
        }) | (if self.indirect_command_read {
            0x0040u32
        } else {
            0u32
        }) | (if self.buffer_image_transfer_rw {
            0x0080u32
        } else {
            0u32
        }) | (if self.image_transfer_rw {
            0x0100u32
        } else {
            0u32
        }) | (if self.buffer_transfer_rw {
            0x0200u32
        } else {
            0u32
        }) | (if self.framebuffer_rw {
            0x0400u32
        } else {
            0u32
        }) | (if self.transform_feedback_write {
            0x0800u32
        } else {
            0u32
        }) | (if self.atomic_counter_rw {
            0x1000u32
        } else {
            0u32
        }) | (if self.storage_buffer_rw {
            0x2000u32
        } else {
            0u32
        })
    }
}

/// The empty barrier set.
pub open spec fn spec_barrier_empty() -> Barrier {
    Barrier {
        vertex_attribute_read: false,
        index_read: false,
        uniform_read: false,
        sampled_image_read: false,
        storage_image_rw: false,
        indirect_command_read: false,
        buffer_image_transfer_rw: false,
        image_transfer_rw: false,
        buffer_transfer_rw: false,
        framebuffer_rw: false,
        transform_feedback_write: false,
        atomic_counter_rw: false,
        storage_buffer_rw: false,
        input_attachment_read: false,
    }
}

/// The full barrier set.
pub open spec fn spec_barrier_all() -> Barrier {
    Barrier {
        vertex_attribute_read: true,
        index_read: true,
        uniform_read: true,
        sampled_image_read: true,
        storage_image_rw: true,
        indirect_command_read: true,
        buffer_image_transfer_rw: true,
        image_transfer_rw: true,
        buffer_transfer_rw: true,
        framebuffer_rw: true,
        transform_feedback_write: true,
        atomic_counter_rw: true,
        storage_buffer_rw: true,
        input_attachment_read: true,
    }
}

/// The calls a memory barrier request translates to: possibly a texture
/// barrier, and possibly one general memory barrier with a bit mask.
#[derive(Debug, Copy, Clone, PartialEq, Eq)]
pub struct MemoryBarrierPlan {
    /// Issue the dedicated texture barrier first.
    pub texture_barrier: bool,
    /// Issue the general memory barrier with this mask; `None` when no
    /// requirement is left after taking out the input-attachment one.
    pub memory_barrier_mask: Option<u32>,
}

/// Translate a barrier request into its calls: the input-attachment
/// requirement becomes a dedicated texture barrier; whatever remains
/// becomes one general memory barrier, and none is issued for an empty
/// remainder.
pub fn memory_barrier_plan(flags: Barrier) -> (r: MemoryBarrierPlan)
    ensures
        r.texture_barrier == flags.input_attachment_read,
        flags.spec_rest_is_empty() ==> r.memory_barrier_mask is None,
        !flags.spec_rest_is_empty() ==> r.memory_barrier_mask == Some(flags.spec_mask()),
{
    let texture_barrier = flags.input_attachment_read;
    let rest_empty = !flags.vertex_attribute_read && !flags.index_read && !flags.uniform_read
        && !flags.sampled_image_read && !flags.storage_image_rw && !flags.indirect_command_read
        && !flags.buffer_image_transfer_rw && !flags.image_transfer_rw
        && !flags.buffer_transfer_rw && !flags.framebuffer_rw && !flags.transform_feedback_write
        && !flags.atomic_counter_rw && !flags.storage_buffer_rw;
    if rest_empty {
        MemoryBarrierPlan { texture_barrier, memory_barrier_mask: None }
    } else {
        MemoryBarrierPlan { texture_barrier, memory_barrier_mask: Some(flags.mask()) }
    }
}

impl Barrier {
    /// Compute the context's bit mask for this barrier set, leaving out the
    /// input-attachment requirement.
    pub fn mask(self) -> (r: u32)
        ensures
            r == self.spec_mask(),
    {
        barrier_mask_of(self)
    }
}

/// Compute the context's bit mask for a barrier set, leaving out the
/// input-attachment requirement.
fn barrier_mask_of(flags: Barrier) -> (r: u32)
    ensures
        r == flags.spec_mask(),
{
    (if flags.vertex_attribute_read {
        0x0001u32
    } else {
        0u32
    }) | (if flags.index_read {
        0x0002u32
    } else {
        0u32
    }) | (if flags.uniform_read {
        0x0004u32
    } else {
        0u32
    }) | (if flags.sampled_image_read {
        0x0008u32
    } else {
        0u32
    }) | (if flags.storage_image_rw {
        0x0020u32
    } else {
        0u32
    }) | (if flags.indirect_command_read {
        0x0040u32
    } else {
        0u32
    }) | (if flags.buffer_image_transfer_rw {
        0x0080u32
    } else {
        0u32
    }) | (if flags.image_transfer_rw {
        0x0100u32
    } else {
        0u32
    }) | (if flags.buffer_transfer_rw {
        0x0200u32
    } else {
        0u32
    }) | (if flags.framebuffer_rw {
        0x0400u32
    } else {
        0u32
    }) | (if flags.transform_feedback_write {
        0x0800u32
    } else {
        0u32
    }) | (if flags.atomic_counter_rw {
        0x1000u32
    } else {
        0u32
    }) | (if flags.storage_buffer_rw {
        0x2000u32
    } else {
        0u32
    })
}

/// Memory barrier flags for by-region dependencies.
#[derive(Debug, Copy, Clone, PartialEq, Eq, Structural)]
pub struct RegionBarrier {
    /// Read access to a uniform buffer.
    pub uniform_read: bool,
    /// Read access to a sampled image.
    pub sampled_image_read: bool,
    /// Read/write access to a storage image.
    pub storage_image_rw: bool,
    /// Read/write access to storage buffers.
    pub storage_buffer_rw: bool,
    /// Read/write access to framebuffer attachments.
    pub framebuffer_rw: bool,
    /// Read/write access to atomic counters.
    pub atomic_counter_rw: bool,
}

impl RegionBarrier {
    /// The context's bit mask for the requirements of this set.
    pub open spec fn spec_mask(self) -> u32 {
        (if self.uniform_read {
            0x0004u32
        } else {
            0u32
        }) | (if self.sampled_image_read {
            0x0008u32
        } else {
            0u32
        }) | (if self.storage_image_rw {
            0x0020u32
        } else {
            0u32
        }) | (if self.framebuffer_rw {
            0x0400u32
        } else {
            0u32
        }) | (if self.atomic_counter_rw {
            0x1000u32
        } else {
            0u32
        }) | (if self.storage_buffer_rw {
            0x2000u32
        } else {
            0u32
        })
    }

    /// Compute the context's bit mask for a by-region barrier set.
    pub fn mask(self) -> (r: u32)
        ensures
            r == self.spec_mask(),
    {
        (if self.uniform_read {
            0x0004u32
        } else {
            0u32
        }) | (if self.sampled_image_read {
            0x0008u32
        } else {
            0u32
        }) | (if self.storage_image_rw {
            0x0020u32
        } else {
            0u32
        }) | (if self.framebuffer_rw {
            0x0400u32
        } else {
            0u32
        }) | (if self.atomic_counter_rw {
            0x1000u32
        } else {
            0u32
        }) | (if self.storage_buffer_rw {
            0x2000u32
        } else {
            0u32
        })
    }
}

} // verus!
