//! Framebuffers, renderbuffers and attachment references.

use vstd::prelude::*;

use crate::debug::Object;
use crate::debug::ObjectType;

use crate::image::ImageView;

verus! {

/// Attachment reference: a color slot, or one of the depth/stencil
/// attachment points.
#[derive(Copy, Clone, Debug, PartialEq, Eq, Structural)]
pub enum Attachment {
    /// Color attachment at the given slot.
    Color(usize),
    Depth,
    Stencil,
    DepthStencil,
}

/// The context's enumerator value for the first color attachment point;
/// the remaining color slots follow consecutively.
pub const COLOR_ATTACHMENT_BASE: u32 = 0x8CE0;

/// The context's enumerator value for the depth attachment point.
pub const DEPTH_ATTACHMENT_VALUE: u32 = 0x8D00;

/// The context's enumerator value for the stencil attachment point.
pub const STENCIL_ATTACHMENT_VALUE: u32 = 0x8D20;

/// The context's enumerator value for the combined depth-stencil
/// attachment point.
pub const DEPTH_STENCIL_ATTACHMENT_VALUE: u32 = 0x821A;

impl Attachment {
    /// The attachment-point value this reference addresses: color slots
    /// count up from the base color attachment point.
    pub open spec fn spec_target(self) -> u32 {
        match self {
            Attachment::Color(slot) => (COLOR_ATTACHMENT_BASE + slot) as u32,
            Attachment::Depth => DEPTH_ATTACHMENT_VALUE,
            Attachment::Stencil => STENCIL_ATTACHMENT_VALUE,
            Attachment::DepthStencil => DEPTH_STENCIL_ATTACHMENT_VALUE,
        }
    }

    /// Return the attachment-point value this reference addresses.
    pub fn target(&self) -> (r: u32)
        requires
            self matches Attachment::Color(slot) ==> slot + COLOR_ATTACHMENT_BASE <= u32::MAX,
        ensures
            r == self.spec_target(),
    {
        match *self {
            Attachment::Color(slot) => COLOR_ATTACHMENT_BASE + (slot as u32),
            Attachment::Depth => DEPTH_ATTACHMENT_VALUE,
            Attachment::Stencil => STENCIL_ATTACHMENT_VALUE,
            Attachment::DepthStencil => DEPTH_STENCIL_ATTACHMENT_VALUE,
        }
    }
}

/// What is bound at an attachment point: an image view or a renderbuffer.
#[derive(Copy, Clone, Debug, PartialEq, Eq, Structural)]
pub enum AttachmentView {
    Image(ImageView),
    Renderbuffer(Renderbuffer),
}

/// Framebuffer handle.
#[derive(Clone, Copy, Debug, PartialEq, Eq, Structural)]
pub struct Framebuffer(pub u32);

impl Default for Framebuffer {
    /// The default framebuffer: the base framebuffer associated with the
    /// context, which also represents the internal swapchain for
    /// presentation. It cannot be reconfigured.
    fn default() -> (r: Framebuffer)
        ensures
            r == (Framebuffer(0u32)),
    {
        Framebuffer(0)
    }
}

/// Renderbuffer handle.
#[derive(Clone, Copy, Debug, PartialEq, Eq, Structural)]
pub struct Renderbuffer(pub u32);

impl Object for Framebuffer {
    /// Framebuffers label under the framebuffer namespace.
    fn object_type(&self) -> ObjectType {
        ObjectType::Framebuffer
    }

    fn handle(&self) -> u32 {
        self.0
    }
}

impl Object for Renderbuffer {
    /// Renderbuffers label under the renderbuffer namespace.
    fn object_type(&self) -> ObjectType {
        ObjectType::Renderbuffer
    }

    fn handle(&self) -> u32 {
        self.0
    }
}

} // verus!
