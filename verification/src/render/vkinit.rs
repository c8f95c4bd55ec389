//! What the presentation loop knows of the device session: the extent of the
//! swapchain and what was built for that extent.

use vstd::prelude::*;

verus! {

/// The extent that a surface gets when the window system reports none.
pub const DEFAULT_EXTENT: [u32; 2] = [800, 800];

/// The region of the framebuffer that is drawn to, in pixels.
#[derive(Debug, Clone, Copy, PartialEq, Eq)]
pub struct Viewport {
    pub origin: [u32; 2],
    pub dimensions: [u32; 2],
}

/// The state that a draw call takes besides its pipeline: one viewport that
/// covers the whole swapchain image.
#[derive(Debug, Clone, Copy, PartialEq, Eq)]
pub struct DynamicState {
    pub viewport: Viewport,
}

/// The session as the presentation loop sees it.
///
/// `framebuffers[i]` is the index of the swapchain image that framebuffer `i`
/// renders to. A well-formed session has one framebuffer per swapchain image,
/// in the order of the images, and a viewport of the swapchain's extent.
#[derive(Debug)]
pub struct VkSession {
    pub dimensions: [u32; 2],
    pub sc_images: usize,
    pub framebuffers: Vec<usize>,
    pub dynamic_state: DynamicState,
}

/// The abstract value of a session.
pub struct VkSessionView {
    pub dimensions: [u32; 2],
    pub sc_images: nat,
    pub framebuffers: Seq<usize>,
    pub dynamic_state: DynamicState,
}

impl View for VkSession {
    type V = VkSessionView;

    open spec fn view(&self) -> VkSessionView {
        VkSessionView {
            dimensions: self.dimensions,
            sc_images: self.sc_images as nat,
            framebuffers: self.framebuffers@,
            dynamic_state: self.dynamic_state,
        }
    }
}

/// The viewport state for a swapchain of the given extent.
pub open spec fn dynamic_state_for(dimensions: [u32; 2]) -> DynamicState {
    DynamicState { viewport: Viewport { origin: [0u32, 0u32], dimensions } }
}

/// The framebuffers for `images` swapchain images: framebuffer `i` renders
/// to image `i`.
pub open spec fn framebuffers_for(images: nat) -> Seq<usize> {
    Seq::new(images, |i: int| i as usize)
}

/// The session that stands after the swapchain was built or rebuilt with
/// the extent `dimensions` and the device handed out `images` images.
pub open spec fn session_for(dimensions: [u32; 2], images: nat) -> VkSessionView {
    VkSessionView {
        dimensions,
        sc_images: images,
        framebuffers: framebuffers_for(images),
        dynamic_state: dynamic_state_for(dimensions),
    }
}

impl VkSessionView {
    /// One framebuffer per image, in order, and a viewport of the extent.
    pub open spec fn well_formed(self) -> bool {
        &&& self.framebuffers.len() == self.sc_images
        &&& forall|i: int| 0 <= i < self.framebuffers.len() ==> self.framebuffers[i] == i
        &&& self.dynamic_state.viewport.origin == [0u32, 0u32]
        &&& self.dynamic_state.viewport.dimensions == self.dimensions
    }

    /// The session after a rebuild for the extent `dimensions`, for which
    /// the device handed out `images` images. Nothing of the session before
    /// stays.
    pub open spec fn recreated(self, dimensions: [u32; 2], images: nat) -> VkSessionView {
        session_for(dimensions, images)
    }
}

/// The extent that a new swapchain is asked for: the surface's current
/// extent, or the default where the window system leaves it open.
pub fn requested_extent(current_extent: Option<[u32; 2]>) -> (extent: [u32; 2])
    ensures
        extent == match current_extent {
            Some(extent) => extent,
            None => DEFAULT_EXTENT,
        },
{
    match current_extent {
        Some(extent) => extent,
        None => DEFAULT_EXTENT,
    }
}

/// The session for a new swapchain whose images have the extent
/// `dimensions`, `images` of them.
pub fn init(dimensions: [u32; 2], images: usize) -> (session: VkSession)
    ensures
        session@ == session_for(dimensions, images as nat),
{
    let (dynamic_state, framebuffers) = crate::render::vk::recreate_dimensions_dependent(
        dimensions,
        images,
    );
    VkSession { dimensions, sc_images: images, framebuffers, dynamic_state }
}

/// Recreating is idempotent: a second rebuild for the same extent and the
/// same number of images leaves the session as the first made it, and what
/// a rebuild makes is well formed.
pub proof fn lemma_recreating_is_idempotent(
    session: VkSessionView,
    dimensions: [u32; 2],
    images: nat,
)
    requires
        images <= usize::MAX,
    ensures
        session.recreated(dimensions, images).recreated(dimensions, images) == session.recreated(
            dimensions,
            images,
        ),
        session.recreated(dimensions, images).well_formed(),
        session.recreated(dimensions, images).dimensions == dimensions,
{
}

} // verus!
