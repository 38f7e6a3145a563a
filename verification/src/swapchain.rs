//! The swapchain bundle: the presentable images and every resource whose
//! validity is tied to them (image views, framebuffers, command buffers),
//! created, destroyed and recreated as one unit. The image-count policy asks
//! for one image more than the surface's minimum, clamped to the surface's
//! maximum, where a reported maximum of zero means unbounded; the framebuffer
//! extent is always the surface's current reported extent, not the window
//! size, since the two can diverge transiently.

use vstd::prelude::*;

verus! {

/// A drawable size in pixels.
#[derive(Clone, Copy, Debug, PartialEq, Eq, Structural)]
pub struct Extent {
    pub width: u32,
    pub height: u32,
}

/// What the surface reports about itself: the allowed image-count range and
/// its current extent.
#[derive(Clone, Copy, Debug, PartialEq, Eq, Structural)]
pub struct SurfaceCaps {
    pub min_image_count: u32,
    /// Zero means the surface puts no upper bound on the image count.
    pub max_image_count: u32,
    pub current_extent: Extent,
}

/// The image count requested from the surface: one more than the minimum to
/// keep the presentation engine from stalling the host, clamped to the
/// maximum when the surface reports one.
pub open spec fn spec_image_count(caps: SurfaceCaps) -> int {
    if caps.max_image_count == 0 {
        caps.min_image_count + 1
    } else if caps.min_image_count + 1 <= caps.max_image_count {
        caps.min_image_count + 1
    } else {
        caps.max_image_count as int
    }
}

/// Compute the image count to request for `caps`.
pub fn image_count(caps: &SurfaceCaps) -> (r: u32)
    requires
        caps.min_image_count < u32::MAX,
    ensures
        r == spec_image_count(*caps),
        r >= 1,
{
    let wanted = caps.min_image_count + 1;
    if caps.max_image_count == 0 || wanted <= caps.max_image_count {
        wanted
    } else {
        caps.max_image_count
    }
}

/// A view onto one presentable image.
#[derive(Clone, Copy, Debug, PartialEq, Eq, Structural)]
pub struct ImageView {
    /// Index of the image the view addresses.
    pub image: usize,
}

/// A framebuffer wrapping one image view at a fixed extent.
#[derive(Clone, Copy, Debug, PartialEq, Eq, Structural)]
pub struct Framebuffer {
    /// Index of the view the framebuffer attaches.
    pub view: usize,
    /// The extent the framebuffer was built for: the surface's reported
    /// extent at creation time.
    pub extent: Extent,
}

/// One pre-recorded command buffer, tied to one framebuffer.
#[derive(Clone, Copy, Debug, PartialEq, Eq, Structural)]
pub struct CommandBuffer {
    /// Index of the framebuffer the commands render into.
    pub framebuffer: usize,
    /// Whether the render pass and draw have been recorded.
    pub recorded: bool,
    /// Number of indices of the recorded indexed draw.
    pub index_count: u32,
}

/// Everything that must be destroyed and rebuilt together when the surface
/// changes: the images, one view per image, one framebuffer per view, and one
/// command buffer per framebuffer.
pub struct SwapchainBundle {
    pub extent: Extent,
    pub format: u32,
    pub present_mode: u32,
    pub images: Vec<u32>,
    pub image_views: Vec<ImageView>,
    pub framebuffers: Vec<Framebuffer>,
    pub command_buffers: Vec<CommandBuffer>,
}

impl SwapchainBundle {
    /// The bundle's structural invariant: the four resource sequences have
    /// equal length and line up index for index, and every framebuffer was
    /// built for the bundle's extent.
    pub open spec fn wf(self) -> bool {
        &&& self.image_views@.len() == self.images@.len()
        &&& self.framebuffers@.len() == self.images@.len()
        &&& self.command_buffers@.len() == self.images@.len()
        &&& forall|i: int|
            0 <= i < self.images@.len() ==> {
                &&& self.images@[i] == i as u32
                &&& self.image_views@[i].image == i
                &&& self.framebuffers@[i].view == i
                &&& self.framebuffers@[i].extent == self.extent
                &&& self.command_buffers@[i].framebuffer == i
            }
    }

    /// The bundle is the one the policy builds for `caps`: its extent is the
    /// surface's current extent and its image count follows the image-count
    /// policy.
    pub open spec fn matches_surface(self, caps: SurfaceCaps) -> bool {
        &&& self.extent == caps.current_extent
        &&& self.images@.len() == spec_image_count(caps)
    }

    /// Build a fresh bundle for the surface: the policy's image count, one
    /// view per image, one framebuffer per view at the surface's current
    /// extent, and one not-yet-recorded command buffer per framebuffer.
    pub fn create(caps: &SurfaceCaps, format: u32, present_mode: u32) -> (b: SwapchainBundle)
        requires
            caps.min_image_count < u32::MAX,
        ensures
            b.wf(),
            b.matches_surface(*caps),
            b.format == format,
            b.present_mode == present_mode,
            forall|i: int| 0 <= i < b.images@.len() ==> !b.command_buffers@[i].recorded,
    {
        let count = image_count(caps);
        let extent = caps.current_extent;
        let mut images: Vec<u32> = Vec::new();
        let mut image_views: Vec<ImageView> = Vec::new();
        let mut framebuffers: Vec<Framebuffer> = Vec::new();
        let mut command_buffers: Vec<CommandBuffer> = Vec::new();
        let mut i: u32 = 0;
        while i < count
            invariant
                i <= count,
                images@.len() == i,
                image_views@.len() == i,
                framebuffers@.len() == i,
                command_buffers@.len() == i,
                forall|j: int|
                    0 <= j < i ==> {
                        &&& images@[j] == j as u32
                        &&& image_views@[j].image == j
                        &&& framebuffers@[j].view == j
                        &&& framebuffers@[j].extent == extent
                        &&& command_buffers@[j].framebuffer == j
                    },
                forall|j: int| 0 <= j < i ==> !command_buffers@[j].recorded,
            decreases count - i,
        {
            let idx = i as usize;
            images.push(i);
            image_views.push(ImageView { image: idx });
            framebuffers.push(Framebuffer { view: idx, extent });
            command_buffers.push(
                CommandBuffer { framebuffer: idx, recorded: false, index_count: 0 },
            );
            i = i + 1;
        }
        SwapchainBundle { extent, format, present_mode, images, image_views, framebuffers, command_buffers }
    }

    /// Record the render pass and the indexed draw into every command buffer,
    /// one per framebuffer; everything else in the bundle is untouched.
    pub fn record_commands(&mut self, index_count: u32)
        requires
            old(self).wf(),
        ensures
            final(self).wf(),
            final(self).extent == old(self).extent,
            final(self).format == old(self).format,
            final(self).present_mode == old(self).present_mode,
            final(self).images@ == old(self).images@,
            final(self).image_views@ == old(self).image_views@,
            final(self).framebuffers@ == old(self).framebuffers@,
            final(self).command_buffers@.len() == old(self).command_buffers@.len(),
            forall|i: int|
                0 <= i < old(self).command_buffers@.len() ==> final(self).command_buffers@[i] == (
                CommandBuffer {
                    framebuffer: old(self).command_buffers@[i].framebuffer,
                    recorded: true,
                    index_count,
                }),
    {
        let n = self.command_buffers.len();
        let mut i: usize = 0;
        while i < n
            invariant
                n == self.command_buffers@.len(),
                i <= n,
                self.extent == old(self).extent,
                self.format == old(self).format,
                self.present_mode == old(self).present_mode,
                self.images@ == old(self).images@,
                self.image_views@ == old(self).image_views@,
                self.framebuffers@ == old(self).framebuffers@,
                self.command_buffers@.len() == old(self).command_buffers@.len(),
                forall|j: int|
                    0 <= j < i ==> self.command_buffers@[j] == (CommandBuffer {
                        framebuffer: old(self).command_buffers@[j].framebuffer,
                        recorded: true,
                        index_count,
                    }),
                forall|j: int|
                    i <= j < n ==> self.command_buffers@[j] == old(self).command_buffers@[j],
            decreases n - i,
        {
            let fb = self.command_buffers[i].framebuffer;
            self.command_buffers[i] = CommandBuffer { framebuffer: fb, recorded: true, index_count };
            i = i + 1;
        }
    }

    /// Destroy the bundle and build its replacement at the surface's current
    /// extent, keeping the surface format and present mode, and re-record the
    /// command buffers: the atomic destroy-then-create unit, to be run only
    /// while the device is idle.
    pub fn recreate(self, caps: &SurfaceCaps, index_count: u32) -> (b: SwapchainBundle)
        requires
            caps.min_image_count < u32::MAX,
        ensures
            b.wf(),
            b.matches_surface(*caps),
            b.format == self.format,
            b.present_mode == self.present_mode,
            forall|i: int|
                0 <= i < b.images@.len() ==> b.command_buffers@[i].recorded
                    && b.command_buffers@[i].index_count == index_count,
    {
        let mut b = SwapchainBundle::create(caps, self.format, self.present_mode);
        b.record_commands(index_count);
        b
    }
}

/// Recreation is idempotent: two bundles built for the same surface state
/// (no resize in between, so the same reported capabilities) have the same
/// extent and the same image count.
pub proof fn lemma_recreate_idempotent(
    b1: SwapchainBundle,
    b2: SwapchainBundle,
    caps: SurfaceCaps,
)
    requires
        b1.matches_surface(caps),
        b2.matches_surface(caps),
    ensures
        b1.extent == b2.extent,
        b1.images@.len() == b2.images@.len(),
{
}

/// The lengths a well-formed bundle keeps equal: one view per image, one
/// framebuffer per view, one command buffer per framebuffer.
pub proof fn lemma_bundle_lengths(b: SwapchainBundle)
    requires
        b.wf(),
    ensures
        b.image_views@.len() == b.images@.len(),
        b.framebuffers@.len() == b.images@.len(),
        b.command_buffers@.len() == b.images@.len(),
{
}

} // verus!
