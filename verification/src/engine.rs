//! The engine ties the frame scheduler to the swapchain bundle and drives a
//! whole tick: the backpressure wait, the acquire decision, submission and
//! presentation, and — when the surface is stale, suboptimal with a pending
//! resize, or the host has resized — the full recreation cycle, run while the
//! device is idle and followed by re-recording the command buffers.

use vstd::prelude::*;

use crate::scheduler::{
    AcquireAction, AcquireOutcome, PresentAction, PresentOutcome, Scheduler, SwapchainImageState,
};
use crate::swapchain::{SurfaceCaps, SwapchainBundle};
use crate::EngineError;

verus! {

/// What a tick did, when it was not fatal.
#[derive(Clone, Copy, Debug, PartialEq, Eq, Structural)]
pub enum TickOutcome {
    /// The tick ran to completion: this image was rendered and presented,
    /// and the frame cursor advanced.
    Completed(usize),
    /// The tick was absorbed by one full recreation cycle; the frame cursor
    /// did not advance. Nothing above the engine observes an error.
    Recreated,
}

/// The scheduler, the swapchain bundle it schedules onto, and the index
/// count the command buffers are recorded with.
pub struct Engine {
    pub scheduler: Scheduler,
    pub bundle: SwapchainBundle,
    /// Number of indices of the mesh; used whenever command buffers are
    /// (re-)recorded.
    pub index_count: u32,
}

impl Engine {
    /// The engine's invariant: both halves are well-formed and the scheduler
    /// tracks exactly one image state per presentable image.
    pub open spec fn wf(self) -> bool {
        &&& self.scheduler.wf()
        &&& self.bundle.wf()
        &&& self.scheduler.image_states@.len() == self.bundle.images@.len()
    }

    /// The state every recreation cycle establishes: a freshly built bundle
    /// matching the surface's current capabilities, command buffers
    /// re-recorded, every image marker cleared, every slot marker satisfied
    /// (the device-idle wait), the pending-resize flag cleared, and the frame
    /// cursor exactly where it was.
    pub open spec fn recreated_from(post: Engine, pre: Engine, caps: SurfaceCaps) -> bool {
        &&& post.scheduler.phase is Idle
        &&& post.scheduler.current_frame == pre.scheduler.current_frame
        &&& !post.scheduler.pending_resize
        &&& post.scheduler.slots@.len() == pre.scheduler.slots@.len()
        &&& forall|j: int|
            0 <= j < post.scheduler.slots@.len() ==> !post.scheduler.slots@[j].in_flight
        &&& post.bundle.matches_surface(caps)
        &&& forall|j: int|
            0 <= j < post.scheduler.image_states@.len()
                ==> post.scheduler.image_states@[j].marker is None
        &&& forall|j: int|
            0 <= j < post.bundle.images@.len() ==> post.bundle.command_buffers@[j].recorded
                && post.bundle.command_buffers@[j].index_count == pre.index_count
        &&& post.bundle.format == pre.bundle.format
        &&& post.bundle.present_mode == pre.bundle.present_mode
        &&& post.index_count == pre.index_count
    }

    /// Bring the engine up: build and record the bundle for the surface and
    /// create `num_slots` frame slots, all markers satisfied.
    pub fn new(
        caps: &SurfaceCaps,
        num_slots: usize,
        format: u32,
        present_mode: u32,
        index_count: u32,
    ) -> (e: Engine)
        requires
            num_slots >= 1,
            caps.min_image_count < u32::MAX,
        ensures
            e.wf(),
            e.bundle.matches_surface(*caps),
            e.bundle.format == format,
            e.bundle.present_mode == present_mode,
            e.index_count == index_count,
            e.scheduler.slots@.len() == num_slots,
            e.scheduler.current_frame == 0,
            e.scheduler.phase is Idle,
            !e.scheduler.pending_resize,
            forall|j: int| 0 <= j < num_slots ==> !e.scheduler.slots@[j].in_flight,
            forall|j: int|
                0 <= j < e.scheduler.image_states@.len() ==> e.scheduler.image_states@[j].marker
                    is None,
            forall|j: int|
                0 <= j < e.bundle.images@.len() ==> e.bundle.command_buffers@[j].recorded
                    && e.bundle.command_buffers@[j].index_count == index_count,
    {
        let mut bundle = SwapchainBundle::create(caps, format, present_mode);
        bundle.record_commands(index_count);
        let scheduler = Scheduler::new(num_slots, bundle.images.len());
        Engine { scheduler, bundle, index_count }
    }

    /// Run one full recreation cycle: wait for the device to go idle, tear
    /// down the bundle and everything sized by its image count, rebuild it at
    /// the surface's current extent, re-record the command buffers, clear
    /// every image's marker and the pending-resize flag, and return to idle
    /// without advancing the frame cursor.
    pub fn recreate_swapchain(&mut self, caps: &SurfaceCaps)
        requires
            old(self).wf(),
            old(self).scheduler.phase is Recreating,
            caps.min_image_count < u32::MAX,
        ensures
            final(self).wf(),
            Engine::recreated_from(*final(self), *old(self), *caps),
    {
        let mut b = SwapchainBundle::create(caps, self.bundle.format, self.bundle.present_mode);
        b.record_commands(self.index_count);
        let n = b.images.len();
        self.bundle = b;
        self.scheduler.complete_recreation(n);
    }

    /// Drive one tick. `acquire` and `present` are what the presentation
    /// engine reported for this tick's acquire and present requests (the
    /// present report is reached only when the tick submits). A stale
    /// acquire, a stale or suboptimal present, or a pending host resize
    /// observed at present absorbs the tick into one recreation cycle at the
    /// surface's current capabilities, without advancing the frame cursor;
    /// only a fully successful tick advances it. An unrecognized report, or
    /// an image index out of range, is fatal.
    pub fn tick(
        &mut self,
        acquire: AcquireOutcome,
        present: PresentOutcome,
        caps: &SurfaceCaps,
    ) -> (r: Result<TickOutcome, EngineError>)
        requires
            old(self).wf(),
            old(self).scheduler.phase is Idle,
            caps.min_image_count < u32::MAX,
        ensures
            final(self).wf(),
            final(self).scheduler.slots@.len() == old(self).scheduler.slots@.len(),
            final(self).index_count == old(self).index_count,
            r is Err ==> r->Err_0 == EngineError::UnexpectedStatus
                && final(self).scheduler.current_frame == old(self).scheduler.current_frame
                && final(self).bundle == old(self).bundle,
            r is Err <==> (acquire is Failure || (match acquire {
                AcquireOutcome::Ready(ix) | AcquireOutcome::Suboptimal(ix) => (ix as int
                    >= old(self).bundle.images@.len() || (!old(self).scheduler.pending_resize
                    && present is Failure)),
                _ => false,
            })),
            r is Ok && r->Ok_0 is Recreated ==> Engine::recreated_from(
                *final(self),
                *old(self),
                *caps,
            ),
            (match acquire {
                AcquireOutcome::OutOfDate => r is Ok && r->Ok_0 == TickOutcome::Recreated,
                AcquireOutcome::Failure => r is Err,
                AcquireOutcome::Ready(ix) | AcquireOutcome::Suboptimal(ix) => (
                (ix as int) < old(self).bundle.images@.len() ==> {
                    if old(self).scheduler.pending_resize || present is OutOfDate || present
                        is Suboptimal {
                        r is Ok && r->Ok_0 == TickOutcome::Recreated
                    } else if present is Presented {
                        &&& r is Ok
                        &&& r->Ok_0 == TickOutcome::Completed(ix as usize)
                        &&& final(self).scheduler.phase is Idle
                        &&& final(self).scheduler.current_frame == (
                        old(self).scheduler.current_frame + 1) % (
                        old(self).scheduler.slots@.len() as int)
                        &&& final(self).bundle == old(self).bundle
                        &&& final(self).scheduler.image_states@ == old(
                            self,
                        ).scheduler.image_states@.update(
                            ix as int,
                            (SwapchainImageState {
                                marker: Some(old(self).scheduler.current_frame),
                            }),
                        )
                        &&& final(self).scheduler.slots@[old(
                            self,
                        ).scheduler.current_frame as int].in_flight
                        &&& !final(self).scheduler.pending_resize
                    } else {
                        r is Err
                    }
                }),
            }),
    {
        let _slot = self.scheduler.begin_tick();
        // The host waits out the slot's completion marker, then requests the
        // next image; `acquire` is what that request reported.
        match self.scheduler.on_acquire(acquire) {
            Err(e) => Err(e),
            Ok(AcquireAction::Recreate) => {
                self.recreate_swapchain(caps);
                Ok(TickOutcome::Recreated)
            },
            Ok(AcquireAction::Submit(info)) => {
                // The host waits out the image's previous marker if told to,
                // resets the slot's marker, submits the image's command
                // buffer gated on the image-available signal, and requests
                // presentation gated on the render-finished signal;
                // `present` is what that request reported.
                match self.scheduler.on_present(present) {
                    Err(e) => Err(e),
                    Ok(PresentAction::Advance) => Ok(TickOutcome::Completed(info.image_index)),
                    Ok(PresentAction::Recreate) => {
                        self.recreate_swapchain(caps);
                        Ok(TickOutcome::Recreated)
                    },
                }
            },
        }
    }
}

} // verus!
