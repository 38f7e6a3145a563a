//! The frame scheduler: the acquire / submit / present state machine driven
//! once per host-loop iteration. A fixed number of frame slots bounds the
//! work in flight; each slot owns an image-available signal, a
//! render-finished signal and a completion marker, and each presentable image
//! remembers the marker of the slot that last used it. A stale surface
//! reported by acquire or present, or a host-signalled resize observed at
//! present, aborts the tick into a recreation cycle without advancing the
//! frame cursor.

use vstd::prelude::*;

use crate::EngineError;

verus! {

/// Where the scheduler stands inside the current tick.
#[derive(Clone, Copy, Debug, PartialEq, Eq, Structural)]
pub enum Phase {
    /// Between ticks.
    Idle,
    /// The current slot's completion marker has been waited for; an image is
    /// being acquired.
    Acquiring,
    /// Work for the acquired image has been submitted; its presentation is
    /// being requested.
    Presenting,
    /// The tick was aborted; the swapchain must be rebuilt before the next
    /// tick.
    Recreating,
}

/// One of the fixed number of concurrently schedulable frames. The slot's
/// two signals and its marker share the slot's index; the model tracks only
/// whether the marker is still unresolved, i.e. whether device work submitted
/// through this slot may still be outstanding.
#[derive(Clone, Copy, Debug, PartialEq, Eq, Structural)]
pub struct FrameSlot {
    pub in_flight: bool,
}

/// Per presentable image: the completion marker of the slot that last
/// submitted work targeting the image, if any.
#[derive(Clone, Copy, Debug, PartialEq, Eq, Structural)]
pub struct SwapchainImageState {
    pub marker: Option<usize>,
}

/// What the presentation engine reported for an acquire request.
#[derive(Clone, Copy, Debug, PartialEq, Eq, Structural)]
pub enum AcquireOutcome {
    /// An image index was handed out.
    Ready(u32),
    /// An image index was handed out, but the surface no longer matches the
    /// target optimally; acceptable to continue.
    Suboptimal(u32),
    /// The swapchain is stale: no image, rebuild required.
    OutOfDate,
    /// Any other status: fatal.
    Failure,
}

/// What the presentation engine reported for a present request.
#[derive(Clone, Copy, Debug, PartialEq, Eq, Structural)]
pub enum PresentOutcome {
    Presented,
    /// Presented, but the surface is suboptimal: rebuild.
    Suboptimal,
    /// The swapchain is stale: rebuild.
    OutOfDate,
    /// Any other status: fatal.
    Failure,
}

/// Everything the host needs to submit and present for this tick, after a
/// successful acquire. Signals and markers are named by slot index; the
/// command buffer by image index.
#[derive(Clone, Copy, Debug, PartialEq, Eq, Structural)]
pub struct SubmitInfo {
    /// The acquired image.
    pub image_index: usize,
    /// A slot whose completion marker must be waited for before the image
    /// can be reused, when the image is still bound to another slot's
    /// outstanding marker.
    pub wait_marker: Option<usize>,
    /// The image-available signal the submission waits on, at the
    /// color-attachment-output stage.
    pub wait_signal: usize,
    /// The render-finished signal the submission raises.
    pub finish_signal: usize,
    /// The completion marker to reset and attach to the submission.
    pub completion_marker: usize,
    /// The pre-recorded command buffer to submit.
    pub command_buffer: usize,
}

/// The decision taken after an acquire report.
#[derive(Clone, Copy, Debug, PartialEq, Eq, Structural)]
pub enum AcquireAction {
    /// Proceed: submit and then present as instructed.
    Submit(SubmitInfo),
    /// Abort the tick and run a recreation cycle.
    Recreate,
}

/// The decision taken after a present report.
#[derive(Clone, Copy, Debug, PartialEq, Eq, Structural)]
pub enum PresentAction {
    /// The tick completed; the frame cursor has advanced.
    Advance,
    /// Abort the tick and run a recreation cycle.
    Recreate,
}

/// The frame scheduler's state.
pub struct Scheduler {
    /// The fixed `N` frame slots; never recreated on resize.
    pub slots: Vec<FrameSlot>,
    /// The frame cursor: index of the slot the next tick uses.
    pub current_frame: usize,
    /// One entry per presentable image of the current swapchain.
    pub image_states: Vec<SwapchainImageState>,
    /// The host has signalled a resize that the next present must observe.
    pub pending_resize: bool,
    pub phase: Phase,
    /// The image acquired by the tick in progress; meaningful while
    /// `Presenting`.
    pub acquired_image: usize,
}

impl Scheduler {
    /// The scheduler's invariant: the cursor addresses a slot, image markers
    /// address slots, and the phase-dependent facts: while acquiring, the
    /// current slot's marker has been resolved (the backpressure wait), and
    /// while presenting, the acquired image is bound to the current slot's
    /// now-outstanding marker.
    pub open spec fn wf(self) -> bool {
        &&& self.slots@.len() >= 1
        &&& self.current_frame < self.slots@.len()
        &&& forall|i: int|
            0 <= i < self.image_states@.len() ==> (self.image_states@[i].marker is Some
                ==> self.image_states@[i].marker->0 < self.slots@.len())
        &&& (self.phase is Acquiring ==> !self.slots@[self.current_frame as int].in_flight)
        &&& (self.phase is Presenting ==> {
            &&& self.acquired_image < self.image_states@.len()
            &&& self.image_states@[self.acquired_image as int].marker == Some(self.current_frame)
            &&& self.slots@[self.current_frame as int].in_flight
        })
    }

    /// Fresh scheduler: `num_slots` slots whose markers start satisfied (as
    /// created-signalled fences do), one cleared state per presentable image,
    /// cursor at the first slot.
    pub fn new(num_slots: usize, image_count: usize) -> (s: Scheduler)
        requires
            num_slots >= 1,
        ensures
            s.wf(),
            s.slots@.len() == num_slots,
            forall|j: int| 0 <= j < num_slots ==> !s.slots@[j].in_flight,
            s.image_states@.len() == image_count,
            forall|j: int| 0 <= j < image_count ==> s.image_states@[j].marker is None,
            s.current_frame == 0,
            s.phase is Idle,
            !s.pending_resize,
    {
        let mut slots: Vec<FrameSlot> = Vec::new();
        let mut k: usize = 0;
        while k < num_slots
            invariant
                k <= num_slots,
                slots@.len() == k,
                forall|j: int| 0 <= j < k ==> !slots@[j].in_flight,
            decreases num_slots - k,
        {
            slots.push(FrameSlot { in_flight: false });
            k = k + 1;
        }
        let mut image_states: Vec<SwapchainImageState> = Vec::new();
        let mut k2: usize = 0;
        while k2 < image_count
            invariant
                k2 <= image_count,
                image_states@.len() == k2,
                forall|j: int| 0 <= j < k2 ==> image_states@[j].marker is None,
            decreases image_count - k2,
        {
            image_states.push(SwapchainImageState { marker: None });
            k2 = k2 + 1;
        }
        Scheduler {
            slots,
            current_frame: 0,
            image_states,
            pending_resize: false,
            phase: Phase::Idle,
            acquired_image: 0,
        }
    }

    /// Start a tick: block until the current slot's completion marker is
    /// satisfied. This is the backpressure wait that bounds in-flight frames
    /// to the slot count. Returns the slot whose marker the host must wait
    /// for; afterwards that marker is resolved.
    pub fn begin_tick(&mut self) -> (f: usize)
        requires
            old(self).wf(),
            old(self).phase is Idle,
        ensures
            final(self).wf(),
            f == old(self).current_frame,
            final(self).phase is Acquiring,
            final(self).current_frame == old(self).current_frame,
            final(self).slots@ == old(self).slots@.update(
                f as int,
                (FrameSlot { in_flight: false }),
            ),
            final(self).image_states@ == old(self).image_states@,
            final(self).pending_resize == old(self).pending_resize,
            final(self).acquired_image == old(self).acquired_image,
            control_step(*old(self), SchedulerEvent::BeginTick, *final(self)),
    {
        let f = self.current_frame;
        self.slots[f] = FrameSlot { in_flight: false };
        self.phase = Phase::Acquiring;
        f
    }

    /// The slot whose outstanding marker must be waited for before image `i`
    /// may be reused: the marker the image is still bound to, when it belongs
    /// to a different slot and is unresolved.
    pub open spec fn image_wait_slot(pre: Scheduler, i: int) -> Option<usize> {
        match pre.image_states@[i].marker {
            Some(g) => if g != pre.current_frame && pre.slots@[g as int].in_flight {
                Some(g)
            } else {
                None
            },
            None => None,
        }
    }

    /// The slot states after the acquire step for image `i`: the waited-for
    /// marker (if any) is resolved, and the current slot's marker becomes
    /// outstanding for the new submission.
    pub open spec fn slots_after_acquire(pre: Scheduler, i: int) -> Seq<FrameSlot> {
        let waited = match Scheduler::image_wait_slot(pre, i) {
            Some(g) => pre.slots@.update(g as int, (FrameSlot { in_flight: false })),
            None => pre.slots@,
        };
        waited.update(pre.current_frame as int, (FrameSlot { in_flight: true }))
    }

    /// React to the acquire report. A stale swapchain aborts the tick into
    /// recreation, leaving the cursor and every marker untouched; any
    /// unrecognized status, or an image index the swapchain does not have, is
    /// fatal and changes nothing. Otherwise the image is rebound to the
    /// current slot's marker (after waiting out a different slot's marker
    /// still attached to it), the marker is reset and becomes outstanding for
    /// the submission, and the host is told what to submit and present.
    pub fn on_acquire(&mut self, outcome: AcquireOutcome) -> (r: Result<
        AcquireAction,
        EngineError,
    >)
        requires
            old(self).wf(),
            old(self).phase is Acquiring,
        ensures
            final(self).wf(),
            final(self).current_frame == old(self).current_frame,
            final(self).pending_resize == old(self).pending_resize,
            final(self).slots@.len() == old(self).slots@.len(),
            match outcome {
                AcquireOutcome::OutOfDate => {
                    &&& r is Ok
                    &&& r->Ok_0 == AcquireAction::Recreate
                    &&& final(self).phase is Recreating
                    &&& final(self).slots@ == old(self).slots@
                    &&& final(self).image_states@ == old(self).image_states@
                },
                AcquireOutcome::Failure => {
                    &&& r is Err
                    &&& r->Err_0 == EngineError::UnexpectedStatus
                    &&& *final(self) == *old(self)
                },
                AcquireOutcome::Ready(ix) | AcquireOutcome::Suboptimal(ix) => {
                    if ix as int >= old(self).image_states@.len() {
                        &&& r is Err
                        &&& r->Err_0 == EngineError::UnexpectedStatus
                        &&& *final(self) == *old(self)
                    } else {
                        &&& r is Ok
                        &&& r->Ok_0 == AcquireAction::Submit(
                            (SubmitInfo {
                                image_index: ix as usize,
                                wait_marker: Scheduler::image_wait_slot(*old(self), ix as int),
                                wait_signal: old(self).current_frame,
                                finish_signal: old(self).current_frame,
                                completion_marker: old(self).current_frame,
                                command_buffer: ix as usize,
                            }),
                        )
                        &&& final(self).phase is Presenting
                        &&& final(self).acquired_image == ix as usize
                        &&& final(self).slots@ == Scheduler::slots_after_acquire(
                            *old(self),
                            ix as int,
                        )
                        &&& final(self).image_states@ == old(self).image_states@.update(
                            ix as int,
                            (SwapchainImageState { marker: Some(old(self).current_frame) }),
                        )
                    }
                },
            },
            control_step(*old(self), SchedulerEvent::Acquire(outcome), *final(self)),
    {
        match outcome {
            AcquireOutcome::OutOfDate => {
                self.phase = Phase::Recreating;
                Ok(AcquireAction::Recreate)
            },
            AcquireOutcome::Failure => Err(EngineError::UnexpectedStatus),
            AcquireOutcome::Ready(ix) | AcquireOutcome::Suboptimal(ix) => {
                let i = ix as usize;
                if i >= self.image_states.len() {
                    return Err(EngineError::UnexpectedStatus);
                }
                let f = self.current_frame;
                let wait_marker: Option<usize> = match self.image_states[i].marker {
                    Some(g) => if g != f && self.slots[g].in_flight {
                        Some(g)
                    } else {
                        None
                    },
                    None => None,
                };
                // Block until the marker still attached to this image is
                // satisfied, so the image cannot be overwritten while the
                // presentation engine may still read it.
                match wait_marker {
                    Some(g) => {
                        self.slots[g] = FrameSlot { in_flight: false };
                    },
                    None => (),
                }
                self.image_states[i] = SwapchainImageState { marker: Some(f) };
                // Reset the current slot's marker; the submission it is
                // attached to is now outstanding.
                self.slots[f] = FrameSlot { in_flight: true };
                self.acquired_image = i;
                self.phase = Phase::Presenting;
                Ok(
                    AcquireAction::Submit(
                        SubmitInfo {
                            image_index: i,
                            wait_marker,
                            wait_signal: f,
                            finish_signal: f,
                            completion_marker: f,
                            command_buffer: i,
                        },
                    ),
                )
            },
        }
    }

    /// React to the present report. A pending host resize, observed here,
    /// aborts into recreation even when the report itself was clean; so do a
    /// stale or suboptimal report. Only a fully successful tick advances the
    /// frame cursor, by one modulo the slot count. Any other status is fatal
    /// and changes nothing.
    pub fn on_present(&mut self, outcome: PresentOutcome) -> (r: Result<
        PresentAction,
        EngineError,
    >)
        requires
            old(self).wf(),
            old(self).phase is Presenting,
        ensures
            final(self).wf(),
            final(self).slots@ == old(self).slots@,
            final(self).image_states@ == old(self).image_states@,
            final(self).pending_resize == old(self).pending_resize,
            final(self).acquired_image == old(self).acquired_image,
            if old(self).pending_resize {
                &&& r is Ok
                &&& r->Ok_0 == PresentAction::Recreate
                &&& final(self).phase is Recreating
                &&& final(self).current_frame == old(self).current_frame
            } else {
                match outcome {
                    PresentOutcome::Presented => {
                        &&& r is Ok
                        &&& r->Ok_0 == PresentAction::Advance
                        &&& final(self).phase is Idle
                        &&& final(self).current_frame == (old(self).current_frame + 1) % (old(
                            self,
                        ).slots@.len() as int)
                    },
                    PresentOutcome::OutOfDate | PresentOutcome::Suboptimal => {
                        &&& r is Ok
                        &&& r->Ok_0 == PresentAction::Recreate
                        &&& final(self).phase is Recreating
                        &&& final(self).current_frame == old(self).current_frame
                    },
                    PresentOutcome::Failure => {
                        &&& r is Err
                        &&& r->Err_0 == EngineError::UnexpectedStatus
                        &&& *final(self) == *old(self)
                    },
                }
            },
            control_step(*old(self), SchedulerEvent::Present(outcome), *final(self)),
    {
        if self.pending_resize {
            self.phase = Phase::Recreating;
            return Ok(PresentAction::Recreate);
        }
        match outcome {
            PresentOutcome::Presented => {
                self.phase = Phase::Idle;
                let n = self.slots.len();
                self.current_frame = (self.current_frame + 1) % n;
                Ok(PresentAction::Advance)
            },
            PresentOutcome::OutOfDate | PresentOutcome::Suboptimal => {
                self.phase = Phase::Recreating;
                Ok(PresentAction::Recreate)
            },
            PresentOutcome::Failure => Err(EngineError::UnexpectedStatus),
        }
    }

    /// The host signalled a resize; the next present will observe it and
    /// abort into recreation.
    pub fn notify_resize(&mut self)
        requires
            old(self).wf(),
        ensures
            final(self).wf(),
            final(self).pending_resize,
            final(self).phase == old(self).phase,
            final(self).current_frame == old(self).current_frame,
            final(self).slots@ == old(self).slots@,
            final(self).image_states@ == old(self).image_states@,
            final(self).acquired_image == old(self).acquired_image,
            control_step(*old(self), SchedulerEvent::ResizeSignal, *final(self)),
    {
        self.pending_resize = true;
    }

    /// Finish a recreation cycle: the device-idle wait has retired all
    /// outstanding work, so every slot's marker is satisfied; the rebuilt
    /// swapchain has `image_count` images, none bound to any marker; the
    /// pending-resize flag is cleared; the frame cursor is not advanced.
    pub fn complete_recreation(&mut self, image_count: usize)
        requires
            old(self).wf(),
            old(self).phase is Recreating,
        ensures
            final(self).wf(),
            final(self).phase is Idle,
            final(self).current_frame == old(self).current_frame,
            !final(self).pending_resize,
            final(self).slots@.len() == old(self).slots@.len(),
            forall|j: int| 0 <= j < final(self).slots@.len() ==> !final(self).slots@[j].in_flight,
            final(self).image_states@.len() == image_count,
            forall|j: int| 0 <= j < image_count ==> final(self).image_states@[j].marker is None,
            final(self).acquired_image == old(self).acquired_image,
            control_step(*old(self), SchedulerEvent::RecreationDone(image_count), *final(self)),
    {
        // Device-idle wait: every outstanding marker resolves.
        let n = self.slots.len();
        let mut k: usize = 0;
        while k < n
            invariant
                n == self.slots@.len(),
                k <= n,
                self.current_frame == old(self).current_frame,
                self.current_frame < n,
                self.image_states@ == old(self).image_states@,
                self.pending_resize == old(self).pending_resize,
                self.phase == old(self).phase,
                self.acquired_image == old(self).acquired_image,
                forall|j: int| 0 <= j < k ==> !self.slots@[j].in_flight,
            decreases n - k,
        {
            self.slots[k] = FrameSlot { in_flight: false };
            k = k + 1;
        }
        // The rebuilt swapchain's images start with no marker bound.
        let mut image_states: Vec<SwapchainImageState> = Vec::new();
        let mut k2: usize = 0;
        while k2 < image_count
            invariant
                k2 <= image_count,
                image_states@.len() == k2,
                forall|j: int| 0 <= j < k2 ==> image_states@[j].marker is None,
            decreases image_count - k2,
        {
            image_states.push(SwapchainImageState { marker: None });
            k2 = k2 + 1;
        }
        self.image_states = image_states;
        self.pending_resize = false;
        self.phase = Phase::Idle;
    }
}

/// One interaction with the scheduler, as seen in a trace of a run.
pub enum SchedulerEvent {
    /// `begin_tick`: the backpressure wait.
    BeginTick,
    /// `on_acquire` with the presentation engine's report.
    Acquire(AcquireOutcome),
    /// `on_present` with the presentation engine's report.
    Present(PresentOutcome),
    /// `notify_resize`: the host flagged a resize.
    ResizeSignal,
    /// `complete_recreation` with the rebuilt swapchain's image count.
    RecreationDone(usize),
}

/// The scheduler's control-state transition relation: which events are
/// enabled in which phase, and what each does to the phase, the frame cursor
/// and the pending-resize flag. Every scheduler method guarantees this
/// relation between its pre- and post-state; the trace laws below quantify
/// over it.
pub open spec fn control_step(pre: Scheduler, ev: SchedulerEvent, post: Scheduler) -> bool {
    match ev {
        SchedulerEvent::BeginTick => {
            &&& pre.phase is Idle
            &&& post.phase is Acquiring
            &&& post.current_frame == pre.current_frame
            &&& post.pending_resize == pre.pending_resize
        },
        SchedulerEvent::Acquire(outcome) => {
            &&& pre.phase is Acquiring
            &&& post.current_frame == pre.current_frame
            &&& post.pending_resize == pre.pending_resize
            &&& match outcome {
                AcquireOutcome::OutOfDate => post.phase is Recreating,
                AcquireOutcome::Failure => post.phase is Acquiring,
                AcquireOutcome::Ready(_) | AcquireOutcome::Suboptimal(_) => (post.phase
                    is Presenting || post.phase is Acquiring),
            }
        },
        SchedulerEvent::Present(outcome) => {
            &&& pre.phase is Presenting
            &&& post.pending_resize == pre.pending_resize
            &&& if pre.pending_resize {
                post.phase is Recreating && post.current_frame == pre.current_frame
            } else {
                match outcome {
                    PresentOutcome::Presented => {
                        &&& post.phase is Idle
                        &&& post.current_frame == (pre.current_frame + 1) % (
                        pre.slots@.len() as int)
                    },
                    PresentOutcome::OutOfDate | PresentOutcome::Suboptimal => (post.phase
                        is Recreating && post.current_frame == pre.current_frame),
                    PresentOutcome::Failure => (post.phase is Presenting && post.current_frame
                        == pre.current_frame),
                }
            }
        },
        SchedulerEvent::ResizeSignal => {
            &&& post.phase == pre.phase
            &&& post.current_frame == pre.current_frame
            &&& post.pending_resize
        },
        SchedulerEvent::RecreationDone(_) => {
            &&& pre.phase is Recreating
            &&& post.phase is Idle
            &&& post.current_frame == pre.current_frame
            &&& !post.pending_resize
        },
    }
}

/// `states` and `events` describe a run: one more state than events, each
/// consecutive pair related by the event between them.
pub open spec fn valid_trace(states: Seq<Scheduler>, events: Seq<SchedulerEvent>) -> bool {
    &&& states.len() == events.len() + 1
    &&& forall|k: int|
        0 <= k < events.len() ==> #[trigger] control_step(states[k], events[k], states[k + 1])
}

/// The step aborted a tick into recreation: a stale acquire, or a present
/// that observed a stale or suboptimal surface or the pending resize flag —
/// under `control_step`, those are the only ways into `Recreating`.
pub open spec fn triggers_recreation(pre: Scheduler, post: Scheduler) -> bool {
    !(pre.phase is Recreating) && post.phase is Recreating
}

/// The step completed a tick: a fully successful present, the only step from
/// `Presenting` back to `Idle`, and the only one that advances the cursor.
pub open spec fn completes_tick(pre: Scheduler, post: Scheduler) -> bool {
    pre.phase is Presenting && post.phase is Idle
}

/// The event is the completion of a recreation cycle.
pub open spec fn is_recreation_done(ev: SchedulerEvent) -> bool {
    ev is RecreationDone
}

/// While the scheduler awaits recreation, no tick can run: until a
/// recreation completes, every enabled event leaves the phase at
/// `Recreating`.
pub proof fn lemma_recreating_until_done(
    states: Seq<Scheduler>,
    events: Seq<SchedulerEvent>,
    a: int,
    b: int,
)
    requires
        valid_trace(states, events),
        0 <= a <= b <= events.len(),
        states[a].phase is Recreating,
        forall|k: int| a <= k < b ==> !is_recreation_done(events[k]),
    ensures
        states[b].phase is Recreating,
    decreases b - a,
{
    if a < b {
        assert(control_step(states[a], events[a], states[a + 1]));
        lemma_recreating_until_done(states, events, a + 1, b);
    }
}

/// A run that starts outside `Recreating` and suffers no recreation trigger
/// never reaches `Recreating`.
pub proof fn lemma_no_recreation_without_trigger(
    states: Seq<Scheduler>,
    events: Seq<SchedulerEvent>,
    a: int,
    b: int,
)
    requires
        valid_trace(states, events),
        0 <= a <= b <= events.len(),
        !(states[a].phase is Recreating),
        forall|k: int| a <= k < b ==> !(#[trigger] triggers_recreation(states[k], states[k + 1])),
    ensures
        !(states[b].phase is Recreating),
    decreases b - a,
{
    if a < b {
        assert(control_step(states[a], events[a], states[a + 1]));
        assert(!triggers_recreation(states[a], states[a + 1]));
        lemma_no_recreation_without_trigger(states, events, a + 1, b);
    }
}

/// A recreation-triggering step never advances the frame cursor.
pub proof fn lemma_trigger_keeps_cursor(
    states: Seq<Scheduler>,
    events: Seq<SchedulerEvent>,
    t: int,
)
    requires
        valid_trace(states, events),
        0 <= t < events.len(),
        triggers_recreation(states[t], states[t + 1]),
    ensures
        states[t + 1].current_frame == states[t].current_frame,
{
    assert(control_step(states[t], events[t], states[t + 1]));
}

/// After a tick aborts into recreation, the frame cursor is left where it
/// was, and — as long as no further stale or resize abort strikes first —
/// exactly one recreation cycle completes before the next successfully
/// completed tick.
pub proof fn lemma_single_recreation_cycle(
    states: Seq<Scheduler>,
    events: Seq<SchedulerEvent>,
    t: int,
    m: int,
)
    requires
        valid_trace(states, events),
        0 <= t < m < events.len(),
        triggers_recreation(states[t], states[t + 1]),
        completes_tick(states[m], states[m + 1]),
        forall|k: int| t < k < m ==> !(#[trigger] triggers_recreation(states[k], states[k + 1])),
    ensures
        states[t + 1].current_frame == states[t].current_frame,
        exists|j: int| t < j < m && is_recreation_done(events[j]),
        forall|j1: int, j2: int|
            t < j1 < m && t < j2 < m && is_recreation_done(events[j1]) && is_recreation_done(
                events[j2],
            ) ==> j1 == j2,
{
    lemma_trigger_keeps_cursor(states, events, t);
    // At least one recreation completes: otherwise the scheduler would still
    // await recreation at `m`, where a tick is completing.
    if forall|j: int| t < j < m ==> !is_recreation_done(events[j]) {
        assert(forall|k: int| t + 1 <= k < m ==> !is_recreation_done(events[k]));
        lemma_recreating_until_done(states, events, t + 1, m);
        assert(false);
    }
    // At most one: after the first completes, the phase has left
    // `Recreating`, and without a further trigger it cannot return there, so
    // no second completion is enabled.
    assert forall|j1: int, j2: int|
        t < j1 < m && t < j2 < m && is_recreation_done(events[j1]) && is_recreation_done(
            events[j2],
        ) implies j1 == j2 by {
        if j1 < j2 {
            assert(control_step(states[j1], events[j1], states[j1 + 1]));
            lemma_no_recreation_without_trigger(states, events, j1 + 1, j2);
            assert(control_step(states[j2], events[j2], states[j2 + 1]));
        } else if j2 < j1 {
            assert(control_step(states[j2], events[j2], states[j2 + 1]));
            lemma_no_recreation_without_trigger(states, events, j2 + 1, j1);
            assert(control_step(states[j1], events[j1], states[j1 + 1]));
        }
    }
}

/// Number of unresolved completion markers.
pub open spec fn busy_count(slots: Seq<FrameSlot>) -> int
    decreases slots.len(),
{
    if slots.len() == 0 {
        0
    } else {
        busy_count(slots.drop_last()) + if slots.last().in_flight {
            1int
        } else {
            0int
        }
    }
}

proof fn lemma_busy_count_le_len(slots: Seq<FrameSlot>)
    ensures
        0 <= busy_count(slots) <= slots.len(),
    decreases slots.len(),
{
    if slots.len() > 0 {
        lemma_busy_count_le_len(slots.drop_last());
    }
}

/// Backpressure bound: at every instant the scheduler has at most `N`
/// unresolved completion markers outstanding, where `N` is the number of
/// frame slots — one marker per slot, resolved before the slot is reused.
pub proof fn lemma_backpressure_bound(s: Scheduler)
    requires
        s.wf(),
    ensures
        busy_count(s.slots@) <= s.slots@.len(),
{
    lemma_busy_count_le_len(s.slots@);
}

} // verus!
