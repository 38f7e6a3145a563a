use framesync::engine::{Engine, TickOutcome};
use framesync::scheduler::{AcquireOutcome, PresentOutcome};
use framesync::swapchain::{Extent, SurfaceCaps};
use framesync::EngineError;

const FORMAT: u32 = 44;
const PRESENT_MODE: u32 = 2;
const QUAD_INDEX_COUNT: u32 = 6;

fn caps(width: u32, height: u32) -> SurfaceCaps {
    // min_image_count 2 and an unbounded maximum: the policy asks for 3 images.
    SurfaceCaps {
        min_image_count: 2,
        max_image_count: 0,
        current_extent: Extent { width, height },
    }
}

fn busy_slots(engine: &Engine) -> usize {
    engine
        .scheduler
        .slots
        .iter()
        .filter(|slot| slot.in_flight)
        .count()
}

#[test]
fn scenario_two_slots_three_images() {
    let caps = caps(640, 480);
    let mut engine = Engine::new(&caps, 2, FORMAT, PRESENT_MODE, QUAD_INDEX_COUNT);
    assert_eq!(engine.bundle.images.len(), 3);
    assert_eq!(engine.scheduler.current_frame, 0);

    let r = engine.tick(AcquireOutcome::Ready(0), PresentOutcome::Presented, &caps);
    assert_eq!(r, Ok(TickOutcome::Completed(0)));
    assert_eq!(engine.scheduler.current_frame, 1);
    assert_eq!(engine.scheduler.image_states[0].marker, Some(0));

    let r = engine.tick(AcquireOutcome::Ready(1), PresentOutcome::Presented, &caps);
    assert_eq!(r, Ok(TickOutcome::Completed(1)));
    assert_eq!(engine.scheduler.current_frame, 0);
    assert_eq!(engine.scheduler.image_states[1].marker, Some(1));
}

#[test]
fn scenario_stale_acquire_recovers() {
    let caps = caps(640, 480);
    let mut engine = Engine::new(&caps, 2, FORMAT, PRESENT_MODE, QUAD_INDEX_COUNT);

    // Two clean ticks bring the cursor back to 0.
    assert_eq!(
        engine.tick(AcquireOutcome::Ready(0), PresentOutcome::Presented, &caps),
        Ok(TickOutcome::Completed(0))
    );
    assert_eq!(
        engine.tick(AcquireOutcome::Ready(1), PresentOutcome::Presented, &caps),
        Ok(TickOutcome::Completed(1))
    );
    assert_eq!(engine.scheduler.current_frame, 0);

    // Tick 3: acquire reports out-of-date. One recreation cycle runs; the
    // cursor stays at 0.
    let r = engine.tick(
        AcquireOutcome::OutOfDate,
        PresentOutcome::Presented,
        &caps,
    );
    assert_eq!(r, Ok(TickOutcome::Recreated));
    assert_eq!(engine.scheduler.current_frame, 0);
    for state in engine.scheduler.image_states.iter() {
        assert_eq!(state.marker, None);
    }
    for slot in engine.scheduler.slots.iter() {
        assert!(!slot.in_flight);
    }

    // The next tick proceeds normally from idle.
    let r = engine.tick(AcquireOutcome::Ready(0), PresentOutcome::Presented, &caps);
    assert_eq!(r, Ok(TickOutcome::Completed(0)));
    assert_eq!(engine.scheduler.current_frame, 1);
}

#[test]
fn scenario_resize_triggers_recreation() {
    let old_caps = caps(640, 480);
    let mut engine = Engine::new(&old_caps, 2, FORMAT, PRESENT_MODE, QUAD_INDEX_COUNT);
    assert_eq!(
        engine.tick(AcquireOutcome::Ready(0), PresentOutcome::Presented, &old_caps),
        Ok(TickOutcome::Completed(0))
    );

    // The host signals a resize mid-loop; the surface now reports the new
    // extent.
    engine.scheduler.notify_resize();
    let new_caps = caps(1024, 768);

    // The next tick's present observes the pending flag, even though the
    // present itself succeeded, and the recreation picks up the new extent.
    let r = engine.tick(AcquireOutcome::Ready(1), PresentOutcome::Presented, &new_caps);
    assert_eq!(r, Ok(TickOutcome::Recreated));
    assert_eq!(engine.scheduler.current_frame, 1);
    assert!(!engine.scheduler.pending_resize);
    assert_eq!(engine.bundle.extent, Extent { width: 1024, height: 768 });
    for fb in engine.bundle.framebuffers.iter() {
        assert_eq!(fb.extent, Extent { width: 1024, height: 768 });
    }
}

#[test]
fn suboptimal_acquire_continues() {
    let caps = caps(640, 480);
    let mut engine = Engine::new(&caps, 2, FORMAT, PRESENT_MODE, QUAD_INDEX_COUNT);
    let r = engine.tick(
        AcquireOutcome::Suboptimal(2),
        PresentOutcome::Presented,
        &caps,
    );
    assert_eq!(r, Ok(TickOutcome::Completed(2)));
    assert_eq!(engine.scheduler.current_frame, 1);
}

#[test]
fn suboptimal_present_recreates() {
    let caps = caps(640, 480);
    let mut engine = Engine::new(&caps, 2, FORMAT, PRESENT_MODE, QUAD_INDEX_COUNT);
    let r = engine.tick(AcquireOutcome::Ready(0), PresentOutcome::Suboptimal, &caps);
    assert_eq!(r, Ok(TickOutcome::Recreated));
    assert_eq!(engine.scheduler.current_frame, 0);
}

#[test]
fn stale_present_recreates() {
    let caps = caps(640, 480);
    let mut engine = Engine::new(&caps, 2, FORMAT, PRESENT_MODE, QUAD_INDEX_COUNT);
    let r = engine.tick(AcquireOutcome::Ready(0), PresentOutcome::OutOfDate, &caps);
    assert_eq!(r, Ok(TickOutcome::Recreated));
    assert_eq!(engine.scheduler.current_frame, 0);
}

#[test]
fn unexpected_acquire_status_is_fatal() {
    let caps = caps(640, 480);
    let mut engine = Engine::new(&caps, 2, FORMAT, PRESENT_MODE, QUAD_INDEX_COUNT);
    let r = engine.tick(AcquireOutcome::Failure, PresentOutcome::Presented, &caps);
    assert_eq!(r, Err(EngineError::UnexpectedStatus));
    assert_eq!(engine.scheduler.current_frame, 0);
}

#[test]
fn out_of_range_image_index_is_fatal() {
    let caps = caps(640, 480);
    let mut engine = Engine::new(&caps, 2, FORMAT, PRESENT_MODE, QUAD_INDEX_COUNT);
    let r = engine.tick(AcquireOutcome::Ready(9), PresentOutcome::Presented, &caps);
    assert_eq!(r, Err(EngineError::UnexpectedStatus));
}

#[test]
fn unexpected_present_status_is_fatal() {
    let caps = caps(640, 480);
    let mut engine = Engine::new(&caps, 2, FORMAT, PRESENT_MODE, QUAD_INDEX_COUNT);
    let r = engine.tick(AcquireOutcome::Ready(0), PresentOutcome::Failure, &caps);
    assert_eq!(r, Err(EngineError::UnexpectedStatus));
}

#[test]
fn in_flight_work_never_exceeds_slot_count() {
    let caps = caps(640, 480);
    let mut engine = Engine::new(&caps, 2, FORMAT, PRESENT_MODE, QUAD_INDEX_COUNT);
    assert_eq!(busy_slots(&engine), 0);
    let images = [0u32, 1, 2, 0, 1, 2, 0, 1];
    for &image in images.iter() {
        let r = engine.tick(AcquireOutcome::Ready(image), PresentOutcome::Presented, &caps);
        assert!(r.is_ok());
        assert!(busy_slots(&engine) <= engine.scheduler.slots.len());
    }
}

#[test]
fn consecutive_stale_acquires_each_run_one_recreation() {
    let caps = caps(640, 480);
    let mut engine = Engine::new(&caps, 2, FORMAT, PRESENT_MODE, QUAD_INDEX_COUNT);
    // Each stale tick is absorbed by its own recreation cycle; the cursor
    // never moves.
    for _ in 0..2 {
        let r = engine.tick(AcquireOutcome::OutOfDate, PresentOutcome::Presented, &caps);
        assert_eq!(r, Ok(TickOutcome::Recreated));
        assert_eq!(engine.scheduler.current_frame, 0);
    }
    let r = engine.tick(AcquireOutcome::Ready(0), PresentOutcome::Presented, &caps);
    assert_eq!(r, Ok(TickOutcome::Completed(0)));
}

#[test]
fn recreation_is_idempotent_for_an_unchanged_surface() {
    let caps = caps(640, 480);
    let mut engine = Engine::new(&caps, 2, FORMAT, PRESENT_MODE, QUAD_INDEX_COUNT);
    engine
        .tick(AcquireOutcome::OutOfDate, PresentOutcome::Presented, &caps)
        .unwrap();
    let extent = engine.bundle.extent;
    let count = engine.bundle.images.len();
    engine
        .tick(AcquireOutcome::OutOfDate, PresentOutcome::Presented, &caps)
        .unwrap();
    assert_eq!(engine.bundle.extent, extent);
    assert_eq!(engine.bundle.images.len(), count);
}
