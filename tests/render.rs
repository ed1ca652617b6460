use raytracer::render::{
    frame_step, x_y_vec, FrameAction, Merge, RenderAction, RenderJob, RenderState, WorkerEvent,
};
use raytracer::vector::Vec2D;

#[test]
fn grid_runs_rows_upward_with_height_offset() {
    let grid = x_y_vec(Vec2D::new(2u32, 2u32));
    assert_eq!(
        grid,
        vec![Vec2D::new(0, 2), Vec2D::new(1, 2), Vec2D::new(0, 1), Vec2D::new(1, 1)]
    );
}

#[test]
fn grid_size_is_width_times_height() {
    assert_eq!(x_y_vec(Vec2D::new(80u32, 60u32)).len(), 4800);
    assert!(x_y_vec(Vec2D::new(0u32, 60u32)).is_empty());
}

#[test]
fn samples_split_evenly_dropping_remainder() {
    let job = RenderJob::new(10, 3);
    assert_eq!(job.samples_per_worker, 3);
    assert_eq!(job.running, 3);
    assert_eq!(RenderJob::new(100, 1).samples_per_worker, 100);
    assert_eq!(RenderJob::new(2, 4).samples_per_worker, 0);
}

#[test]
fn first_frame_taken_then_averaged_then_published() {
    let mut job = RenderJob::new(8, 3);
    assert_eq!(
        job.worker_ended(WorkerEvent::Finished),
        RenderAction { merge: Some(Merge::Take), publish: false }
    );
    assert_eq!(
        job.worker_ended(WorkerEvent::Finished),
        RenderAction { merge: Some(Merge::Average), publish: false }
    );
    assert_eq!(
        job.worker_ended(WorkerEvent::Finished),
        RenderAction { merge: Some(Merge::Average), publish: true }
    );
    assert_eq!(job.running, 0);
    assert_eq!(job.merged, 3);
}

#[test]
fn failed_worker_contributes_nothing_but_counts() {
    let mut job = RenderJob::new(8, 2);
    assert_eq!(
        job.worker_ended(WorkerEvent::Failed),
        RenderAction { merge: None, publish: false }
    );
    assert_eq!(
        job.worker_ended(WorkerEvent::Finished),
        RenderAction { merge: Some(Merge::Take), publish: true }
    );
}

#[test]
fn single_worker_takes_and_publishes() {
    let mut job = RenderJob::new(5, 1);
    assert_eq!(job.samples_per_worker, 5);
    assert_eq!(
        job.worker_ended(WorkerEvent::Finished),
        RenderAction { merge: Some(Merge::Take), publish: true }
    );
}

#[test]
fn frame_steps() {
    assert_eq!(
        frame_step(RenderState::FullRender, 100, 4),
        (FrameAction::StartFullRender { rays_per_pixel: 100 }, RenderState::RenderingFreeze)
    );
    assert_eq!(
        frame_step(RenderState::PreviewRender, 100, 4),
        (FrameAction::StartFullRender { rays_per_pixel: 4 }, RenderState::RenderingFreeze)
    );
    assert_eq!(
        frame_step(RenderState::StandByMode, 100, 4),
        (FrameAction::DrawPreview, RenderState::StandByMode)
    );
    assert_eq!(
        frame_step(RenderState::RenderingFreeze, 100, 4),
        (FrameAction::Nothing, RenderState::StandByMode)
    );
    assert_eq!(
        frame_step(RenderState::FinishedFullRender, 100, 4),
        (FrameAction::Nothing, RenderState::StandByMode)
    );
    assert_eq!(RenderState::default(), RenderState::StandByMode);
}
