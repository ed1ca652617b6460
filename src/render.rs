use vstd::prelude::*;
use crate::vector::Vec2D;

verus! {

/// The pixel that the grid visits at position `i`: rows are walked from the
/// first up, and within a row the columns from the left; row `y` stands at
/// height `h - y`.
pub open spec fn grid_pixel(size: Vec2D<u32>, i: int) -> Vec2D<u32> {
    Vec2D { x: (i % size.x as int) as u32, y: (size.y - i / size.x as int) as u32 }
}

/// Every pixel of a grid of the given size, in the order in which the samplers
/// visit them.
pub fn x_y_vec(size: Vec2D<u32>) -> (r: Vec<Vec2D<u32>>)
    requires
        (size.x as nat) * (size.y as nat) <= usize::MAX,
    ensures
        r@.len() == (size.x as nat) * (size.y as nat),
        forall|i: int| 0 <= i < r@.len() ==> #[trigger] r@[i] == grid_pixel(size, i),
{
    let mut out: Vec<Vec2D<u32>> = Vec::new();
    let mut y: u32 = 0;
    while y < size.y
        invariant
            y <= size.y,
            (size.x as nat) * (size.y as nat) <= usize::MAX,
            out@.len() == (size.x as nat) * (y as nat),
            forall|i: int| 0 <= i < out@.len() ==> #[trigger] out@[i] == grid_pixel(size, i),
        decreases size.y - y,
    {
        let mut x: u32 = 0;
        while x < size.x
            invariant
                y < size.y,
                x <= size.x,
                (size.x as nat) * (size.y as nat) <= usize::MAX,
                out@.len() == (size.x as nat) * (y as nat) + x,
                forall|i: int| 0 <= i < out@.len() ==> #[trigger] out@[i] == grid_pixel(size, i),
            decreases size.x - x,
        {
            proof {
                let i = (size.x as nat) * (y as nat) + x;
                assert((size.x as nat) * (y as nat) == (y as int) * (size.x as int)) by (nonlinear_arith);
                vstd::arithmetic::div_mod::lemma_fundamental_div_mod_converse(
                    i as int,
                    size.x as int,
                    y as int,
                    x as int,
                );
            }
            out.push(Vec2D::new(x, size.y - y));
            x = x + 1;
        }
        proof {
            assert((size.x as nat) * (y as nat) + size.x == (size.x as nat) * ((y + 1) as nat))
                by (nonlinear_arith);
        }
        y = y + 1;
    }
    out
}

/// Where the interactive renderer stands between two animation frames.
#[derive(Clone, Copy, Debug, PartialEq, Eq)]
pub enum RenderState {
    /// Navigating: each frame shows a fresh preview.
    StandByMode,
    /// A full render at preview quality was asked for.
    PreviewRender,
    /// A full render at full quality was asked for.
    FullRender,
    /// A full render runs; the screen is left as it is.
    RenderingFreeze,
    /// A finished full render is on screen.
    FinishedFullRender,
}

impl Default for RenderState {
    fn default() -> (r: RenderState)
        ensures
            r == RenderState::StandByMode,
    {
        RenderState::StandByMode
    }
}

/// What the driver does on an animation frame.
#[derive(Clone, Copy, Debug, PartialEq, Eq)]
pub enum FrameAction {
    /// Draw a single-sample preview of the current scene.
    DrawPreview,
    /// Start a full render with this many rays per pixel, on all cores.
    StartFullRender { rays_per_pixel: u32 },
    /// Draw nothing.
    Nothing,
}

/// The action of an animation frame in `state`, and the state after it.
pub open spec fn frame_spec(state: RenderState, full_rays: u32, preview_rays: u32) -> (
    FrameAction,
    RenderState,
) {
    match state {
        RenderState::FullRender => (
            FrameAction::StartFullRender { rays_per_pixel: full_rays },
            RenderState::RenderingFreeze,
        ),
        RenderState::PreviewRender => (
            FrameAction::StartFullRender { rays_per_pixel: preview_rays },
            RenderState::RenderingFreeze,
        ),
        RenderState::StandByMode => (FrameAction::DrawPreview, RenderState::StandByMode),
        _ => (FrameAction::Nothing, RenderState::StandByMode),
    }
}

/// Decides an animation frame: a requested render starts and freezes the
/// screen, stand-by draws a preview, and any other state falls back to
/// stand-by.
pub fn frame_step(state: RenderState, full_rays: u32, preview_rays: u32) -> (r: (
    FrameAction,
    RenderState,
))
    ensures
        r == frame_spec(state, full_rays, preview_rays),
{
    match state {
        RenderState::FullRender => (
            FrameAction::StartFullRender { rays_per_pixel: full_rays },
            RenderState::RenderingFreeze,
        ),
        RenderState::PreviewRender => (
            FrameAction::StartFullRender { rays_per_pixel: preview_rays },
            RenderState::RenderingFreeze,
        ),
        RenderState::StandByMode => (FrameAction::DrawPreview, RenderState::StandByMode),
        _ => (FrameAction::Nothing, RenderState::StandByMode),
    }
}

/// What a finished worker's partial frame does to the accumulated frame.
#[derive(Clone, Copy, Debug, PartialEq, Eq)]
pub enum Merge {
    /// Nothing was accumulated yet: the partial frame becomes the accumulator.
    Take,
    /// Each pixel of the accumulator becomes the mean of itself and the
    /// partial frame's pixel.
    Average,
}

/// How a worker of a full render ended.
#[derive(Clone, Copy, Debug, PartialEq, Eq)]
pub enum WorkerEvent {
    /// It delivered its partial frame.
    Finished,
    /// It failed and contributes nothing.
    Failed,
}

/// What the driver does after a worker ended.
#[derive(Clone, Copy, Debug, PartialEq, Eq)]
pub struct RenderAction {
    /// How to merge the worker's partial frame, if it delivered one.
    pub merge: Option<Merge>,
    /// Whether the accumulated frame is now complete and is to be published.
    pub publish: bool,
}

/// The bookkeeping of one full render split among workers.
#[derive(Clone, Copy, Debug, PartialEq, Eq)]
pub struct RenderJob {
    /// How many workers were started.
    pub workers: u32,
    /// How many of them have not ended yet.
    pub running: u32,
    /// How many rays each worker traces through each pixel.
    pub samples_per_worker: u32,
    /// How many partial frames have been merged so far.
    pub merged: u32,
}

/// The job at its start: every worker runs, and the rays per pixel are split
/// evenly among them, the remainder being dropped.
pub open spec fn job_start(rays_per_pixel: u32, workers: u32) -> RenderJob {
    RenderJob {
        workers,
        running: workers,
        samples_per_worker: (rays_per_pixel / workers) as u32,
        merged: 0,
    }
}

/// What the driver is to do when a worker of `job` ends with `ev`.
pub open spec fn job_action(job: RenderJob, ev: WorkerEvent) -> RenderAction {
    RenderAction {
        merge: match ev {
            WorkerEvent::Finished => Some(if job.merged == 0 { Merge::Take } else { Merge::Average }),
            WorkerEvent::Failed => None,
        },
        publish: job.running == 1,
    }
}

/// The job after a worker ended with `ev`.
pub open spec fn job_next(job: RenderJob, ev: WorkerEvent) -> RenderJob {
    RenderJob {
        running: (job.running - 1) as u32,
        merged: match ev {
            WorkerEvent::Finished => (job.merged + 1) as u32,
            WorkerEvent::Failed => job.merged,
        },
        ..job
    }
}

/// The job is consistent: no more workers ended or merged than were started.
pub open spec fn job_wf(job: RenderJob) -> bool {
    &&& job.workers > 0
    &&& job.running <= job.workers
    &&& job.merged + job.running <= job.workers
}

impl RenderJob {
    /// Starts the bookkeeping of a render of `rays_per_pixel` rays per pixel
    /// over `workers` workers.
    pub fn new(rays_per_pixel: u32, workers: u32) -> (r: Self)
        requires
            workers > 0,
        ensures
            r == job_start(rays_per_pixel, workers),
            job_wf(r),
    {
        RenderJob { workers, running: workers, samples_per_worker: rays_per_pixel / workers, merged: 0 }
    }

    /// Records that a running worker ended, and says what to do with its
    /// output: the first delivered frame is taken, later ones are averaged in,
    /// and the frame is published when the last worker ends.
    pub fn worker_ended(&mut self, ev: WorkerEvent) -> (a: RenderAction)
        requires
            job_wf(*old(self)),
            old(self).running > 0,
        ensures
            a == job_action(*old(self), ev),
            *final(self) == job_next(*old(self), ev),
            job_wf(*final(self)),
    {
        let merge = match ev {
            WorkerEvent::Finished => Some(if self.merged == 0 { Merge::Take } else { Merge::Average }),
            WorkerEvent::Failed => None,
        };
        let publish = self.running == 1;
        self.running = self.running - 1;
        if let WorkerEvent::Finished = ev {
            self.merged = self.merged + 1;
        }
        RenderAction { merge, publish }
    }
}

/// The actions taken, one per event, when the events arrive in order.
pub open spec fn job_actions(job: RenderJob, evs: Seq<WorkerEvent>) -> Seq<RenderAction>
    decreases evs.len(),
{
    if evs.len() == 0 {
        Seq::empty()
    } else {
        seq![job_action(job, evs[0])] + job_actions(job_next(job, evs[0]), evs.drop_first())
    }
}

proof fn lemma_actions_len(job: RenderJob, evs: Seq<WorkerEvent>)
    ensures
        job_actions(job, evs).len() == evs.len(),
    decreases evs.len(),
{
    if evs.len() > 0 {
        lemma_actions_len(job_next(job, evs[0]), evs.drop_first());
    }
}

proof fn lemma_action_at(job: RenderJob, evs: Seq<WorkerEvent>, k: int)
    requires
        0 < k < evs.len(),
    ensures
        job_actions(job, evs)[k] == job_actions(job_next(job, evs[0]), evs.drop_first())[k - 1],
{
    lemma_actions_len(job_next(job, evs[0]), evs.drop_first());
}

/// Whatever each worker's end, when all the workers of a render end the frame
/// is published exactly once, when the last one ends.
pub proof fn lemma_published_once(job: RenderJob, evs: Seq<WorkerEvent>)
    requires
        job_wf(job),
        evs.len() == job.running,
    ensures
        job_actions(job, evs).len() == evs.len(),
        forall|k: int|
            0 <= k < evs.len() ==> (#[trigger] job_actions(job, evs)[k].publish <==> k == evs.len()
                - 1),
    decreases evs.len(),
{
    lemma_actions_len(job, evs);
    if evs.len() > 0 {
        let next = job_next(job, evs[0]);
        lemma_published_once(next, evs.drop_first());
        let rest = job_actions(next, evs.drop_first());
        assert forall|k: int| 0 <= k < evs.len() implies (#[trigger] job_actions(job, evs)[k].publish
            <==> k == evs.len() - 1) by {
            if k > 0 {
                lemma_action_at(job, evs, k);
            }
        }
    }
}

/// With a single worker, the full render is the single-threaded one: that
/// worker traces every ray of each pixel, its frame is taken as it is, and it
/// is published at once.
pub proof fn lemma_single_worker(rays_per_pixel: u32)
    ensures
        job_start(rays_per_pixel, 1).samples_per_worker == rays_per_pixel,
        job_action(job_start(rays_per_pixel, 1), WorkerEvent::Finished) == (RenderAction {
            merge: Some(Merge::Take),
            publish: true,
        }),
{
}

/// The first partial frame delivered is taken as it is, and each later one is
/// averaged into the accumulator.
pub proof fn lemma_take_then_average(job: RenderJob, evs: Seq<WorkerEvent>, k: int)
    requires
        job_wf(job),
        job.merged == 0,
        evs.len() == job.running,
        0 <= k < evs.len(),
        evs[k] == WorkerEvent::Finished,
    ensures
        job_actions(job, evs)[k].merge == Some(
            if (exists|j: int| 0 <= j < k && evs[j] == WorkerEvent::Finished) {
                Merge::Average
            } else {
                Merge::Take
            },
        ),
    decreases evs.len(),
{
    lemma_actions_len(job, evs);
    if k > 0 {
        lemma_action_at(job, evs, k);
        let next = job_next(job, evs[0]);
        if evs[0] == WorkerEvent::Finished {
            lemma_merged_stays_positive(next, evs.drop_first(), k - 1);
            assert(exists|j: int| 0 <= j < k && evs[j] == WorkerEvent::Finished) by {
                assert(evs[0] == WorkerEvent::Finished);
            }
        } else {
            lemma_take_then_average(next, evs.drop_first(), k - 1);
            assert forall|j: int| 0 <= j < k - 1 implies (evs.drop_first()[j] == WorkerEvent::Finished <==> evs[j + 1]
                == WorkerEvent::Finished) by {}
            if exists|j: int| 0 <= j < k && evs[j] == WorkerEvent::Finished {
                let j = choose|j: int| 0 <= j < k && evs[j] == WorkerEvent::Finished;
                assert(evs.drop_first()[j - 1] == WorkerEvent::Finished);
            }
        }
    }
}

proof fn lemma_merged_stays_positive(job: RenderJob, evs: Seq<WorkerEvent>, k: int)
    requires
        job_wf(job),
        job.merged > 0,
        evs.len() == job.running,
        0 <= k < evs.len(),
        evs[k] == WorkerEvent::Finished,
    ensures
        job_actions(job, evs)[k].merge == Some(Merge::Average),
    decreases evs.len(),
{
    lemma_actions_len(job, evs);
    if k > 0 {
        lemma_action_at(job, evs, k);
        lemma_merged_stays_positive(job_next(job, evs[0]), evs.drop_first(), k - 1);
    }
}

} // verus!
