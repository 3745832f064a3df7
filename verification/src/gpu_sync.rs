//! The device timeline: every piece of GPU work the engine issues is a
//! `Submission` appended to a `DeviceTimeline`, and ordering between
//! submissions is carried by move-only `GpuFutureToken`s — chaining consumes
//! the prior token and produces a new one, never blocking the host.

use vstd::prelude::*;

verus! {

use crate::render_pass::CompositeCommands;
use crate::signed_distance_function_renderer::ComputeCommands;

/// Handle to a GPU-resident 2D color image: its identity and its fixed size
/// (width, height) in texels.
#[derive(Clone, Copy, PartialEq, Eq, Debug)]
pub struct ImageHandle {
    pub image_id: u64,
    pub size: (u32, u32),
}

/// The device work one submission carries.
#[derive(Clone, Copy, PartialEq, Eq, Debug)]
#[allow(inconsistent_fields)]
pub enum GpuOp {
    /// Acquisition of a presentable image of one window's surface.
    Acquire { window_id: u64 },
    /// One compute dispatch writing an off-screen image.
    Compute { commands: ComputeCommands },
    /// One composite pass drawing an off-screen image onto a presentable image.
    Composite { commands: CompositeCommands },
    /// Handing a presentable image back to the display compositor.
    Present { window_id: u64 },
}

/// One entry of the device timeline. The ticket of the submission stored at
/// index `i` of the log is `i + 1`; `after` is the ticket of the submission
/// this one must wait for, `0` meaning "waits for nothing".
#[derive(Clone, Copy, PartialEq, Eq, Debug)]
pub struct Submission {
    pub queue: u64,
    pub after: usize,
    pub op: GpuOp,
}

/// A completion token: "the device timeline has reached the submission with
/// this ticket". Move-only, like the future it stands for: extending the
/// chain consumes it.
pub struct GpuFutureToken {
    ticket: usize,
}

impl GpuFutureToken {
    /// The point of the device timeline this token stands for.
    pub closed spec fn ticket(&self) -> usize {
        self.ticket
    }
}

/// Every submission waits only for a submission made strictly before it.
pub open spec fn dependencies_precede(log: Seq<Submission>) -> bool {
    forall|i: int| 0 <= i < log.len() ==> (#[trigger] log[i]).after <= i
}

/// The log of GPU work submitted so far, in submission order. All submission
/// goes through `then_execute` (or the `acquire` and `present` wrappers), so
/// the log always satisfies `wf`.
pub struct DeviceTimeline {
    submissions: Vec<Submission>,
}

impl DeviceTimeline {
    /// Everything submitted so far, in submission order.
    pub closed spec fn log(&self) -> Seq<Submission> {
        self.submissions@
    }

    pub open spec fn wf(&self) -> bool {
        dependencies_precede(self.log())
    }

    pub fn new() -> (timeline: DeviceTimeline)
        ensures
            timeline.log() == Seq::<Submission>::empty(),
            timeline.wf(),
    {
        DeviceTimeline { submissions: Vec::new() }
    }

    /// How many submissions have been made.
    pub fn submission_count(&self) -> (n: usize)
        ensures
            n == self.log().len(),
    {
        self.submissions.len()
    }

    /// Reads one submission of the log.
    pub fn submission(&self, i: usize) -> (s: Submission)
        requires
            i < self.log().len(),
        ensures
            s == self.log()[i as int],
    {
        self.submissions[i]
    }

    /// A token for "now": the start of a chain, with no work attached and no
    /// dependency.
    pub fn now(&self) -> (token: GpuFutureToken)
        ensures
            token.ticket() == 0,
    {
        GpuFutureToken { ticket: 0 }
    }

    /// Submits `op` to `queue`, ordered on the device after the point that
    /// `before` stands for. Consumes `before`: a future is extended, never
    /// shared. Returns the token for the new head of the chain.
    pub fn then_execute(&mut self, queue: u64, before: GpuFutureToken, op: GpuOp) -> (after: GpuFutureToken)
        requires
            old(self).wf(),
            before.ticket() <= old(self).log().len(),
            old(self).log().len() < usize::MAX,
        ensures
            final(self).wf(),
            final(self).log() == old(self).log().push((Submission { queue, after: before.ticket(), op })),
            after.ticket() == old(self).log().len() + 1,
            before.ticket() < after.ticket(),
    {
        let t: usize = self.submissions.len();
        self.submissions.push(Submission { queue, after: before.ticket, op });
        GpuFutureToken { ticket: t + 1 }
    }

    /// Begins a frame for one window: acquires a presentable image from its
    /// surface. The returned future waits for nothing submitted earlier.
    pub fn acquire(&mut self, queue: u64, window_id: u64) -> (after: GpuFutureToken)
        requires
            old(self).wf(),
            old(self).log().len() < usize::MAX,
        ensures
            final(self).wf(),
            final(self).log() == old(self).log().push((Submission { queue, after: 0, op: GpuOp::Acquire { window_id } })),
            after.ticket() == old(self).log().len() + 1,
    {
        let start = self.now();
        self.then_execute(queue, start, GpuOp::Acquire { window_id })
    }

    /// Ends a frame for one window: hands the chain's final future to the
    /// present operation, which consumes it.
    pub fn present(&mut self, queue: u64, window_id: u64, before: GpuFutureToken)
        requires
            old(self).wf(),
            before.ticket() <= old(self).log().len(),
            old(self).log().len() < usize::MAX,
        ensures
            final(self).wf(),
            final(self).log() == old(self).log().push((Submission { queue, after: before.ticket(), op: GpuOp::Present { window_id } })),
    {
        let _token = self.then_execute(queue, before, GpuOp::Present { window_id });
    }
}

/// One execution order the device may choose: `schedule[k]` is the index into
/// `log` of the k-th submission to execute. An order is admissible when it
/// executes a submission at most once and starts none before the submission
/// it waits for has executed.
pub open spec fn admissible_schedule(log: Seq<Submission>, schedule: Seq<int>) -> bool {
    &&& forall|k: int| 0 <= k < schedule.len() ==> 0 <= #[trigger] schedule[k] < log.len()
    &&& forall|k1: int, k2: int|
        0 <= k1 < k2 < schedule.len() ==> #[trigger] schedule[k1] != #[trigger] schedule[k2]
    &&& forall|k: int|
        0 <= k < schedule.len() && log[#[trigger] schedule[k]].after >= 1 ==> exists|m: int|
            0 <= m < k && #[trigger] schedule[m] == log[schedule[k]].after - 1
}

/// LAW (dependency order): a submission is never observed to execute before
/// the submission it waits for, in any admissible execution order the device
/// may choose. `dep` and `sub` are log indices with `sub` waiting on `dep`'s
/// ticket; `k_dep` and `k_sub` are their positions in the execution order.
pub proof fn lemma_waits_precede(
    log: Seq<Submission>,
    schedule: Seq<int>,
    dep: int,
    sub: int,
    k_dep: int,
    k_sub: int,
)
    requires
        admissible_schedule(log, schedule),
        0 <= dep < log.len(),
        0 <= sub < log.len(),
        log[sub].after == dep + 1,
        0 <= k_dep < schedule.len(),
        schedule[k_dep] == dep,
        0 <= k_sub < schedule.len(),
        schedule[k_sub] == sub,
    ensures
        k_dep < k_sub,
{
    assert(log[schedule[k_sub]].after >= 1);
    assert(exists|m: int| 0 <= m < k_sub && #[trigger] schedule[m] == log[schedule[k_sub]].after - 1);
    let m = choose|m: int| 0 <= m < k_sub && #[trigger] schedule[m] == log[schedule[k_sub]].after - 1;
    assert(schedule[m] == dep);
    if m < k_dep {
        assert(schedule[m] != schedule[k_dep]);
        assert(false);
    }
    if k_dep < m {
        assert(schedule[k_dep] != schedule[m]);
        assert(false);
    }
    assert(m == k_dep);
}

} // verus!
