//! The compute stage: owns the off-screen target image, and on every
//! invocation re-records one dispatch that writes the elapsed time into the
//! image through a push constant, submitted strictly after the caller's
//! future. Pairs with the composite stage into the per-window pipeline.

use vstd::prelude::*;

verus! {

use crate::gpu_sync::{DeviceTimeline, GpuFutureToken, GpuOp, ImageHandle, Submission};
use crate::render_pass::RenderPassPlaceOverFrame;

/// Side length of the compute program's local workgroup: the binding
/// contract with the fixed shader program is an 8-by-8 tiling.
pub const COMPUTE_LOCAL_SIZE: u32 = 8;

/// One compute dispatch as recorded into a fresh command buffer: the image
/// bound read-write at binding 0, the elapsed time pushed as the single push
/// constant, and the workgroup grid.
#[derive(Clone, Copy, PartialEq, Eq, Debug)]
pub struct ComputeCommands {
    pub image_id: u64,
    /// nanoseconds since stage creation; the process around the engine
    /// converts this to the shader's floating-point "seconds" push constant
    pub push_time_nanos: u64,
    /// workgroup counts in x, y, z
    pub grid: (u32, u32, u32),
}

/// The workgroup grid for an image of the given size: floor division of each
/// axis by the 8-by-8 local workgroup size (documented truncation — the grid
/// is not rounded up), one layer in z.
pub open spec fn dispatch_grid(width: u32, height: u32) -> (u32, u32, u32) {
    (
        ((width as int) / (COMPUTE_LOCAL_SIZE as int)) as u32,
        ((height as int) / (COMPUTE_LOCAL_SIZE as int)) as u32,
        1u32,
    )
}

/// The submission `compute` makes: one dispatch on the stage's compute
/// queue, writing the stage's image, ordered after the work with ticket
/// `after_ticket`.
pub open spec fn compute_submission(
    stage: SimpleVulkanRendererComputePipeline,
    after_ticket: usize,
    elapsed_nanos: u64,
) -> Submission {
    Submission {
        queue: stage.compute_queue,
        after: after_ticket,
        op: GpuOp::Compute {
            commands: ComputeCommands {
                image_id: stage.image.image_id,
                push_time_nanos: elapsed_nanos,
                grid: dispatch_grid(stage.image.size.0, stage.image.size.1),
            },
        },
    }
}

/// What one `compute` invocation does to the stage itself: nothing. In
/// particular the off-screen image is never reallocated per frame.
pub open spec fn compute_preserves_stage(
    pre: SimpleVulkanRendererComputePipeline,
    post: SimpleVulkanRendererComputePipeline,
) -> bool {
    post == pre
}

/// The compute stage: the queue it submits to and the exclusively owned
/// off-screen color image, of a size fixed at creation for the stage's whole
/// lifetime. (The GPU-side pipeline object built from the fixed shader
/// program lives with the process that owns the device.)
pub struct SimpleVulkanRendererComputePipeline {
    pub compute_queue: u64,
    pub image: ImageHandle,
}

impl SimpleVulkanRendererComputePipeline {
    /// Creates the stage: the off-screen image of the given fixed size, under
    /// the identity the caller reserved for it, next to the compute pipeline
    /// built from the fixed shader program.
    pub fn new(compute_queue: u64, size: (u32, u32), image_id: u64) -> (stage: Self)
        ensures
            stage == (SimpleVulkanRendererComputePipeline {
                compute_queue,
                image: (ImageHandle { image_id, size }),
            }),
    {
        SimpleVulkanRendererComputePipeline { compute_queue, image: ImageHandle { image_id, size } }
    }

    /// The current output image. Callers must not mutate it; it is never
    /// reallocated, so every call returns the handle made at creation.
    pub fn color_image(&self) -> (image: ImageHandle)
        ensures
            image == self.image,
    {
        self.image
    }

    /// Records a fresh command buffer with one dispatch (the descriptor set
    /// and push constant are rebuilt every invocation, because the time value
    /// changes every frame) and submits it after `before`. Does not block the
    /// host: ordering is carried by the returned future alone.
    pub fn compute(
        &mut self,
        timeline: &mut DeviceTimeline,
        before: GpuFutureToken,
        elapsed_nanos: u64,
    ) -> (after: GpuFutureToken)
        requires
            old(timeline).wf(),
            before.ticket() <= old(timeline).log().len(),
            old(timeline).log().len() < usize::MAX,
        ensures
            compute_preserves_stage(*old(self), *final(self)),
            final(timeline).wf(),
            final(timeline).log() == old(timeline).log().push(
                compute_submission(*old(self), before.ticket(), elapsed_nanos),
            ),
            after.ticket() == old(timeline).log().len() + 1,
            before.ticket() < after.ticket(),
    {
        let commands = self.dispatch(elapsed_nanos);
        timeline.then_execute(self.compute_queue, before, GpuOp::Compute { commands })
    }

    /// Builds the dispatch: bind the pipeline, bind the image at binding 0,
    /// push the elapsed time, and dispatch the floor-divided workgroup grid.
    fn dispatch(&self, elapsed_nanos: u64) -> (commands: ComputeCommands)
        ensures
            commands == (ComputeCommands {
                image_id: self.image.image_id,
                push_time_nanos: elapsed_nanos,
                grid: dispatch_grid(self.image.size.0, self.image.size.1),
            }),
    {
        let dispatch_count_x: u32 = self.image.size.0 / COMPUTE_LOCAL_SIZE;
        let dispatch_count_y: u32 = self.image.size.1 / COMPUTE_LOCAL_SIZE;
        ComputeCommands {
            image_id: self.image.image_id,
            push_time_nanos: elapsed_nanos,
            grid: (dispatch_count_x, dispatch_count_y, 1),
        }
    }
}

/// LAW (image stability): two `compute` invocations in a row, with no
/// intervening reallocation, leave `color_image` returning a handle identical
/// in identity (and size) both times — the image is not rebuilt per frame.
pub proof fn lemma_color_image_stable(
    s0: SimpleVulkanRendererComputePipeline,
    s1: SimpleVulkanRendererComputePipeline,
    s2: SimpleVulkanRendererComputePipeline,
)
    requires
        compute_preserves_stage(s0, s1),
        compute_preserves_stage(s1, s2),
    ensures
        s2.image == s0.image,
        s2.image.image_id == s0.image.image_id,
{
}

/// The per-window pairing of one compute stage and one composite stage.
pub struct SimpleVulkanRendererRenderPipeline {
    pub compute: SimpleVulkanRendererComputePipeline,
    pub place_over_frame: RenderPassPlaceOverFrame,
}

impl SimpleVulkanRendererRenderPipeline {
    pub open spec fn wf(&self) -> bool {
        self.place_over_frame.wf()
    }

    /// Builds both stages for one window: the compute stage's off-screen
    /// image takes the window's initial size, the composite stage targets the
    /// surface's negotiated format.
    pub fn new(
        compute_queue: u64,
        graphics_queue: u64,
        size: (u32, u32),
        swap_chain_format: u32,
        image_id: u64,
    ) -> (pipeline: Self)
        ensures
            pipeline.wf(),
            pipeline.compute == (SimpleVulkanRendererComputePipeline {
                compute_queue,
                image: (ImageHandle { image_id, size }),
            }),
            pipeline.place_over_frame.gfx_queue == graphics_queue,
            pipeline.place_over_frame.output_format == swap_chain_format,
    {
        SimpleVulkanRendererRenderPipeline {
            compute: SimpleVulkanRendererComputePipeline::new(compute_queue, size, image_id),
            place_over_frame: RenderPassPlaceOverFrame::new(graphics_queue, swap_chain_format),
        }
    }
}

} // verus!
