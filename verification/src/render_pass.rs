//! The composite stage: a fixed full-screen textured quad, a draw pipeline
//! that samples the compute stage's image with a static nearest-neighbour
//! sampler, and a single-subpass render pass that clears the presentable
//! image and draws the quad over it.
//!
//! The quad's clip-space coordinates are exact whole units (the quad spans
//! [-1, 1] x [-1, 1]), so geometry is carried as integers; the process
//! around the engine converts them to the GPU's floating-point vertex format
//! when uploading.

use vstd::prelude::*;

verus! {

use crate::gpu_sync::{DeviceTimeline, GpuFutureToken, GpuOp, ImageHandle, Submission};

/// One vertex of the composite quad: a 2D clip-space position and a 2D
/// texture coordinate.
#[derive(Clone, Copy, PartialEq, Eq, Debug)]
pub struct TexturedVertex {
    pub position: (i64, i64),
    pub tex_coords: (i64, i64),
}

/// How a sampler filters between texels.
#[derive(Clone, Copy, PartialEq, Eq, Debug)]
pub enum SamplerFilter {
    Nearest,
    Linear,
}

/// How a sampler resolves texture coordinates outside [0, 1].
#[derive(Clone, Copy, PartialEq, Eq, Debug)]
pub enum SamplerAddressing {
    Repeat,
    ClampToEdge,
}

/// The sampler state bound next to the image in a composite descriptor set.
#[derive(Clone, Copy, PartialEq, Eq, Debug)]
pub struct SamplerConfig {
    pub mag_filter: SamplerFilter,
    pub min_filter: SamplerFilter,
    pub mipmap_mode: SamplerFilter,
    pub address_mode: SamplerAddressing,
}

/// The one sampler the composite stage ever uses: nearest-neighbour,
/// repeat-addressing.
pub open spec fn nearest_repeat_sampler() -> SamplerConfig {
    SamplerConfig {
        mag_filter: SamplerFilter::Nearest,
        min_filter: SamplerFilter::Nearest,
        mipmap_mode: SamplerFilter::Nearest,
        address_mode: SamplerAddressing::Repeat,
    }
}

/// A combined image-plus-sampler binding at one binding index of a
/// descriptor set.
#[derive(Clone, Copy, PartialEq, Eq, Debug)]
pub struct DescriptorBinding {
    pub binding: u32,
    pub image_id: u64,
    pub sampler: SamplerConfig,
}

/// The secondary command buffer the draw pipeline records: viewport, the
/// image-plus-sampler binding, and one indexed draw.
#[derive(Clone, Copy, PartialEq, Eq, Debug)]
pub struct DrawCommands {
    pub viewport: (u32, u32),
    pub binding: DescriptorBinding,
    pub index_count: u32,
    pub instance_count: u32,
}

/// What the render pass clears its single color attachment to.
#[derive(Clone, Copy, PartialEq, Eq, Debug)]
pub enum ClearColor {
    TransparentBlack,
}

/// The primary command buffer the composite stage submits for one frame: the
/// presentable image its framebuffer wraps, the clear, and the quad draw
/// executed inside the render pass.
#[derive(Clone, Copy, PartialEq, Eq, Debug)]
pub struct CompositeCommands {
    pub target_image: u64,
    pub clear: ClearColor,
    pub draw: DrawCommands,
}

/// The four corners of a `width` by `height` quad centred on the clip-space
/// origin, each with its texture coordinate. Odd extents truncate toward
/// zero, exactly as the halving of the extent does in the builder.
pub open spec fn quad_vertices(width: i64, height: i64) -> Seq<TexturedVertex>
    recommends
        0 <= width,
        0 <= height,
{
    let half_w = (width as int) / 2;
    let half_h = (height as int) / 2;
    seq![
        (TexturedVertex { position: ((-half_w) as i64, (-half_h) as i64), tex_coords: (0i64, 1i64) }),
        (TexturedVertex { position: ((-half_w) as i64, half_h as i64), tex_coords: (0i64, 0i64) }),
        (TexturedVertex { position: (half_w as i64, half_h as i64), tex_coords: (1i64, 0i64) }),
        (TexturedVertex { position: (half_w as i64, (-half_h) as i64), tex_coords: (1i64, 1i64) }),
    ]
}

/// The index order of the quad's two triangles.
pub open spec fn quad_indices() -> Seq<u32> {
    seq![0u32, 2u32, 1u32, 0u32, 3u32, 2u32]
}

/// Builds the static quad geometry: four vertices covering a `width` by
/// `height` rectangle centred on the clip-space origin, indexed as two
/// triangles with winding 0,2,1,0,3,2.
pub fn textured_quad(width: i64, height: i64) -> (quad: (Vec<TexturedVertex>, Vec<u32>))
    requires
        0 <= width,
        0 <= height,
    ensures
        quad.0@ == quad_vertices(width, height),
        quad.1@ == quad_indices(),
{
    let half_w: i64 = width / 2;
    let half_h: i64 = height / 2;
    let neg_half_w: i64 = -half_w;
    let neg_half_h: i64 = -half_h;
    let vertices: Vec<TexturedVertex> = vec![
        TexturedVertex { position: (neg_half_w, neg_half_h), tex_coords: (0, 1) },
        TexturedVertex { position: (neg_half_w, half_h), tex_coords: (0, 0) },
        TexturedVertex { position: (half_w, half_h), tex_coords: (1, 0) },
        TexturedVertex { position: (half_w, neg_half_h), tex_coords: (1, 1) },
    ];
    let indices: Vec<u32> = vec![0, 2, 1, 0, 3, 2];
    proof {
        assert(vertices@ =~= quad_vertices(width, height));
        assert(indices@ =~= quad_indices());
    }
    (vertices, indices)
}

/// The secondary draw the pipeline records for a given viewport and source
/// image: the image bound with the static sampler at binding 0, all six quad
/// indices drawn once.
pub open spec fn quad_draw_commands(viewport: (u32, u32), image: ImageHandle) -> DrawCommands {
    DrawCommands {
        viewport,
        binding: DescriptorBinding {
            binding: 0,
            image_id: image.image_id,
            sampler: nearest_repeat_sampler(),
        },
        index_count: 6,
        instance_count: 1,
    }
}

/// The composite draw pipeline: the graphics queue it records for and the
/// static quad geometry, built once at construction and uploaded once. (The
/// GPU-side pipeline object and the vertex and index buffers that receive
/// this data live with the process that owns the device.)
pub struct DrawPipeline {
    pub gfx_queue: u64,
    pub vertices: Vec<TexturedVertex>,
    pub indices: Vec<u32>,
}

impl DrawPipeline {
    /// The quad never changes after construction: it is always the exact
    /// full-screen quad.
    pub open spec fn wf(&self) -> bool {
        &&& self.vertices@ == quad_vertices(2, 2)
        &&& self.indices@ == quad_indices()
    }

    /// Builds the pipeline state around the full-screen quad (extent 2 by 2:
    /// clip space runs from -1 to 1 on both axes).
    pub fn new(gfx_queue: u64) -> (pipeline: DrawPipeline)
        ensures
            pipeline.wf(),
            pipeline.gfx_queue == gfx_queue,
    {
        let (vertices, indices) = textured_quad(2, 2);
        DrawPipeline { gfx_queue, vertices, indices }
    }

    /// Records the secondary draw of the quad over the whole viewport,
    /// sampling `image`. The descriptor set is rebuilt on every call: the
    /// bound image reference may change from frame to frame, so no
    /// cross-frame caching of it is safe.
    pub fn draw(&self, viewport_dimensions: (u32, u32), image: ImageHandle) -> (commands: DrawCommands)
        requires
            self.wf(),
        ensures
            commands == quad_draw_commands(viewport_dimensions, image),
    {
        let binding = self.create_image_sampler_nearest(image);
        let index_count: u32 = self.indices.len() as u32;
        DrawCommands { viewport: viewport_dimensions, binding, index_count, instance_count: 1 }
    }

    /// The descriptor set binding `image` with the fixed nearest-neighbour,
    /// repeat-addressing sampler at binding 0.
    fn create_image_sampler_nearest(&self, image: ImageHandle) -> (binding: DescriptorBinding)
        ensures
            binding == (DescriptorBinding {
                binding: 0,
                image_id: image.image_id,
                sampler: nearest_repeat_sampler(),
            }),
    {
        let sampler = SamplerConfig {
            mag_filter: SamplerFilter::Nearest,
            min_filter: SamplerFilter::Nearest,
            mipmap_mode: SamplerFilter::Nearest,
            address_mode: SamplerAddressing::Repeat,
        };
        DescriptorBinding { binding: 0, image_id: image.image_id, sampler }
    }
}

/// The submission `render` makes: a composite pass on the stage's graphics
/// queue, viewport equal to the target's dimensions, ordered after the work
/// with ticket `after_ticket`.
pub open spec fn composite_submission(
    stage: RenderPassPlaceOverFrame,
    after_ticket: usize,
    view: ImageHandle,
    target: ImageHandle,
) -> Submission {
    Submission {
        queue: stage.gfx_queue,
        after: after_ticket,
        op: GpuOp::Composite {
            commands: CompositeCommands {
                target_image: target.image_id,
                clear: ClearColor::TransparentBlack,
                draw: quad_draw_commands(target.size, view),
            },
        },
    }
}

/// The composite stage: a single-subpass render pass over one color
/// attachment of the surface's negotiated format, and the quad draw pipeline
/// bound to that subpass.
pub struct RenderPassPlaceOverFrame {
    pub gfx_queue: u64,
    pub output_format: u32,
    pub draw_pipeline: DrawPipeline,
}

impl RenderPassPlaceOverFrame {
    pub open spec fn wf(&self) -> bool {
        self.draw_pipeline.wf()
    }

    /// Builds the stage: the render pass for `output_format` and the quad
    /// draw pipeline bound to its only subpass.
    pub fn new(graphics_queue: u64, output_format: u32) -> (stage: RenderPassPlaceOverFrame)
        ensures
            stage.wf(),
            stage.gfx_queue == graphics_queue,
            stage.output_format == output_format,
            stage.draw_pipeline.gfx_queue == graphics_queue,
    {
        let draw_pipeline = DrawPipeline::new(graphics_queue);
        RenderPassPlaceOverFrame { gfx_queue: graphics_queue, output_format, draw_pipeline }
    }

    /// Records and submits one composite pass: wrap `target` in a
    /// framebuffer, clear it to transparent black, execute the quad draw
    /// sampling `view` with the viewport set to `target`'s dimensions, all
    /// ordered after `before`. This is the synchronization join point between
    /// the compute stage's write and this stage's read: the sampling of
    /// `view` is ordered on the device timeline after the work that `before`
    /// stands for, purely by chaining — never by a host-side wait.
    pub fn render(
        &self,
        timeline: &mut DeviceTimeline,
        before: GpuFutureToken,
        view: ImageHandle,
        target: ImageHandle,
    ) -> (after: GpuFutureToken)
        requires
            self.wf(),
            old(timeline).wf(),
            before.ticket() <= old(timeline).log().len(),
            old(timeline).log().len() < usize::MAX,
        ensures
            final(timeline).wf(),
            final(timeline).log() == old(timeline).log().push(
                composite_submission(*self, before.ticket(), view, target),
            ),
            after.ticket() == old(timeline).log().len() + 1,
            before.ticket() < after.ticket(),
    {
        let img_dims: (u32, u32) = target.size;
        let commands = self.draw_pipeline.draw(img_dims, view);
        let composite = CompositeCommands {
            target_image: target.image_id,
            clear: ClearColor::TransparentBlack,
            draw: commands,
        };
        timeline.then_execute(self.gfx_queue, before, GpuOp::Composite { commands: composite })
    }
}

} // verus!
