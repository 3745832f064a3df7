//! The top-level application state and the frame loop's decisions: the live
//! registry mapping window identity to its surface state and pipeline pair,
//! event handling (close, resize, input), the fixed frame cadence, and the
//! per-window tick that chains acquire, compute, composite and present on the
//! device timeline.
//!
//! The process around the engine owns the event loop and the device: it
//! reduces platform events to `LoopEvent`s, performs the actual platform and
//! GPU calls, and mirrors every decision and submission recorded here.

use vstd::prelude::*;

verus! {

use crate::gpu_sync::{
    admissible_schedule, lemma_waits_precede, DeviceTimeline, GpuOp, ImageHandle, Submission,
};
use crate::render_pass::composite_submission;
use crate::signed_distance_function_renderer::{
    compute_submission, SimpleVulkanRendererComputePipeline, SimpleVulkanRendererRenderPipeline,
};
use crate::user_io::UserIO;

/// Target frame interval: one tick every sixtieth of a second, in
/// nanoseconds (rounded up: a frame is due once strictly more than 1/60 s of
/// elapsed time has accumulated).
pub const TARGET_FRAME_INTERVAL_NANOS: u64 = 16_666_667;

/// The fixed 60-per-second cadence: is the next frame due, given the time
/// elapsed since the last tick?
pub fn frame_due(elapsed_nanos: u64) -> (due: bool)
    ensures
        due == (elapsed_nanos >= TARGET_FRAME_INTERVAL_NANOS),
{
    elapsed_nanos >= TARGET_FRAME_INTERVAL_NANOS
}

/// The shared GPU context: the logical device and the two work queues, which
/// may alias one physical queue. Constructed once per process and read-only
/// afterwards; every component borrows it. The process-lifetime
/// command-buffer and descriptor-set allocators it owns are host-side objects
/// of the device owner and outlive every command buffer and descriptor set
/// built from them.
#[derive(Clone, Copy, PartialEq, Eq, Debug)]
pub struct GpuContext {
    pub device: u64,
    pub compute_queue: u64,
    pub graphics_queue: u64,
}

/// One live window: its identity, its surface state (current size, the
/// negotiated presentation format, and the generation of its presentable
/// images, bumped on every renegotiation), and its pipeline pair. Created
/// atomically when the window opens; removed atomically when it closes.
pub struct WindowEntry {
    pub window_id: u64,
    /// current window size in pixels; zero on an axis while minimized
    pub size: (u32, u32),
    pub surface_format: u32,
    /// presentable images of generation g carry identity g; a resize or
    /// scale-factor change renegotiates the surface and bumps this
    pub surface_generation: u64,
    pub pipeline: SimpleVulkanRendererRenderPipeline,
}

impl WindowEntry {
    pub open spec fn wf(&self) -> bool {
        self.pipeline.wf()
    }

    /// A window is minimized when either axis of its size is zero.
    pub open spec fn minimized(&self) -> bool {
        self.size.0 == 0 || self.size.1 == 0
    }
}

pub open spec fn has_window(windows: Seq<WindowEntry>, window_id: u64) -> bool {
    exists|i: int| 0 <= i < windows.len() && (#[trigger] windows[i]).window_id == window_id
}

pub open spec fn window_index(windows: Seq<WindowEntry>, window_id: u64) -> int {
    choose|i: int| 0 <= i < windows.len() && (#[trigger] windows[i]).window_id == window_id
}

pub open spec fn window_of(windows: Seq<WindowEntry>, window_id: u64) -> WindowEntry {
    windows[window_index(windows, window_id)]
}

pub open spec fn unique_window_ids(windows: Seq<WindowEntry>) -> bool {
    forall|i: int, j: int|
        0 <= i < j < windows.len() ==> (#[trigger] windows[i]).window_id != (
        #[trigger] windows[j]).window_id
}

pub open spec fn registry_wf(windows: Seq<WindowEntry>) -> bool {
    &&& unique_window_ids(windows)
    &&& forall|i: int| 0 <= i < windows.len() ==> (#[trigger] windows[i]).wf()
}

/// The registry after a close request for `window_id`: the entry removed if
/// present, everything else untouched.
pub open spec fn close_result(windows: Seq<WindowEntry>, window_id: u64) -> Seq<WindowEntry> {
    if has_window(windows, window_id) {
        windows.remove(window_index(windows, window_id))
    } else {
        windows
    }
}

/// A window's entry after its surface renegotiated at a new size: fresh
/// presentable images (generation bumped), pipeline untouched — compute and
/// composite resources are not reallocated on resize.
pub open spec fn renegotiated(entry: WindowEntry, width: u32, height: u32) -> WindowEntry {
    WindowEntry {
        window_id: entry.window_id,
        size: (width, height),
        surface_format: entry.surface_format,
        surface_generation: (entry.surface_generation + 1) as u64,
        pipeline: entry.pipeline,
    }
}

/// What `open_new_window` must have inserted: a complete entry — surface
/// state of the initial size and negotiated format, and both stages, wired
/// from the graphics queue (the two stage queues alias, as the window opener
/// wires them), the off-screen image sized like the window.
pub open spec fn opened_entry_matches(
    entry: WindowEntry,
    window_id: u64,
    image_id: u64,
    graphics_queue: u64,
    width: u32,
    height: u32,
    swapchain_format: u32,
) -> bool {
    &&& entry.window_id == window_id
    &&& entry.size == (width, height)
    &&& entry.surface_format == swapchain_format
    &&& entry.surface_generation == 0
    &&& entry.wf()
    &&& entry.pipeline.compute == (SimpleVulkanRendererComputePipeline {
        compute_queue: graphics_queue,
        image: (ImageHandle { image_id, size: (width, height) }),
    })
    &&& entry.pipeline.place_over_frame.gfx_queue == graphics_queue
    &&& entry.pipeline.place_over_frame.output_format == swapchain_format
}

/// The presentable image a successful acquire hands back: one of the current
/// swapchain generation, with the surface's current dimensions. It is
/// borrowed for one frame only: acquire, render into it, present.
pub open spec fn presentable_image(entry: WindowEntry) -> ImageHandle {
    ImageHandle { image_id: entry.surface_generation, size: entry.size }
}

/// The four submissions one rendered window tick appends, in order: acquire
/// the presentable image (waits for nothing), compute (after the acquire),
/// composite (after the compute), present (after the composite). `base` is
/// the length of the log before the tick, so the acquire's ticket is
/// `base + 1`.
pub open spec fn frame_submissions(entry: WindowEntry, base: int, elapsed_nanos: u64) -> Seq<
    Submission,
> {
    seq![
        (Submission {
            queue: entry.pipeline.place_over_frame.gfx_queue,
            after: 0,
            op: GpuOp::Acquire { window_id: entry.window_id },
        }),
        compute_submission(entry.pipeline.compute, (base + 1) as usize, elapsed_nanos),
        composite_submission(
            entry.pipeline.place_over_frame,
            (base + 2) as usize,
            entry.pipeline.compute.image,
            presentable_image(entry),
        ),
        (Submission {
            queue: entry.pipeline.place_over_frame.gfx_queue,
            after: (base + 3) as usize,
            op: GpuOp::Present { window_id: entry.window_id },
        }),
    ]
}

/// One platform event, as the frame loop consumes it, already reduced to
/// plain values. Pointer deltas are carried as the bit patterns of the
/// platform's 64-bit floats.
#[derive(Clone, Copy, PartialEq, Eq, Debug)]
pub enum LoopEvent {
    /// raw pointer motion (a device event, not tied to a window)
    MouseMotion { delta_x_bits: u64, delta_y_bits: u64 },
    /// the user asked to close this window
    CloseRequested { window_id: u64 },
    /// the window was resized to this size
    Resized { window_id: u64, width: u32, height: u32 },
    /// the window's scale factor changed, giving it this new size
    ScaleFactorChanged { window_id: u64, width: u32, height: u32 },
    /// a key went down or up
    KeyboardInput { window_id: u64, scancode: u32, pressed: bool },
    /// a mouse button event (observed; consumed by logic outside this core)
    MouseInput { window_id: u64 },
}

/// Does this event ask the whole loop to stop? Only a close request for the
/// primary window does.
pub open spec fn quit_requested(primary: Option<u64>, event: LoopEvent) -> bool {
    match event {
        LoopEvent::CloseRequested { window_id } => primary == Option::Some(window_id),
        _ => false,
    }
}

/// The per-tick decision for one window.
#[derive(Clone, Copy, PartialEq, Eq, Debug)]
pub enum FramePlan {
    /// minimized: attempt no acquire, compute, composite or present this tick
    SkipMinimized,
    /// acquire a presentable image and run the frame
    Render,
}

/// What one window tick did.
#[derive(Clone, Copy, PartialEq, Eq, Debug)]
pub enum TickOutcome {
    SkippedMinimized,
    Presented,
}

/// Borrows one registry entry mutably, pinning how the registry relates to
/// the entry's final value.
fn registry_entry_mut(windows: &mut Vec<WindowEntry>, index: usize) -> (entry: &mut WindowEntry)
    requires
        index < old(windows)@.len(),
    ensures
        *entry == old(windows)@[index as int],
        final(windows)@ == old(windows)@.update(index as int, *final(entry)),
{
    &mut windows[index]
}

/// The top-level application state the frame loop drives.
pub struct Application {
    context: GpuContext,
    windows: Vec<WindowEntry>,
    /// identity of the first window opened; a close request for it ends the
    /// frame loop (and does not remove it: teardown happens at process exit)
    primary_window_id: Option<u64>,
    next_window_id: u64,
    next_image_id: u64,
}

impl Application {
    /// The live registry, in opening order.
    pub closed spec fn windows_seq(&self) -> Seq<WindowEntry> {
        self.windows@
    }

    pub closed spec fn primary(&self) -> Option<u64> {
        self.primary_window_id
    }

    pub closed spec fn context(&self) -> GpuContext {
        self.context
    }

    pub closed spec fn next_window_id_spec(&self) -> u64 {
        self.next_window_id
    }

    pub closed spec fn next_image_id_spec(&self) -> u64 {
        self.next_image_id
    }

    /// Registry integrity: identities are unique and fresh ones never
    /// collide, every pipeline is well-formed, and the primary identity is
    /// only unset while no window was ever opened.
    pub closed spec fn wf(&self) -> bool {
        &&& registry_wf(self.windows@)
        &&& forall|i: int|
            0 <= i < self.windows@.len() ==> (#[trigger] self.windows@[i]).window_id
                < self.next_window_id
        &&& forall|i: int|
            0 <= i < self.windows@.len()
                ==> (#[trigger] self.windows@[i]).pipeline.compute.image.image_id
                < self.next_image_id
        &&& match self.primary_window_id {
            Option::Some(id) => id < self.next_window_id,
            Option::None => self.windows@.len() == 0,
        }
    }

    /// How many windows are live.
    pub fn window_count(&self) -> (n: usize)
        ensures
            n == self.windows_seq().len(),
    {
        self.windows.len()
    }

    /// Reads one registry entry by position (opening order).
    pub fn window(&self, index: usize) -> (entry: &WindowEntry)
        requires
            index < self.windows_seq().len(),
        ensures
            *entry == self.windows_seq()[index as int],
    {
        &self.windows[index]
    }

    /// The identity of the primary window, if one was opened.
    pub fn primary_window_id(&self) -> (id: Option<u64>)
        ensures
            id == self.primary(),
    {
        self.primary_window_id
    }

    /// Finds the registry position of a window identity.
    fn find_window(&self, window_id: u64) -> (index: Option<usize>)
        ensures
            match index {
                Option::Some(i) => i < self.windows_seq().len()
                    && self.windows_seq()[i as int].window_id == window_id,
                Option::None => !has_window(self.windows_seq(), window_id),
            },
    {
        let mut i: usize = 0;
        while i < self.windows.len()
            invariant
                i <= self.windows@.len(),
                forall|j: int| 0 <= j < i ==> (#[trigger] self.windows@[j]).window_id != window_id,
            decreases self.windows@.len() - i,
        {
            if self.windows[i].window_id == window_id {
                return Option::Some(i);
            }
            i = i + 1;
        }
        Option::None
    }

    /// Opens a window: atomically inserts one complete registry entry — the
    /// new surface of the given initial size and negotiated format paired
    /// with a freshly built pipeline pair whose off-screen image has the same
    /// fixed size, under a fresh image identity. (If surface or stage
    /// construction fails on the device, the caller discards everything and
    /// never reaches this insertion: no partial entry is ever retained.) The
    /// first window opened becomes the primary window. Returns the new
    /// window's identity, never one already live.
    pub fn open_new_window(&mut self, width: u32, height: u32, swapchain_format: u32) -> (window_id:
        u64)
        requires
            old(self).wf(),
            old(self).next_window_id_spec() < u64::MAX,
            old(self).next_image_id_spec() < u64::MAX,
        ensures
            final(self).wf(),
            window_id == old(self).next_window_id_spec(),
            !has_window(old(self).windows_seq(), window_id),
            final(self).windows_seq().len() == old(self).windows_seq().len() + 1,
            final(self).windows_seq().drop_last() == old(self).windows_seq(),
            opened_entry_matches(
                final(self).windows_seq().last(),
                window_id,
                old(self).next_image_id_spec(),
                old(self).context().graphics_queue,
                width,
                height,
                swapchain_format,
            ),
            final(self).primary() == (match old(self).primary() {
                Option::Some(p) => Option::Some(p),
                Option::None => Option::Some(window_id),
            }),
            final(self).context() == old(self).context(),
            final(self).next_window_id_spec() == old(self).next_window_id_spec() + 1,
            final(self).next_image_id_spec() == old(self).next_image_id_spec() + 1,
            has_window(final(self).windows_seq(), window_id),
    {
        let window_id: u64 = self.next_window_id;
        let image_id: u64 = self.next_image_id;
        let graphics_queue: u64 = self.context.graphics_queue;
        proof {
            if has_window(self.windows@, window_id) {
                let i = choose|i: int|
                    0 <= i < self.windows@.len() && (#[trigger] self.windows@[i]).window_id
                        == window_id;
                assert(self.windows@[i].window_id < self.next_window_id);
                assert(false);
            }
        }
        let pipeline = SimpleVulkanRendererRenderPipeline::new(
            graphics_queue,
            graphics_queue,
            (width, height),
            swapchain_format,
            image_id,
        );
        let entry = WindowEntry {
            window_id,
            size: (width, height),
            surface_format: swapchain_format,
            surface_generation: 0,
            pipeline,
        };
        self.windows.push(entry);
        self.next_window_id = window_id + 1;
        self.next_image_id = image_id + 1;
        match self.primary_window_id {
            Option::Some(_) => {},
            Option::None => {
                self.primary_window_id = Option::Some(window_id);
            },
        }
        proof {
            let ws = self.windows@;
            let pre = old(self).windows_seq();
            assert(ws.drop_last() =~= pre);
            assert forall|i: int, j: int| 0 <= i < j < ws.len() implies (
            #[trigger] ws[i]).window_id != (#[trigger] ws[j]).window_id by {
                if j < ws.len() - 1 {
                    assert(ws[i] == pre[i]);
                    assert(ws[j] == pre[j]);
                } else {
                    assert(ws[i] == pre[i]);
                    assert(pre[i].window_id < window_id);
                }
            }
            assert forall|i: int| 0 <= i < ws.len() implies (#[trigger] ws[i]).wf() by {
                if i < ws.len() - 1 {
                    assert(ws[i] == pre[i]);
                }
            }
            assert forall|i: int| 0 <= i < ws.len() implies (#[trigger] ws[i]).window_id
                < self.next_window_id by {
                if i < ws.len() - 1 {
                    assert(ws[i] == pre[i]);
                }
            }
            assert forall|i: int| 0 <= i < ws.len() implies (
            #[trigger] ws[i]).pipeline.compute.image.image_id < self.next_image_id by {
                if i < ws.len() - 1 {
                    assert(ws[i] == pre[i]);
                }
            }
        }
        window_id
    }

    /// The per-tick decision for one window: skip it while it is minimized
    /// (size zero on either axis), render otherwise.
    pub fn plan_window_frame(&self, window_id: u64) -> (plan: FramePlan)
        requires
            self.wf(),
            has_window(self.windows_seq(), window_id),
        ensures
            plan == (if window_of(self.windows_seq(), window_id).minimized() {
                FramePlan::SkipMinimized
            } else {
                FramePlan::Render
            }),
    {
        let index: usize = match self.find_window(window_id) {
            Option::Some(i) => i,
            Option::None => {
                proof {
                    assert(false);
                }
                0
            },
        };
        proof {
            lemma_window_index_of(self.windows@, index as int);
        }
        let size: (u32, u32) = self.windows[index].size;
        if size.0 == 0 || size.1 == 0 {
            FramePlan::SkipMinimized
        } else {
            FramePlan::Render
        }
    }

    /// Handles one platform event. Returns whether the loop should keep
    /// running: false exactly for a close request on the primary window
    /// (whose entry stays; teardown happens at process exit after in-flight
    /// work retires). A close request for another window removes its entry
    /// atomically; a resize or scale-factor change renegotiates that
    /// window's surface at the new size; input events update the snapshot.
    pub fn handle_event(&mut self, user_input: &mut UserIO, event: LoopEvent) -> (keep_running:
        bool)
        requires
            old(self).wf(),
            match event {
                LoopEvent::CloseRequested { .. } => old(self).primary() is Some,
                LoopEvent::Resized { window_id, .. } => has_window(
                    old(self).windows_seq(),
                    window_id,
                ) && window_of(old(self).windows_seq(), window_id).surface_generation < u64::MAX,
                LoopEvent::ScaleFactorChanged { window_id, .. } => has_window(
                    old(self).windows_seq(),
                    window_id,
                ) && window_of(old(self).windows_seq(), window_id).surface_generation < u64::MAX,
                _ => true,
            },
        ensures
            final(self).wf(),
            keep_running == !quit_requested(old(self).primary(), event),
            final(self).primary() == old(self).primary(),
            final(self).context() == old(self).context(),
            final(self).next_window_id_spec() == old(self).next_window_id_spec(),
            final(self).next_image_id_spec() == old(self).next_image_id_spec(),
            match event {
                LoopEvent::MouseMotion { delta_x_bits, delta_y_bits } => {
                    &&& final(self).windows_seq() == old(self).windows_seq()
                    &&& final(user_input).mouse_delta() == (delta_x_bits, delta_y_bits)
                    &&& final(user_input).keys() == old(user_input).keys()
                },
                LoopEvent::KeyboardInput { window_id: _, scancode, pressed } => {
                    &&& final(self).windows_seq() == old(self).windows_seq()
                    &&& final(user_input).keys() == old(user_input).keys().push(
                        (scancode, pressed),
                    )
                    &&& final(user_input).mouse_delta() == old(user_input).mouse_delta()
                },
                LoopEvent::CloseRequested { window_id } => {
                    &&& *final(user_input) == *old(user_input)
                    &&& if old(self).primary() == Option::Some(window_id) {
                        final(self).windows_seq() == old(self).windows_seq()
                    } else {
                        final(self).windows_seq() == close_result(
                            old(self).windows_seq(),
                            window_id,
                        )
                    }
                },
                LoopEvent::Resized { window_id, width, height } => {
                    &&& *final(user_input) == *old(user_input)
                    &&& final(self).windows_seq() == old(self).windows_seq().update(
                        window_index(old(self).windows_seq(), window_id),
                        renegotiated(window_of(old(self).windows_seq(), window_id), width, height),
                    )
                },
                LoopEvent::ScaleFactorChanged { window_id, width, height } => {
                    &&& *final(user_input) == *old(user_input)
                    &&& final(self).windows_seq() == old(self).windows_seq().update(
                        window_index(old(self).windows_seq(), window_id),
                        renegotiated(window_of(old(self).windows_seq(), window_id), width, height),
                    )
                },
                LoopEvent::MouseInput { window_id: _ } => {
                    &&& final(self).windows_seq() == old(self).windows_seq()
                    &&& *final(user_input) == *old(user_input)
                },
            },
    {
        match event {
            LoopEvent::MouseMotion { delta_x_bits, delta_y_bits } => {
                user_input.set_mouse_delta(delta_x_bits, delta_y_bits);
                true
            },
            LoopEvent::KeyboardInput { window_id: _, scancode, pressed } => {
                user_input.set_keyboard_input(scancode, pressed);
                true
            },
            LoopEvent::MouseInput { window_id: _ } => true,
            LoopEvent::CloseRequested { window_id } => {
                let primary: u64 = match self.primary_window_id {
                    Option::Some(p) => p,
                    Option::None => {
                        proof {
                            assert(false);
                        }
                        0
                    },
                };
                if primary == window_id {
                    false
                } else {
                    match self.find_window(window_id) {
                        Option::Some(index) => {
                            proof {
                                lemma_window_index_of(self.windows@, index as int);
                            }
                            let _removed = self.windows.remove(index);
                            proof {
                                lemma_remove_keeps_registry_wf(
                                    old(self).windows_seq(),
                                    index as int,
                                    self.next_window_id,
                                    self.next_image_id,
                                );
                            }
                        },
                        Option::None => {},
                    }
                    true
                }
            },
            LoopEvent::Resized { window_id, width, height } => {
                self.resize_surface(window_id, width, height);
                true
            },
            LoopEvent::ScaleFactorChanged { window_id, width, height } => {
                self.resize_surface(window_id, width, height);
                true
            },
        }
    }

    /// Renegotiates one window's surface at a new size: the presentable
    /// images are replaced (generation bump); compute and composite stage
    /// resources are left alone — only the viewport of later frames changes,
    /// derived from the presentable image's dimensions each frame.
    fn resize_surface(&mut self, window_id: u64, width: u32, height: u32)
        requires
            old(self).wf(),
            has_window(old(self).windows_seq(), window_id),
            window_of(old(self).windows_seq(), window_id).surface_generation < u64::MAX,
        ensures
            final(self).wf(),
            final(self).windows_seq() == old(self).windows_seq().update(
                window_index(old(self).windows_seq(), window_id),
                renegotiated(window_of(old(self).windows_seq(), window_id), width, height),
            ),
            final(self).primary() == old(self).primary(),
            final(self).context() == old(self).context(),
            final(self).next_window_id_spec() == old(self).next_window_id_spec(),
            final(self).next_image_id_spec() == old(self).next_image_id_spec(),
    {
        let index: usize = match self.find_window(window_id) {
            Option::Some(i) => i,
            Option::None => {
                proof {
                    assert(false);
                }
                0
            },
        };
        proof {
            lemma_window_index_of(self.windows@, index as int);
        }
        let entry = registry_entry_mut(&mut self.windows, index);
        entry.size = (width, height);
        entry.surface_generation = entry.surface_generation + 1;
        proof {
            let pre = old(self).windows_seq();
            let i = index as int;
            let ws = self.windows@;
            assert(ws == pre.update(i, renegotiated(pre[i], width, height)));
            assert forall|a: int, b: int| 0 <= a < b < ws.len() implies (
            #[trigger] ws[a]).window_id != (#[trigger] ws[b]).window_id by {
                assert(ws[a].window_id == pre[a].window_id);
                assert(ws[b].window_id == pre[b].window_id);
            }
            assert forall|a: int| 0 <= a < ws.len() implies (#[trigger] ws[a]).wf() by {
                if a != i {
                    assert(ws[a] == pre[a]);
                }
            }
            assert forall|a: int| 0 <= a < ws.len() implies (#[trigger] ws[a]).window_id
                < self.next_window_id by {
                assert(ws[a].window_id == pre[a].window_id);
            }
            assert forall|a: int| 0 <= a < ws.len() implies (
            #[trigger] ws[a]).pipeline.compute.image.image_id < self.next_image_id by {
                if a != i {
                    assert(ws[a] == pre[a]);
                }
            }
        }
    }

    /// One frame tick for one window, the compute-then-composite sequence:
    /// skip everything while the window is minimized (no acquire, compute,
    /// composite or present is attempted for that tick); otherwise acquire a
    /// presentable image, run compute after the acquire, run the composite
    /// after the compute, and hand the final future to present. The registry
    /// is untouched either way: nothing is reallocated per frame.
    ///
    /// The caller performs the real acquisition and calls this only when it
    /// succeeded; a failed acquisition skips the tick entirely (a per-frame
    /// recoverable error: diagnose and retry next tick), leaving registry and
    /// timeline untouched, so it needs no model here.
    pub fn tick_window(
        &mut self,
        timeline: &mut DeviceTimeline,
        window_id: u64,
        elapsed_nanos: u64,
    ) -> (outcome: TickOutcome)
        requires
            old(self).wf(),
            has_window(old(self).windows_seq(), window_id),
            old(timeline).wf(),
            old(timeline).log().len() + 4 <= usize::MAX,
        ensures
            final(self).wf(),
            final(self).windows_seq() == old(self).windows_seq(),
            final(self).primary() == old(self).primary(),
            final(self).context() == old(self).context(),
            final(self).next_window_id_spec() == old(self).next_window_id_spec(),
            final(self).next_image_id_spec() == old(self).next_image_id_spec(),
            final(timeline).wf(),
            ({
                let entry = window_of(old(self).windows_seq(), window_id);
                if entry.minimized() {
                    &&& final(timeline).log() == old(timeline).log()
                    &&& outcome == TickOutcome::SkippedMinimized
                } else {
                    &&& final(timeline).log() == old(timeline).log() + frame_submissions(
                        entry,
                        old(timeline).log().len() as int,
                        elapsed_nanos,
                    )
                    &&& outcome == TickOutcome::Presented
                }
            }),
    {
        let plan = self.plan_window_frame(window_id);
        match plan {
            FramePlan::SkipMinimized => TickOutcome::SkippedMinimized,
            FramePlan::Render => {
                let index: usize = match self.find_window(window_id) {
                    Option::Some(i) => i,
                    Option::None => {
                        proof {
                            assert(false);
                        }
                        0
                    },
                };
                proof {
                    lemma_window_index_of(self.windows@, index as int);
                }
                let gfx_queue: u64 = self.windows[index].pipeline.place_over_frame.gfx_queue;
                let before = timeline.acquire(gfx_queue, window_id);
                let entry = registry_entry_mut(&mut self.windows, index);
                let after_compute = entry.pipeline.compute.compute(timeline, before, elapsed_nanos);
                let color_image = entry.pipeline.compute.color_image();
                let target = ImageHandle { image_id: entry.surface_generation, size: entry.size };
                let after_render = entry.pipeline.place_over_frame.render(
                    timeline,
                    after_compute,
                    color_image,
                    target,
                );
                timeline.present(gfx_queue, window_id, after_render);
                proof {
                    let pre = old(self).windows_seq();
                    let i = index as int;
                    assert(self.windows@ =~= pre);
                    assert(final(timeline).log() =~= old(timeline).log() + frame_submissions(
                        pre[i],
                        old(timeline).log().len() as int,
                        elapsed_nanos,
                    ));
                }
                TickOutcome::Presented
            },
        }
    }
}

impl Default for Application {
    /// The one process-lifetime construction: a fresh shared context with no
    /// windows yet. (The device and queues the context stands for are created
    /// by the process around the engine; failure there is fatal and aborts
    /// before an `Application` exists — no degraded mode exists without a
    /// device. This renderer wires both stage queues to the graphics queue,
    /// so the context's queue handles alias.)
    fn default() -> (app: Application)
        ensures
            app.wf(),
            app.windows_seq() == Seq::<WindowEntry>::empty(),
            app.primary() == Option::<u64>::None,
            app.context() == (GpuContext { device: 0, compute_queue: 0, graphics_queue: 0 }),
            app.next_window_id_spec() == 0,
            app.next_image_id_spec() == 0,
    {
        Application {
            context: GpuContext { device: 0, compute_queue: 0, graphics_queue: 0 },
            windows: Vec::new(),
            primary_window_id: Option::None,
            next_window_id: 0,
            next_image_id: 0,
        }
    }
}

/// With unique identities, the entry found at a position is the entry looked
/// up by its identity.
pub proof fn lemma_window_index_of(windows: Seq<WindowEntry>, i: int)
    requires
        unique_window_ids(windows),
        0 <= i < windows.len(),
    ensures
        has_window(windows, windows[i].window_id),
        window_index(windows, windows[i].window_id) == i,
        window_of(windows, windows[i].window_id) == windows[i],
{
    let id = windows[i].window_id;
    assert(has_window(windows, id));
    let j = window_index(windows, id);
    assert(0 <= j < windows.len() && windows[j].window_id == id);
    if j < i {
        assert(windows[j].window_id != windows[i].window_id);
        assert(false);
    }
    if i < j {
        assert(windows[i].window_id != windows[j].window_id);
        assert(false);
    }
}

/// Removing an entry keeps the registry well-formed and every identity bound.
proof fn lemma_remove_keeps_registry_wf(
    windows: Seq<WindowEntry>,
    i: int,
    next_window_id: u64,
    next_image_id: u64,
)
    requires
        registry_wf(windows),
        0 <= i < windows.len(),
        forall|a: int| 0 <= a < windows.len() ==> (#[trigger] windows[a]).window_id
            < next_window_id,
        forall|a: int|
            0 <= a < windows.len() ==> (#[trigger] windows[a]).pipeline.compute.image.image_id
                < next_image_id,
    ensures
        registry_wf(windows.remove(i)),
        forall|a: int| 0 <= a < windows.remove(i).len() ==> (
        #[trigger] windows.remove(i)[a]).window_id < next_window_id,
        forall|a: int|
            0 <= a < windows.remove(i).len() ==> (
            #[trigger] windows.remove(i)[a]).pipeline.compute.image.image_id < next_image_id,
{
    let r = windows.remove(i);
    assert forall|a: int| 0 <= a < r.len() implies #[trigger] r[a] == (if a < i {
        windows[a]
    } else {
        windows[a + 1]
    }) by {}
    assert forall|a: int, b: int| 0 <= a < b < r.len() implies (#[trigger] r[a]).window_id != (
    #[trigger] r[b]).window_id by {
        let oa = if a < i { a } else { a + 1 };
        let ob = if b < i { b } else { b + 1 };
        assert(r[a] == windows[oa]);
        assert(r[b] == windows[ob]);
    }
    assert forall|a: int| 0 <= a < r.len() implies (#[trigger] r[a]).wf() by {
        let oa = if a < i { a } else { a + 1 };
        assert(r[a] == windows[oa]);
    }
    assert forall|a: int| 0 <= a < r.len() implies (#[trigger] r[a]).window_id < next_window_id by {
        let oa = if a < i { a } else { a + 1 };
        assert(r[a] == windows[oa]);
    }
    assert forall|a: int| 0 <= a < r.len() implies (
    #[trigger] r[a]).pipeline.compute.image.image_id < next_image_id by {
        let oa = if a < i { a } else { a + 1 };
        assert(r[a] == windows[oa]);
    }
}

/// LAW (window lifecycle): opening a window and then closing it again before
/// any frame tick restores the registry exactly — every earlier entry, the
/// primary window's pipeline among them, is untouched. (`open_new_window`
/// appends an entry under a fresh identity; a close request for that identity
/// yields `close_result`, which is the original registry.)
pub proof fn lemma_open_then_close_restores(windows: Seq<WindowEntry>, entry: WindowEntry)
    requires
        !has_window(windows, entry.window_id),
    ensures
        close_result(windows.push(entry), entry.window_id) == windows,
{
    let grown = windows.push(entry);
    let id = entry.window_id;
    assert(grown[windows.len() as int] == entry);
    assert(has_window(grown, id));
    let j = window_index(grown, id);
    assert(0 <= j < grown.len() && grown[j].window_id == id);
    if j < windows.len() {
        assert(grown[j] == windows[j]);
        assert(has_window(windows, id));
        assert(false);
    }
    assert(j == windows.len());
    assert(grown.remove(j) =~= windows);
}

/// LAW (minimized resume): after a resize event to a nonzero size, the window
/// is no longer minimized — the next tick resumes normal operation — and its
/// pipeline was not rebuilt by the resize.
pub proof fn lemma_resize_resumes(
    windows0: Seq<WindowEntry>,
    windows1: Seq<WindowEntry>,
    window_id: u64,
    width: u32,
    height: u32,
)
    requires
        unique_window_ids(windows0),
        has_window(windows0, window_id),
        width > 0,
        height > 0,
        windows1 == windows0.update(
            window_index(windows0, window_id),
            renegotiated(window_of(windows0, window_id), width, height),
        ),
    ensures
        has_window(windows1, window_id),
        unique_window_ids(windows1),
        window_of(windows1, window_id).size == (width, height),
        !window_of(windows1, window_id).minimized(),
        window_of(windows1, window_id).pipeline == window_of(windows0, window_id).pipeline,
        window_of(windows1, window_id).surface_generation == (window_of(
            windows0,
            window_id,
        ).surface_generation + 1) as u64,
{
    let i = window_index(windows0, window_id);
    assert(0 <= i < windows0.len() && windows0[i].window_id == window_id);
    assert(windows1[i].window_id == window_id);
    assert forall|a: int, b: int| 0 <= a < b < windows1.len() implies (
    #[trigger] windows1[a]).window_id != (#[trigger] windows1[b]).window_id by {
        assert(windows1[a].window_id == windows0[a].window_id);
        assert(windows1[b].window_id == windows0[b].window_id);
    }
    lemma_window_index_of(windows1, i);
}

/// LAW (resize viewport): the composite draw a rendered tick records always
/// sets its viewport to the presentable image's dimensions — the window's
/// current surface size — and samples the window's own off-screen image. So
/// on the first rendered frame after a resize, the viewport equals the new
/// size.
pub proof fn lemma_frame_viewport_matches_surface(
    entry: WindowEntry,
    base: int,
    elapsed_nanos: u64,
)
    requires
        0 <= base,
        base + 4 <= usize::MAX,
    ensures
        frame_submissions(entry, base, elapsed_nanos).len() == 4,
        frame_submissions(entry, base, elapsed_nanos)[2].op matches GpuOp::Composite { commands }
            && commands.draw.viewport == entry.size && commands.draw.binding.image_id
            == entry.pipeline.compute.image.image_id && commands.target_image
            == entry.surface_generation,
{
}

/// LAW (cross-queue ordering): for any window and any tick that rendered, in
/// every admissible execution order the device may choose, the frame's
/// composite submission executes after the frame's compute submission — the
/// guarantee rests on the declared dependency alone, never on host waiting.
/// `base` is the length of the log when the tick began; the compute
/// submission sits at index `base + 1` and the composite at `base + 2`, at
/// positions `k_compute` and `k_composite` of the execution order.
pub proof fn lemma_frame_compute_precedes_composite(
    log: Seq<Submission>,
    schedule: Seq<int>,
    base: int,
    entry: WindowEntry,
    elapsed_nanos: u64,
    k_compute: int,
    k_composite: int,
)
    requires
        0 <= base,
        base + 4 <= usize::MAX,
        log.len() >= base + 4,
        log.subrange(base, base + 4) == frame_submissions(entry, base, elapsed_nanos),
        admissible_schedule(log, schedule),
        0 <= k_compute < schedule.len(),
        schedule[k_compute] == base + 1,
        0 <= k_composite < schedule.len(),
        schedule[k_composite] == base + 2,
    ensures
        k_compute < k_composite,
{
    assert(log[base + 2] == log.subrange(base, base + 4)[2]);
    assert(log[base + 2].after == (base + 2) as usize);
    lemma_waits_precede(log, schedule, base + 1, base + 2, k_compute, k_composite);
}

/// The registry integrity that `wf` carries, stated over the public views:
/// the bridge for callers outside this module, whose laws speak of
/// `unique_window_ids` and entry well-formedness.
pub proof fn lemma_wf_implies_registry_wf(app: &Application)
    requires
        app.wf(),
    ensures
        registry_wf(app.windows_seq()),
        unique_window_ids(app.windows_seq()),
{
}

} // verus!
