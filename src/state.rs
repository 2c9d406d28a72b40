use vstd::prelude::*;

use crate::display::{DisplayMatrix, DisplayUniform, HEIGHT, WIDTH};
use crate::graph::{frame_passes, frame_passes_spec, PassPlan};
use crate::frame::{
    blur_pass_spec, blur_schedule, blur_schedule_spec, glow_source, glow_source_spec, BlurPass,
    Direction, Scratch, BLUR_ITERATIONS,
};

verus! {

/// A size in pixels of the output surface.
#[derive(Clone, Copy, Debug, PartialEq, Eq, Structural)]
pub struct SurfaceSize {
    pub width: u32,
    pub height: u32,
}

/// The integer part of the options uniform: the display's native size and
/// the size of the canvas it is drawn on (0 until the first resize).
#[derive(Clone, Copy, Debug, PartialEq, Eq, Structural)]
pub struct OptionsUniform {
    pub display_width: u32,
    pub display_height: u32,
    pub canvas_width: u32,
    pub canvas_height: u32,
}

impl OptionsUniform {
    pub open spec fn initial() -> OptionsUniform {
        OptionsUniform {
            display_width: WIDTH as u32,
            display_height: HEIGHT as u32,
            canvas_width: 0,
            canvas_height: 0,
        }
    }

    /// The console's native size, on a canvas not sized yet.
    pub fn new() -> (r: OptionsUniform)
        ensures
            r == OptionsUniform::initial(),
    {
        OptionsUniform {
            display_width: WIDTH as u32,
            display_height: HEIGHT as u32,
            canvas_width: 0,
            canvas_height: 0,
        }
    }
}

/// The effect pass uniform: the blur direction of the current iteration and
/// the resolution of the target it draws into.
#[derive(Clone, Copy, Debug, PartialEq, Eq, Structural)]
pub struct EffectOptionsUniform {
    pub direction: Direction,
    pub resolution: SurfaceSize,
}

impl EffectOptionsUniform {
    pub open spec fn initial() -> EffectOptionsUniform {
        EffectOptionsUniform {
            direction: Direction { x: 0, y: 0 },
            resolution: SurfaceSize { width: 0, height: 0 },
        }
    }

    /// All zero.
    pub fn new() -> (r: EffectOptionsUniform)
        ensures
            r == EffectOptionsUniform::initial(),
    {
        EffectOptionsUniform {
            direction: Direction { x: 0, y: 0 },
            resolution: SurfaceSize { width: 0, height: 0 },
        }
    }
}

/// The three frame textures (display, scratch A, scratch B): absent until the
/// surface is first sized, then all of one size.
#[derive(Clone, Copy, Debug, PartialEq, Eq, Structural)]
pub enum FrameTextures {
    Unsized,
    Sized(SurfaceSize),
}

/// The work of one frame: the display pass into the display texture, the
/// blur passes in order, then the composite of the display texture and the
/// glow texture onto the surface, which is presented. `passes` lists them all
/// in submission order.
pub struct FrameGraph {
    pub size: SurfaceSize,
    pub blur_passes: Vec<BlurPass>,
    pub glow_source: Scratch,
    pub passes: Vec<PassPlan>,
}

/// What `render` asks of the device.
pub enum FramePlan {
    /// The surface is not configured yet: nothing to draw.
    Idle,
    Draw(FrameGraph),
}

impl FramePlan {
    /// `None` for no work, else the frame size, blur passes, glow source and
    /// passes.
    pub open spec fn view(self) -> Option<(SurfaceSize, Seq<BlurPass>, Scratch, Seq<PassPlan>)> {
        match self {
            FramePlan::Idle => None,
            FramePlan::Draw(g) => Some((g.size, g.blur_passes@, g.glow_source, g.passes@)),
        }
    }
}

/// The renderer's state apart from the device: surface configuration, frame
/// texture sizes and the contents of the uniforms.
pub struct RendererState {
    pub config: SurfaceSize,
    pub is_surface_configured: bool,
    pub textures: FrameTextures,
    pub options: OptionsUniform,
    pub effect_options: EffectOptionsUniform,
    pub display: DisplayUniform,
}

/// The state after `resize(width, height)`.
pub open spec fn resize_next(s: RendererState, width: u32, height: u32) -> RendererState {
    if width > 0 && height > 0 {
        let size = SurfaceSize { width, height };
        RendererState {
            config: size,
            is_surface_configured: true,
            textures: FrameTextures::Sized(size),
            options: OptionsUniform { canvas_width: width, canvas_height: height, ..s.options },
            effect_options: EffectOptionsUniform { resolution: size, ..s.effect_options },
            ..s
        }
    } else {
        s
    }
}

/// The work that `render` plans from state `s`.
pub open spec fn render_view(s: RendererState) -> Option<(SurfaceSize, Seq<BlurPass>, Scratch, Seq<PassPlan>)> {
    match s.textures {
        FrameTextures::Unsized => None,
        FrameTextures::Sized(size) => Some((size, blur_schedule_spec(), glow_source_spec(), frame_passes_spec())),
    }
}

/// The state after `render`: the effect uniform keeps the direction of the
/// last blur pass.
pub open spec fn render_next(s: RendererState) -> RendererState {
    match s.textures {
        FrameTextures::Unsized => s,
        FrameTextures::Sized(_) => RendererState {
            effect_options: EffectOptionsUniform {
                direction: blur_pass_spec(BLUR_ITERATIONS as int).direction,
                ..s.effect_options
            },
            ..s
        },
    }
}

impl RendererState {
    /// The surface is configured exactly when the frame textures exist, and
    /// then the textures, the canvas and the effect resolution all have the
    /// surface's size.
    pub open spec fn wf(self) -> bool {
        &&& self.display.wf()
        &&& self.is_surface_configured <==> self.textures is Sized
        &&& match self.textures {
            FrameTextures::Unsized => true,
            FrameTextures::Sized(size) => {
                &&& size == self.config
                &&& size.width > 0
                &&& size.height > 0
                &&& self.options.canvas_width == size.width
                &&& self.options.canvas_height == size.height
                &&& self.effect_options.resolution == size
            },
        }
    }

    /// A renderer not configured yet, with default uniforms and a blank display.
    pub fn new(config: SurfaceSize) -> (s: RendererState)
        ensures
            s.wf(),
            s.config == config,
            !s.is_surface_configured,
            s.textures == FrameTextures::Unsized,
            s.options == OptionsUniform::initial(),
            s.effect_options == EffectOptionsUniform::initial(),
            forall|i: int| 0 <= i < s.display.pixels@.len() ==> #[trigger] s.display.pixels@[i] == 0,
    {
        RendererState {
            config,
            is_surface_configured: false,
            textures: FrameTextures::Unsized,
            options: OptionsUniform::new(),
            effect_options: EffectOptionsUniform::new(),
            display: DisplayUniform::new(),
        }
    }

    /// Resizes to `width` x `height`. With both positive, the surface is
    /// reconfigured, the frame textures are rebuilt at the new size and the
    /// canvas size and effect resolution follow; the result is `true` and the
    /// device must recreate the textures and upload both uniforms. With
    /// either one zero nothing changes and the result is `false`.
    pub fn resize(&mut self, width: u32, height: u32) -> (rebuilt: bool)
        requires
            old(self).wf(),
        ensures
            final(self).wf(),
            rebuilt == (width > 0 && height > 0),
            *final(self) == resize_next(*old(self), width, height),
    {
        if width > 0 && height > 0 {
            let size = SurfaceSize { width, height };
            self.config = size;
            self.is_surface_configured = true;
            self.textures = FrameTextures::Sized(size);
            self.options.canvas_width = width;
            self.options.canvas_height = height;
            self.effect_options.resolution = size;
            true
        } else {
            false
        }
    }

    /// Copies the packed display buffer `display` into the display uniform;
    /// nothing else changes.
    pub fn update_display(&mut self, display: &DisplayUniform)
        requires
            old(self).wf(),
            display.wf(),
        ensures
            final(self).wf(),
            final(self).display.pixels@ == display.pixels@,
            *final(self) == (RendererState { display: final(self).display, ..*old(self) }),
    {
        self.display = DisplayUniform { pixels: display.pixels.clone() };
    }

    /// Packs the display matrix `display` into the display uniform; nothing
    /// else changes.
    pub fn update_display_matrix(&mut self, display: &DisplayMatrix)
        requires
            old(self).wf(),
            display.wf(),
        ensures
            final(self).wf(),
            final(self).display.encodes(*display),
            *final(self) == (RendererState { display: final(self).display, ..*old(self) }),
    {
        self.display.update(display);
    }

    /// Plans one frame. Before the first resize this is `Idle` and nothing
    /// changes; after it, the frame has the surface's size, the blur passes
    /// of `blur_schedule` and the glow source of `glow_source`, and the effect
    /// uniform is left with the last pass's direction; its passes are those of
    /// `frame_passes`.
    pub fn render(&mut self) -> (plan: FramePlan)
        requires
            old(self).wf(),
        ensures
            final(self).wf(),
            plan.view() == render_view(*old(self)),
            *final(self) == render_next(*old(self)),
            (plan is Idle) <==> !old(self).is_surface_configured,
    {
        match self.textures {
            FrameTextures::Unsized => FramePlan::Idle,
            FrameTextures::Sized(size) => {
                let blur_passes = blur_schedule();
                let last = blur_passes[BLUR_ITERATIONS - 1];
                self.effect_options.direction = last.direction;
                let passes = frame_passes();
                FramePlan::Draw(FrameGraph { size, blur_passes, glow_source: glow_source(), passes })
            },
        }
    }
}

} // verus!
