use vstd::prelude::*;

use crate::frame::{
    blur_pass, blur_pass_spec, glow_source, glow_source_spec, BlurPass, BlurSource, Direction,
    Scratch, BLUR_ITERATIONS,
};

verus! {

/// Number of passes in one frame: the display pass, the blur passes and the
/// composite pass.
pub const FRAME_PASSES: usize = BLUR_ITERATIONS + 2;

/// An off-screen frame texture.
#[derive(Clone, Copy, Debug, PartialEq, Eq, Structural)]
pub enum TextureId {
    Display,
    Scratch(Scratch),
}

/// A bind group that a pass binds: one of the four uniforms, or a frame
/// texture with its sampler.
#[derive(Clone, Copy, Debug, PartialEq, Eq, Structural)]
pub enum Binding {
    Options,
    Display,
    EffectOptions,
    FinalOptions,
    Texture(TextureId),
}

/// The shape of a bind group layout.
#[derive(Clone, Copy, Debug, PartialEq, Eq, Structural)]
pub enum LayoutKind {
    /// One uniform buffer at binding 0.
    UniformBuffer,
    /// A filterable 2D texture at binding 0 and its sampler at binding 1.
    SampledTexture,
}

/// The three render pipelines.
#[derive(Clone, Copy, Debug, PartialEq, Eq, Structural)]
pub enum PipelineKind {
    Display,
    Effect,
    Composite,
}

/// Where a pass draws.
#[derive(Clone, Copy, Debug, PartialEq, Eq, Structural)]
pub enum ColorTarget {
    Texture(TextureId),
    /// The surface image that is presented at the end of the frame.
    Surface,
}

/// What a pass does with its target before drawing.
#[derive(Clone, Copy, Debug, PartialEq, Eq, Structural)]
pub enum LoadOp {
    /// Clear to opaque black.
    Clear,
    /// Keep the previous contents.
    Load,
}

/// The bind groups of a pass, by slot.
#[derive(Clone, Copy, Debug, PartialEq, Eq, Structural)]
pub struct Bindings {
    pub slot0: Binding,
    pub slot1: Binding,
    pub slot2: Option<Binding>,
}

/// One render pass: a full-screen draw of 6 vertices with `pipeline` into
/// `target`. Before it, where `refresh_scratch` holds, the views and bind
/// groups of both scratch textures are rebuilt, and where `direction` is
/// given, the effect uniform is set to it and uploaded.
#[derive(Clone, Copy, Debug, PartialEq, Eq, Structural)]
pub struct PassPlan {
    pub pipeline: PipelineKind,
    pub target: ColorTarget,
    pub load: LoadOp,
    pub bindings: Bindings,
    pub refresh_scratch: bool,
    pub direction: Option<Direction>,
}

/// The layout shape that a bind group has.
pub open spec fn layout_of(b: Binding) -> LayoutKind {
    match b {
        Binding::Texture(_) => LayoutKind::SampledTexture,
        _ => LayoutKind::UniformBuffer,
    }
}

/// The bind group layouts each pipeline is built with, by slot: the display
/// pipeline takes the display and options uniforms, the effect pipeline a
/// texture and the effect uniform, the composite pipeline two textures and
/// the final uniform.
pub open spec fn pipeline_layout_spec(p: PipelineKind) -> Seq<LayoutKind> {
    match p {
        PipelineKind::Display => seq![LayoutKind::UniformBuffer, LayoutKind::UniformBuffer],
        PipelineKind::Effect => seq![LayoutKind::SampledTexture, LayoutKind::UniformBuffer],
        PipelineKind::Composite => seq![
            LayoutKind::SampledTexture,
            LayoutKind::SampledTexture,
            LayoutKind::UniformBuffer,
        ],
    }
}

/// The bind groups of a pass as a sequence, slot 0 first.
pub open spec fn bindings_seq(b: Bindings) -> Seq<Binding> {
    match b.slot2 {
        Some(b2) => seq![b.slot0, b.slot1, b2],
        None => seq![b.slot0, b.slot1],
    }
}

/// The texture a blur source names.
pub open spec fn source_texture(s: BlurSource) -> TextureId {
    match s {
        BlurSource::Display => TextureId::Display,
        BlurSource::Scratch(t) => TextureId::Scratch(t),
    }
}

/// The pass that draws blur iteration `p`.
pub open spec fn blur_pass_plan(p: BlurPass) -> PassPlan {
    PassPlan {
        pipeline: PipelineKind::Effect,
        target: ColorTarget::Texture(TextureId::Scratch(p.target)),
        load: LoadOp::Load,
        bindings: Bindings {
            slot0: Binding::Texture(source_texture(p.source)),
            slot1: Binding::EffectOptions,
            slot2: None,
        },
        refresh_scratch: true,
        direction: Some(p.direction),
    }
}

/// Pass `j` of a frame: the display pass first, then blur iteration `j`,
/// then the composite pass onto the surface.
pub open spec fn pass_spec(j: int) -> PassPlan {
    if j == 0 {
        PassPlan {
            pipeline: PipelineKind::Display,
            target: ColorTarget::Texture(TextureId::Display),
            load: LoadOp::Clear,
            bindings: Bindings { slot0: Binding::Options, slot1: Binding::Display, slot2: None },
            refresh_scratch: false,
            direction: None,
        }
    } else if j <= BLUR_ITERATIONS {
        blur_pass_plan(blur_pass_spec(j))
    } else {
        PassPlan {
            pipeline: PipelineKind::Composite,
            target: ColorTarget::Surface,
            load: LoadOp::Load,
            bindings: Bindings {
                slot0: Binding::Texture(TextureId::Display),
                slot1: Binding::Texture(TextureId::Scratch(glow_source_spec())),
                slot2: Some(Binding::FinalOptions),
            },
            refresh_scratch: false,
            direction: None,
        }
    }
}

/// All passes of a frame, in submission order.
pub open spec fn frame_passes_spec() -> Seq<PassPlan> {
    Seq::new(FRAME_PASSES as nat, |j: int| pass_spec(j))
}

/// The pass that draws blur iteration `p`.
fn plan_blur_pass(p: BlurPass) -> (r: PassPlan)
    ensures
        r == blur_pass_plan(p),
{
    let texture = match p.source {
        BlurSource::Display => TextureId::Display,
        BlurSource::Scratch(t) => TextureId::Scratch(t),
    };
    PassPlan {
        pipeline: PipelineKind::Effect,
        target: ColorTarget::Texture(TextureId::Scratch(p.target)),
        load: LoadOp::Load,
        bindings: Bindings {
            slot0: Binding::Texture(texture),
            slot1: Binding::EffectOptions,
            slot2: None,
        },
        refresh_scratch: true,
        direction: Some(p.direction),
    }
}

/// The layouts a pipeline is built with, slot 0 first.
pub fn pipeline_layout(p: PipelineKind) -> (r: Vec<LayoutKind>)
    ensures
        r@ == pipeline_layout_spec(p),
{
    let r = match p {
        PipelineKind::Display => vec![LayoutKind::UniformBuffer, LayoutKind::UniformBuffer],
        PipelineKind::Effect => vec![LayoutKind::SampledTexture, LayoutKind::UniformBuffer],
        PipelineKind::Composite => vec![
            LayoutKind::SampledTexture,
            LayoutKind::SampledTexture,
            LayoutKind::UniformBuffer,
        ],
    };
    assert(r@ =~= pipeline_layout_spec(p));
    r
}

/// All passes of a frame, in the order they are submitted.
pub fn frame_passes() -> (r: Vec<PassPlan>)
    ensures
        r@ == frame_passes_spec(),
{
    let mut r: Vec<PassPlan> = Vec::new();
    r.push(
        PassPlan {
            pipeline: PipelineKind::Display,
            target: ColorTarget::Texture(TextureId::Display),
            load: LoadOp::Clear,
            bindings: Bindings { slot0: Binding::Options, slot1: Binding::Display, slot2: None },
            refresh_scratch: false,
            direction: None,
        },
    );
    let mut i: usize = 1;
    while i <= BLUR_ITERATIONS
        invariant
            1 <= i <= BLUR_ITERATIONS + 1,
            r@.len() == i,
            forall|j: int| 0 <= j < i ==> #[trigger] r@[j] == pass_spec(j),
        decreases BLUR_ITERATIONS + 1 - i,
    {
        r.push(plan_blur_pass(blur_pass(i)));
        i = i + 1;
    }
    let glow = glow_source();
    r.push(
        PassPlan {
            pipeline: PipelineKind::Composite,
            target: ColorTarget::Surface,
            load: LoadOp::Load,
            bindings: Bindings {
                slot0: Binding::Texture(TextureId::Display),
                slot1: Binding::Texture(TextureId::Scratch(glow)),
                slot2: Some(Binding::FinalOptions),
            },
            refresh_scratch: false,
            direction: None,
        },
    );
    assert(r@ =~= frame_passes_spec());
    r
}

/// Whether pass `p` samples texture `t`.
pub open spec fn reads(p: PassPlan, t: TextureId) -> bool {
    exists|k: int| 0 <= k < bindings_seq(p.bindings).len() && bindings_seq(p.bindings)[k] == Binding::Texture(t)
}

/// The frame's passes form a sound resource graph: each binds, slot by slot,
/// bind groups of the layouts its pipeline was built with; none samples the
/// texture it draws into; each texture sampled was drawn by an earlier pass;
/// and only the last pass draws onto the surface.
pub proof fn lemma_frame_graph_sound()
    ensures
        frame_passes_spec().len() == FRAME_PASSES,
        forall|j: int| 0 <= j < FRAME_PASSES ==> {
            let p = #[trigger] frame_passes_spec()[j];
            &&& bindings_seq(p.bindings).len() == pipeline_layout_spec(p.pipeline).len()
            &&& forall|k: int| 0 <= k < bindings_seq(p.bindings).len() ==>
                layout_of(#[trigger] bindings_seq(p.bindings)[k]) == pipeline_layout_spec(p.pipeline)[k]
        },
        forall|j: int, t: TextureId|
            0 <= j < FRAME_PASSES && #[trigger] reads(frame_passes_spec()[j], t) ==> {
                &&& frame_passes_spec()[j].target != ColorTarget::Texture(t)
                &&& exists|i: int| 0 <= i < j && #[trigger] frame_passes_spec()[i].target == ColorTarget::Texture(t)
            },
        forall|j: int| 0 <= j < FRAME_PASSES ==>
            ((#[trigger] frame_passes_spec()[j]).target == ColorTarget::Surface <==> j == FRAME_PASSES - 1),
{
    assert forall|j: int| 0 <= j < FRAME_PASSES implies {
        let p = #[trigger] frame_passes_spec()[j];
        &&& bindings_seq(p.bindings).len() == pipeline_layout_spec(p.pipeline).len()
        &&& forall|k: int| 0 <= k < bindings_seq(p.bindings).len() ==>
            layout_of(#[trigger] bindings_seq(p.bindings)[k]) == pipeline_layout_spec(p.pipeline)[k]
    } by {
        let p = frame_passes_spec()[j];
        assert(p == pass_spec(j));
        if j == 0 {
        } else if j <= BLUR_ITERATIONS {
            assert(p == blur_pass_plan(blur_pass_spec(j)));
        } else {
        }
    }
    assert forall|j: int, t: TextureId|
        0 <= j < FRAME_PASSES && #[trigger] reads(frame_passes_spec()[j], t) implies {
            &&& frame_passes_spec()[j].target != ColorTarget::Texture(t)
            &&& exists|i: int| 0 <= i < j && #[trigger] frame_passes_spec()[i].target == ColorTarget::Texture(t)
        } by {
        let p = frame_passes_spec()[j];
        assert(p == pass_spec(j));
        let k = choose|k: int| 0 <= k < bindings_seq(p.bindings).len() && bindings_seq(p.bindings)[k] == Binding::Texture(t);
        if j == 0 {
            assert(false);
        } else if j == 1 {
            assert(t == TextureId::Display);
            assert(frame_passes_spec()[0].target == ColorTarget::Texture(t));
        } else if j <= BLUR_ITERATIONS {
            assert(t == TextureId::Scratch(blur_pass_spec(j - 1).target)) by {
                crate::frame::lemma_blur_alternates();
            }
            assert(frame_passes_spec()[j - 1] == pass_spec(j - 1));
            assert(frame_passes_spec()[j - 1].target == ColorTarget::Texture(t));
            crate::frame::lemma_blur_alternates();
        } else {
            if t == TextureId::Display {
                assert(frame_passes_spec()[0].target == ColorTarget::Texture(t));
            } else {
                assert(t == TextureId::Scratch(Scratch::B));
                assert(frame_passes_spec()[7] == pass_spec(7));
                assert(frame_passes_spec()[7].target == ColorTarget::Texture(t));
            }
        }
    }
    assert forall|j: int| 0 <= j < FRAME_PASSES implies
        ((#[trigger] frame_passes_spec()[j]).target == ColorTarget::Surface <==> j == FRAME_PASSES - 1) by {
        assert(frame_passes_spec()[j] == pass_spec(j));
    }
}

} // verus!
