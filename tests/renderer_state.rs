use lcd_renderer::display::{DisplayMatrix, DisplayUniform, DISPLAY_UNIFORM_SIZE};
use lcd_renderer::frame::{
    blur_pass, blur_schedule, glow_source, Axis, BlurSource, Direction, Scratch, BLUR_ITERATIONS,
};
use lcd_renderer::graph::{
    frame_passes, pipeline_layout, Binding, ColorTarget, LayoutKind, LoadOp, PipelineKind,
    TextureId, FRAME_PASSES,
};
use lcd_renderer::state::{
    EffectOptionsUniform, FramePlan, FrameTextures, OptionsUniform, RendererState, SurfaceSize,
};

fn sized(width: u32, height: u32) -> RendererState {
    let mut s = RendererState::new(SurfaceSize { width: 640, height: 480 });
    assert!(s.resize(width, height));
    s
}

#[test]
fn new_state_is_unconfigured_with_defaults() {
    let s = RendererState::new(SurfaceSize { width: 800, height: 600 });
    assert!(!s.is_surface_configured);
    assert_eq!(s.textures, FrameTextures::Unsized);
    assert_eq!(s.config, SurfaceSize { width: 800, height: 600 });
    assert_eq!(s.options, OptionsUniform { display_width: 160, display_height: 144, canvas_width: 0, canvas_height: 0 });
    assert_eq!(s.effect_options, EffectOptionsUniform::new());
    assert_eq!(s.display.pixels.len(), DISPLAY_UNIFORM_SIZE);
}

#[test]
fn render_before_resize_is_idle() {
    let mut s = RendererState::new(SurfaceSize { width: 800, height: 600 });
    assert!(matches!(s.render(), FramePlan::Idle));
    assert!(!s.is_surface_configured);
    assert_eq!(s.effect_options, EffectOptionsUniform::new());
}

#[test]
fn resize_with_zero_side_is_noop() {
    let mut s = sized(320, 288);
    assert!(!s.resize(0, 500));
    assert!(!s.resize(500, 0));
    assert!(!s.resize(0, 0));
    assert_eq!(s.config, SurfaceSize { width: 320, height: 288 });
    assert_eq!(s.textures, FrameTextures::Sized(SurfaceSize { width: 320, height: 288 }));
    assert_eq!(s.options.canvas_width, 320);
    assert_eq!(s.effect_options.resolution, SurfaceSize { width: 320, height: 288 });

    let mut fresh = RendererState::new(SurfaceSize { width: 10, height: 10 });
    assert!(!fresh.resize(0, 7));
    assert!(!fresh.is_surface_configured);
    assert!(matches!(fresh.render(), FramePlan::Idle));
}

#[test]
fn resize_sets_canvas_and_resolution() {
    let mut s = sized(1024, 768);
    assert!(s.is_surface_configured);
    assert_eq!(s.options.canvas_width, 1024);
    assert_eq!(s.options.canvas_height, 768);
    assert_eq!(s.options.display_width, 160);
    assert_eq!(s.effect_options.resolution, SurfaceSize { width: 1024, height: 768 });
    assert!(s.resize(1, 4096));
    assert_eq!(s.config, SurfaceSize { width: 1, height: 4096 });
    assert_eq!(s.textures, FrameTextures::Sized(SurfaceSize { width: 1, height: 4096 }));
    assert_eq!((s.options.canvas_width, s.options.canvas_height), (1, 4096));
    assert_eq!(s.effect_options.resolution, SurfaceSize { width: 1, height: 4096 });
}

#[test]
fn blur_alternates_and_radius_decreases() {
    let passes = blur_schedule();
    assert_eq!(passes.len(), BLUR_ITERATIONS);
    for (j, p) in passes.iter().enumerate() {
        let i = j + 1;
        assert_eq!(p.iteration, i);
        let radius = (8 - i) as u32;
        if i % 2 == 0 {
            assert_eq!(p.axis, Axis::Vertical);
            assert_eq!(p.target, Scratch::A);
            assert_eq!(p.direction, Direction { x: 0, y: radius });
        } else {
            assert_eq!(p.axis, Axis::Horizontal);
            assert_eq!(p.target, Scratch::B);
            assert_eq!(p.direction, Direction { x: radius, y: 0 });
        }
    }
    assert_eq!(passes[0].source, BlurSource::Display);
    assert_eq!(passes[0].direction, Direction { x: 7, y: 0 });
    assert_eq!(passes[1].source, BlurSource::Scratch(Scratch::B));
    assert_eq!(passes[2].source, BlurSource::Scratch(Scratch::A));
    assert_eq!(passes[7].direction, Direction { x: 0, y: 0 });
    assert_eq!(blur_pass(3), passes[2]);
    assert_eq!(glow_source(), Scratch::B);
}

#[test]
fn render_after_resize_plans_full_frame() {
    for (w, h) in [(160u32, 144u32), (1920, 1080), (3, 5)] {
        let mut s = sized(w, h);
        match s.render() {
            FramePlan::Idle => panic!("configured renderer planned no frame"),
            FramePlan::Draw(g) => {
                assert_eq!(g.size, SurfaceSize { width: w, height: h });
                assert_eq!(g.blur_passes, blur_schedule());
                assert_eq!(g.glow_source, Scratch::B);
                assert_eq!(g.passes.len(), FRAME_PASSES);
                assert_eq!(g.passes, frame_passes());
            }
        }
        assert_eq!(s.effect_options.direction, Direction { x: 0, y: 0 });
        assert_eq!(s.effect_options.resolution, SurfaceSize { width: w, height: h });
    }
}

#[test]
fn two_renders_plan_the_same_frame() {
    let mut s = sized(300, 200);
    let mut m = DisplayMatrix::new();
    m.set(4, 9, 2);
    s.update_display_matrix(&m);
    let first = match s.render() {
        FramePlan::Draw(g) => g,
        FramePlan::Idle => panic!("idle"),
    };
    let pixels = s.display.pixels.clone();
    let options = s.options;
    let effect = s.effect_options;
    let second = match s.render() {
        FramePlan::Draw(g) => g,
        FramePlan::Idle => panic!("idle"),
    };
    assert_eq!(first.size, second.size);
    assert_eq!(first.blur_passes, second.blur_passes);
    assert_eq!(first.passes, second.passes);
    assert_eq!(first.glow_source, second.glow_source);
    assert_eq!(s.display.pixels, pixels);
    assert_eq!(s.options, options);
    assert_eq!(s.effect_options, effect);
}

#[test]
fn update_display_changes_only_the_display() {
    let mut s = sized(50, 60);
    let mut m = DisplayMatrix::new();
    m.set(159, 143, 1);
    s.update_display_matrix(&m);
    assert_eq!(s.display.pixels[DISPLAY_UNIFORM_SIZE - 1], 1 << 30);
    assert_eq!(s.display.decode(159, 143), 1);
    assert_eq!(s.config, SurfaceSize { width: 50, height: 60 });
    assert_eq!(s.options.canvas_height, 60);
}

#[test]
fn frame_passes_are_wired() {
    let passes = frame_passes();
    assert_eq!(passes.len(), 10);
    let first = passes[0];
    assert_eq!(first.pipeline, PipelineKind::Display);
    assert_eq!(first.target, ColorTarget::Texture(TextureId::Display));
    assert_eq!(first.load, LoadOp::Clear);
    assert_eq!((first.bindings.slot0, first.bindings.slot1), (Binding::Options, Binding::Display));
    assert_eq!(first.direction, None);
    assert!(!first.refresh_scratch);
    assert!(passes[1..9].iter().all(|p| p.refresh_scratch && p.direction.is_some()));
    let blur1 = passes[1];
    assert_eq!(blur1.pipeline, PipelineKind::Effect);
    assert_eq!(blur1.bindings.slot0, Binding::Texture(TextureId::Display));
    assert_eq!(blur1.target, ColorTarget::Texture(TextureId::Scratch(Scratch::B)));
    assert_eq!(blur1.direction, Some(Direction { x: 7, y: 0 }));
    let blur8 = passes[8];
    assert_eq!(blur8.bindings.slot0, Binding::Texture(TextureId::Scratch(Scratch::B)));
    assert_eq!(blur8.target, ColorTarget::Texture(TextureId::Scratch(Scratch::A)));
    let last = passes[9];
    assert_eq!(last.pipeline, PipelineKind::Composite);
    assert_eq!(last.target, ColorTarget::Surface);
    assert_eq!(last.load, LoadOp::Load);
    assert_eq!(last.bindings.slot0, Binding::Texture(TextureId::Display));
    assert_eq!(last.bindings.slot1, Binding::Texture(TextureId::Scratch(Scratch::B)));
    assert_eq!(last.bindings.slot2, Some(Binding::FinalOptions));
    assert!(!last.refresh_scratch);
    assert_eq!(last.direction, None);
}

#[test]
fn pipeline_layouts_by_slot() {
    assert_eq!(pipeline_layout(PipelineKind::Display), vec![LayoutKind::UniformBuffer, LayoutKind::UniformBuffer]);
    assert_eq!(pipeline_layout(PipelineKind::Effect), vec![LayoutKind::SampledTexture, LayoutKind::UniformBuffer]);
    assert_eq!(
        pipeline_layout(PipelineKind::Composite),
        vec![LayoutKind::SampledTexture, LayoutKind::SampledTexture, LayoutKind::UniformBuffer]
    );
}

#[test]
fn update_display_copies_packed_buffer() {
    let mut s = sized(64, 32);
    let mut packed = DisplayUniform::new();
    packed.pixels[0] = 0xDEAD_BEEF;
    packed.pixels[DISPLAY_UNIFORM_SIZE - 1] = 7;
    s.update_display(&packed);
    assert_eq!(s.display.pixels, packed.pixels);
    assert_eq!(s.display.decode(0, 0), 3);
    assert_eq!(s.display.decode(1, 0), 3);
    assert_eq!(s.display.decode(2, 0), 2);
    assert_eq!(s.config, SurfaceSize { width: 64, height: 32 });
    assert_eq!(s.effect_options.resolution, SurfaceSize { width: 64, height: 32 });
}
