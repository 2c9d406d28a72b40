use vstd::prelude::*;

use crate::display::{
    packed_code, DisplayMatrix, DisplayUniform, CODES_PER_WORD, DISPLAY_UNIFORM_SIZE, HEIGHT,
    WIDTH,
};
use crate::graph::frame_passes_spec;
use crate::frame::{blur_pass_spec, blur_schedule_spec, glow_source_spec, is_horizontal, BLUR_ITERATIONS};
use crate::state::{
    render_next, render_view, resize_next, FrameTextures, RendererState, SurfaceSize,
};

verus! {

/// Decoding a buffer that `DisplayUniform::update` filled from `m`, with the
/// documented bit order (what `DisplayUniform::decode` reads), gives back the
/// code of every pixel of `m`.
pub proof fn lemma_decode_after_encode(buffer: DisplayUniform, m: DisplayMatrix)
    requires
        m.wf(),
        buffer.wf(),
        buffer.encodes(m),
    ensures
        forall|x: int, y: int|
            0 <= x < WIDTH && 0 <= y < HEIGHT ==> #[trigger] packed_code(buffer.pixels@, y * WIDTH + x)
                == m.cell(x, y) as u32,
{
    assert forall|x: int, y: int| 0 <= x < WIDTH && 0 <= y < HEIGHT implies
        #[trigger] packed_code(buffer.pixels@, y * WIDTH + x) == m.cell(x, y) as u32 by {
        let k = y * WIDTH + x;
        assert(k % (WIDTH as int) == x && k / (WIDTH as int) == y);
        assert(0 <= k < WIDTH * HEIGHT);
        assert(packed_code(buffer.pixels@, k) == m.scan_code(k) as u32);
    }
}

/// Two buffers filled from the same display hold the same words: the
/// packing is a function of the display alone.
pub proof fn lemma_encoding_deterministic(a: DisplayUniform, b: DisplayUniform, m: DisplayMatrix)
    requires
        m.wf(),
        a.wf(),
        b.wf(),
        a.encodes(m),
        b.encodes(m),
    ensures
        a.pixels@ == b.pixels@,
{
    assert forall|k: int| 0 <= k < WIDTH * HEIGHT implies
        #[trigger] packed_code(a.pixels@, k) == packed_code(b.pixels@, k) by {
        assert(packed_code(a.pixels@, k) == m.scan_code(k) as u32);
        assert(packed_code(b.pixels@, k) == m.scan_code(k) as u32);
    }
    crate::display::lemma_packed_words_unique(a.pixels@, b.pixels@);
}

/// The packed buffer has exactly `2 * WIDTH * HEIGHT / 32` words, and the
/// display's pixels fill them exactly, 16 codes to a word.
pub proof fn lemma_packed_size()
    ensures
        DISPLAY_UNIFORM_SIZE == 2 * WIDTH * HEIGHT / 32,
        DISPLAY_UNIFORM_SIZE == 1440,
        DISPLAY_UNIFORM_SIZE * CODES_PER_WORD == WIDTH * HEIGHT,
{
}

/// A resize with a zero width or height leaves the state unchanged.
pub proof fn lemma_resize_zero_is_noop(s: RendererState, width: u32, height: u32)
    requires
        s.wf(),
        width == 0 || height == 0,
    ensures
        resize_next(s, width, height) == s,
{
}

/// After a resize to a positive `width` x `height`, the surface, the frame
/// textures, the canvas size and the effect resolution all equal that size.
pub proof fn lemma_resize_sets_sizes(s: RendererState, width: u32, height: u32)
    requires
        s.wf(),
        width > 0,
        height > 0,
    ensures
        resize_next(s, width, height).wf(),
        resize_next(s, width, height).config == (SurfaceSize { width, height }),
        resize_next(s, width, height).textures == FrameTextures::Sized(SurfaceSize { width, height }),
        resize_next(s, width, height).options.canvas_width == width,
        resize_next(s, width, height).options.canvas_height == height,
        resize_next(s, width, height).effect_options.resolution == (SurfaceSize { width, height }),
{
}

/// Whatever the size of a resize, the frame planned after it blurs with the
/// same schedule, whose axis alternates with the parity of the iteration and
/// whose radius falls from `BLUR_ITERATIONS - 1` to 0.
pub proof fn lemma_blur_schedule_after_resize(s: RendererState, width: u32, height: u32)
    requires
        s.wf(),
        width > 0,
        height > 0,
    ensures
        render_view(resize_next(s, width, height)) == Some(
            (SurfaceSize { width, height }, blur_schedule_spec(), glow_source_spec(), frame_passes_spec()),
        ),
        forall|i: int| 1 <= i <= BLUR_ITERATIONS ==> {
            &&& blur_schedule_spec()[i - 1] == blur_pass_spec(i)
            &&& (is_horizontal(#[trigger] blur_pass_spec(i)) <==> i % 2 == 1)
            &&& blur_pass_spec(i).direction.x + blur_pass_spec(i).direction.y == BLUR_ITERATIONS - i
        },
{
    crate::frame::lemma_blur_alternates();
}

/// Before the first successful resize, `render` plans no work and changes
/// nothing.
pub proof fn lemma_render_idle_before_resize(s: RendererState)
    requires
        s.wf(),
        !s.is_surface_configured,
    ensures
        render_view(s) is None,
        render_next(s) == s,
{
}

/// Two renders in a row, with nothing in between, plan the same frame from
/// the same uniforms, and the second leaves the state as the first left it.
pub proof fn lemma_render_deterministic(s: RendererState)
    requires
        s.wf(),
    ensures
        render_next(s).wf(),
        render_view(render_next(s)) == render_view(s),
        render_next(render_next(s)) == render_next(s),
{
}

} // verus!
