use vstd::prelude::*;

verus! {

/// Number of blur iterations in one frame.
pub const BLUR_ITERATIONS: usize = 8;

/// One of the two scratch frame textures that the blur ping-pongs between.
#[derive(Clone, Copy, Debug, PartialEq, Eq, Structural)]
pub enum Scratch {
    A,
    B,
}

/// The texture a blur iteration samples.
#[derive(Clone, Copy, Debug, PartialEq, Eq, Structural)]
pub enum BlurSource {
    /// The crisp display image drawn by the display pass.
    Display,
    Scratch(Scratch),
}

/// The axis a blur iteration blurs along.
#[derive(Clone, Copy, Debug, PartialEq, Eq, Structural)]
pub enum Axis {
    Horizontal,
    Vertical,
}

/// Blur direction in pixels along each axis; one of the two is always 0.
#[derive(Clone, Copy, Debug, PartialEq, Eq, Structural)]
pub struct Direction {
    pub x: u32,
    pub y: u32,
}

/// What one blur iteration draws: it reads `source`, writes `target`, and
/// blurs along `axis` by the offsets in `direction`.
#[derive(Clone, Copy, Debug, PartialEq, Eq, Structural)]
pub struct BlurPass {
    pub iteration: usize,
    pub target: Scratch,
    pub source: BlurSource,
    pub axis: Axis,
    pub direction: Direction,
}

/// The blur radius of iteration `i` (1-based).
pub open spec fn radius_of(i: int) -> int {
    BLUR_ITERATIONS - i
}

/// Iteration `i` (1-based) of the blur: even iterations write A from B
/// vertically, odd ones write B from A horizontally, and the first one reads
/// the display texture instead.
pub open spec fn blur_pass_spec(i: int) -> BlurPass {
    let radius = radius_of(i) as u32;
    let target = if i % 2 == 0 { Scratch::A } else { Scratch::B };
    let other = if i % 2 == 0 { Scratch::B } else { Scratch::A };
    let source = if i == 1 { BlurSource::Display } else { BlurSource::Scratch(other) };
    let axis = if i % 2 == 0 { Axis::Vertical } else { Axis::Horizontal };
    let direction = if i % 2 == 0 { Direction { x: 0, y: radius } } else { Direction { x: radius, y: 0 } };
    BlurPass { iteration: i as usize, target, source, axis, direction }
}

/// The scratch texture the composite pass reads its glow from: B when the
/// number of iterations is even, A when it is odd.
pub open spec fn glow_source_spec() -> Scratch {
    if BLUR_ITERATIONS % 2 == 0 { Scratch::B } else { Scratch::A }
}

/// Whether the pass blurs horizontally.
pub open spec fn is_horizontal(p: BlurPass) -> bool {
    p.axis == Axis::Horizontal
}

/// The blur pass of iteration `i`, counted from 1.
pub fn blur_pass(i: usize) -> (p: BlurPass)
    requires
        1 <= i <= BLUR_ITERATIONS,
    ensures
        p == blur_pass_spec(i as int),
{
    let radius: u32 = (BLUR_ITERATIONS - i) as u32;
    let (target, other, axis, direction) = if i % 2 == 0 {
        (Scratch::A, Scratch::B, Axis::Vertical, Direction { x: 0, y: radius })
    } else {
        (Scratch::B, Scratch::A, Axis::Horizontal, Direction { x: radius, y: 0 })
    };
    let source = if i == 1 { BlurSource::Display } else { BlurSource::Scratch(other) };
    BlurPass { iteration: i, target, source, axis, direction }
}

/// The scratch texture that the composite pass takes its glow from.
pub fn glow_source() -> (s: Scratch)
    ensures
        s == glow_source_spec(),
{
    if BLUR_ITERATIONS % 2 == 0 {
        Scratch::B
    } else {
        Scratch::A
    }
}

/// The whole blur, iteration 1 first.
pub open spec fn blur_schedule_spec() -> Seq<BlurPass> {
    Seq::new(BLUR_ITERATIONS as nat, |j: int| blur_pass_spec(j + 1))
}

/// All blur passes of a frame, in the order they are drawn.
pub fn blur_schedule() -> (r: Vec<BlurPass>)
    ensures
        r@ == blur_schedule_spec(),
{
    let mut r: Vec<BlurPass> = Vec::new();
    let mut i: usize = 1;
    while i <= BLUR_ITERATIONS
        invariant
            1 <= i <= BLUR_ITERATIONS + 1,
            r@.len() == i - 1,
            forall|j: int| 0 <= j < i - 1 ==> #[trigger] r@[j] == blur_pass_spec(j + 1),
        decreases BLUR_ITERATIONS + 1 - i,
    {
        r.push(blur_pass(i));
        i = i + 1;
    }
    assert(r@ =~= blur_schedule_spec());
    r
}

/// Across the blur, consecutive iterations alternate axis and ping-pong
/// target, each iteration reads what the one before it wrote, and the
/// radius falls by one from `BLUR_ITERATIONS - 1` down to 0.
pub proof fn lemma_blur_alternates()
    ensures
        blur_schedule_spec().len() == BLUR_ITERATIONS,
        blur_schedule_spec()[0].direction == (Direction { x: 7, y: 0 }),
        blur_schedule_spec()[0].source == BlurSource::Display,
        blur_schedule_spec()[BLUR_ITERATIONS - 1].direction == (Direction { x: 0, y: 0 }),
        forall|i: int| 1 <= i <= BLUR_ITERATIONS ==> (#[trigger] blur_pass_spec(i)).iteration == i,
        forall|i: int| 1 <= i <= BLUR_ITERATIONS ==>
            (is_horizontal(#[trigger] blur_pass_spec(i)) <==> i % 2 == 1),
        forall|i: int| 1 <= i <= BLUR_ITERATIONS ==>
            (#[trigger] blur_pass_spec(i)).direction.x + blur_pass_spec(i).direction.y == BLUR_ITERATIONS - i,
        forall|i: int|
            #![trigger blur_pass_spec(i), blur_pass_spec(i + 1)]
            1 <= i < BLUR_ITERATIONS ==> {
            &&& is_horizontal(blur_pass_spec(i)) != is_horizontal(blur_pass_spec(i + 1))
            &&& blur_pass_spec(i).target != blur_pass_spec(i + 1).target
            &&& blur_pass_spec(i + 1).source == BlurSource::Scratch(blur_pass_spec(i).target)
        },
{
    assert(blur_schedule_spec()[0] == blur_pass_spec(1));
    assert(blur_schedule_spec()[BLUR_ITERATIONS - 1] == blur_pass_spec(8));
    assert forall|i: int|
        #![trigger blur_pass_spec(i), blur_pass_spec(i + 1)]
        1 <= i < BLUR_ITERATIONS implies {
        &&& is_horizontal(blur_pass_spec(i)) != is_horizontal(blur_pass_spec(i + 1))
        &&& blur_pass_spec(i).target != blur_pass_spec(i + 1).target
        &&& blur_pass_spec(i + 1).source == BlurSource::Scratch(blur_pass_spec(i).target)
    } by {
        let p = blur_pass_spec(i);
        let q = blur_pass_spec(i + 1);
        if i % 2 == 0 {
            assert((i + 1) % 2 == 1);
            assert(p.axis == Axis::Vertical && p.target == Scratch::A);
            assert(q.axis == Axis::Horizontal && q.target == Scratch::B);
            assert(q.source == BlurSource::Scratch(Scratch::A));
        } else {
            assert((i + 1) % 2 == 0);
            assert(p.axis == Axis::Horizontal && p.target == Scratch::B);
            assert(q.axis == Axis::Vertical && q.target == Scratch::A);
            assert(q.source == BlurSource::Scratch(Scratch::B));
        }
    }
}

} // verus!
