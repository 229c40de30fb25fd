//! The indicator's frames and the mapping from speed to render parameters.
//!
//! The frames are concentric full circles of growing diameter, centred in a
//! square bounding box; speed picks a frame and scales colour, opacity and
//! stroke width.
use vstd::prelude::*;

verus! {

/// Number of frames in an animation.
pub const FRAME_COUNT: usize = 100;

/// A full circle, in 1/64 degrees.
pub const FULL_TURN: i16 = 23040;

/// An arc in window coordinates, as the display protocol describes one.
#[derive(Debug, Clone, Copy, PartialEq, Eq, Structural)]
pub struct ArcGeometry {
    pub x: i16,
    pub y: i16,
    pub width: u16,
    pub height: u16,
    pub angle1: i16,
    pub angle2: i16,
}

/// What one frame of the indicator looks like.
#[derive(Debug, Clone, Copy, PartialEq, Eq, Structural)]
pub struct RenderParams {
    /// Which frame of the animation to draw.
    pub frame_index: usize,
    /// Red component of the foreground colour.
    pub color_intensity: u8,
    /// Opacity of the foreground colour.
    pub alpha: u8,
    /// Line width of the arc.
    pub stroke_width: u32,
}

/// The circle of diameter `size` centred in a box of side `max_size`.
pub open spec fn circle_spec(max_size: int, size: int) -> ArcGeometry {
    ArcGeometry {
        x: (max_size / 2 - size / 2) as i16,
        y: (max_size / 2 - size / 2) as i16,
        width: size as u16,
        height: size as u16,
        angle1: 0,
        angle2: FULL_TURN,
    }
}

/// The widest stroke that an animation in a box of side `max_size` uses.
pub open spec fn max_border_spec(max_size: int) -> int {
    max_size / 2 - 16
}

/// Diameter of frame `s` of `FRAME_COUNT` in a box of side `max_size`.
pub open spec fn frame_size(max_size: int, s: int) -> int {
    (max_size - max_border_spec(max_size)) * s / FRAME_COUNT as int
}

pub open spec fn min(a: int, b: int) -> int {
    if a <= b {
        a
    } else {
        b
    }
}

/// Frame picked by `speed` among `n` frames: `min(speed / 10, n - 1)`.
pub open spec fn frame_index_spec(n: int, speed: int) -> int {
    min(speed / 10, n - 1)
}

/// The render parameters for `speed`, with `n` frames and stroke widths up
/// to `max_border`.
pub open spec fn params_spec(n: int, max_border: int, speed: int) -> RenderParams {
    RenderParams {
        frame_index: frame_index_spec(n, speed) as usize,
        color_intensity: min(speed * 5 / 4, 255) as u8,
        alpha: min(speed / 5, 200) as u8,
        stroke_width: min(if speed / 30 >= 1 { speed / 30 } else { 1 }, max_border) as u32,
    }
}

/// The circle of diameter `size` centred in a box of side `max_size`.
fn circle(max_size: u32, size: u32) -> (r: ArcGeometry)
    requires
        size <= max_size <= i16::MAX,
    ensures
        r == circle_spec(max_size as int, size as int),
{
    let x: i16 = (max_size as i16) / 2 - (size as i16) / 2;
    let y: i16 = (max_size as i16) / 2 - (size as i16) / 2;
    ArcGeometry { x, y, width: size as u16, height: size as u16, angle1: 0, angle2: FULL_TURN }
}

pub struct Animation {
    max_size: u32,
    max_border: u32,
    frames: Vec<ArcGeometry>,
}

impl Animation {
    /// Side of the bounding box.
    pub closed spec fn max_size_spec(&self) -> int {
        self.max_size as int
    }

    /// Widest stroke used.
    pub closed spec fn max_border_of(&self) -> int {
        self.max_border as int
    }

    /// The frames, smallest first.
    pub closed spec fn frames_spec(&self) -> Seq<ArcGeometry> {
        self.frames@
    }

    pub open spec fn wf(&self) -> bool {
        &&& 32 <= self.max_size_spec() <= i16::MAX
        &&& self.max_border_of() == max_border_spec(self.max_size_spec())
        &&& self.frames_spec().len() == FRAME_COUNT
        &&& forall|s: int|
            0 <= s < FRAME_COUNT ==> #[trigger] self.frames_spec()[s] == circle_spec(
                self.max_size_spec(),
                frame_size(self.max_size_spec(), s),
            )
    }

    /// The render parameters that `speed` gives for this animation.
    pub open spec fn render_spec(&self, speed: int) -> RenderParams {
        params_spec(self.frames_spec().len() as int, self.max_border_of(), speed)
    }

    /// Builds the frames for a box of side `max_size`.
    pub fn new(max_size: u32) -> (r: Animation)
        requires
            32 <= max_size <= i16::MAX,
        ensures
            r.wf(),
            r.max_size_spec() == max_size,
    {
        let max_border: u32 = max_size / 2 - 16;
        let span: u32 = max_size - max_border;
        let mut frames: Vec<ArcGeometry> = Vec::new();
        let mut s: u32 = 0;
        while s < FRAME_COUNT as u32
            invariant
                s <= FRAME_COUNT,
                32 <= max_size <= i16::MAX,
                max_border == max_border_spec(max_size as int),
                span == max_size - max_border,
                frames@.len() == s,
                forall|i: int|
                    0 <= i < s ==> #[trigger] frames@[i] == circle_spec(
                        max_size as int,
                        frame_size(max_size as int, i),
                    ),
            decreases FRAME_COUNT - s,
        {
            assert(span * s <= span * 100) by (nonlinear_arith)
                requires
                    s <= 100,
            ;
            assert(span * s / 100 <= span) by (nonlinear_arith)
                requires
                    s <= 100,
                    span * s <= span * 100,
            ;
            let size: u32 = span * s / (FRAME_COUNT as u32);
            frames.push(circle(max_size, size));
            s = s + 1;
        }
        Animation { max_size, max_border, frames }
    }

    /// The frame drawn for `index`.
    pub fn frame(&self, index: usize) -> (r: ArcGeometry)
        requires
            index < self.frames_spec().len(),
        ensures
            r == self.frames_spec()[index as int],
    {
        self.frames[index]
    }

    /// Number of frames.
    pub fn frame_count(&self) -> (r: usize)
        ensures
            r == self.frames_spec().len(),
    {
        self.frames.len()
    }

    /// The render parameters for the effective speed `speed`: the frame, the
    /// colour, the opacity and the stroke width. The result depends on the
    /// speed alone.
    pub fn play(&self, speed: u64) -> (r: RenderParams)
        requires
            self.wf(),
        ensures
            r == self.render_spec(speed as int),
    {
        let last: u64 = (self.frames.len() - 1) as u64;
        let by_speed: u64 = speed / 10;
        let frame_index: usize = if by_speed < last { by_speed as usize } else { last as usize };
        let capped: u64 = if speed > 1000 { 1000 } else { speed };
        let red: u64 = capped * 5 / 4;
        let color_intensity: u8 = if red < 255 { red as u8 } else { 255 };
        let by_alpha: u64 = speed / 5;
        let alpha: u8 = if by_alpha < 200 { by_alpha as u8 } else { 200 };
        let by_width: u64 = speed / 30;
        let at_least_one: u64 = if by_width >= 1 { by_width } else { 1 };
        let stroke_width: u32 = if at_least_one <= self.max_border as u64 {
            at_least_one as u32
        } else {
            self.max_border
        };
        RenderParams { frame_index, color_intensity, alpha, stroke_width }
    }
}

/// The frame index never decreases as the speed grows, and always names
/// one of the `n` frames; the other parameters never decrease either.
pub proof fn lemma_params_monotone(n: int, max_border: int, s1: int, s2: int)
    requires
        1 <= n,
        0 <= max_border <= u32::MAX,
        0 <= s1 <= s2,
    ensures
        0 <= frame_index_spec(n, s1) <= frame_index_spec(n, s2) <= n - 1,
        params_spec(n, max_border, s1).color_intensity <= params_spec(n, max_border, s2).color_intensity,
        params_spec(n, max_border, s1).alpha <= params_spec(n, max_border, s2).alpha,
        params_spec(n, max_border, s1).stroke_width <= params_spec(n, max_border, s2).stroke_width,
{
    assert(s1 / 10 <= s2 / 10) by (nonlinear_arith)
        requires
            0 <= s1 <= s2,
    ;
    assert(s1 * 5 / 4 <= s2 * 5 / 4) by (nonlinear_arith)
        requires
            0 <= s1 <= s2,
    ;
    assert(s1 / 5 <= s2 / 5) by (nonlinear_arith)
        requires
            0 <= s1 <= s2,
    ;
    assert(s1 / 30 <= s2 / 30) by (nonlinear_arith)
        requires
            0 <= s1 <= s2,
    ;
}

/// Asking twice for the parameters of one speed gives identical results.
pub proof fn lemma_play_idempotent(a: Animation, speed: u64, r1: RenderParams, r2: RenderParams)
    requires
        r1 == a.render_spec(speed as int),
        r2 == a.render_spec(speed as int),
    ensures
        r1 == r2,
{
}

} // verus!
