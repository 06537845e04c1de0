//! The orbit effect: a dot that runs along a closed curve.
//!
//! The curve has two whole-number shape parameters, `a` and `b`. The dot
//! moves by `timestep` tenths of a degree with every update of the settings
//! panel, so the animation runs with the panel's frame rate, not with the
//! clock on the wall.

use vstd::prelude::*;
use crate::draw::{is_quad_draw, quad_draw, DrawCommand};
use crate::layout::{cast_words, is_memory_image};
use crate::pipeline::{quad_pipeline, BufferInit, BufferUsage, PipelineConfig, Setup};
use crate::scalar::{Rgb, Scalar, HALF_BITS, ONE_BITS, ZERO_BITS};
use crate::vertex::{quad, quad_words, vertex_bytes};

verus! {

/// Least value of the shape parameter `a`.
pub const A_MIN: u32 = 1;

/// Greatest value of the shape parameter `a`.
pub const A_MAX: u32 = 50;

/// Least value of the shape parameter `b`.
pub const B_MIN: u32 = 1;

/// Greatest value of the shape parameter `b`.
pub const B_MAX: u32 = 50;

/// Least speed.
pub const TIMESTEP_MIN: u32 = 0;

/// Greatest speed.
pub const TIMESTEP_MAX: u32 = 100;

/// Words of the uniform buffer.
pub const UNIFORM_WORDS: usize = 12;

/// Bytes of the uniform buffer.
pub const UNIFORM_SIZE: u64 = 48;

/// Byte offset of `a` in the uniform buffer.
pub const A_OFFSET: u64 = 0;

/// Byte offset of `b` in the uniform buffer.
pub const B_OFFSET: u64 = 4;

/// Byte offset of the speed in the uniform buffer.
pub const TIMESTEP_OFFSET: u64 = 8;

/// Byte offset of the elapsed angle in the uniform buffer.
pub const TIME_OFFSET: u64 = 12;

/// Byte offset of the dot's colour in the uniform buffer.
pub const COLOR_OFFSET: u64 = 16;

/// Byte offset of the flag that shows the curve in the uniform buffer.
pub const SHOW_LINE_OFFSET: u64 = 28;

/// Byte offset of the curve's colour in the uniform buffer.
pub const LINE_COLOR_OFFSET: u64 = 32;

/// Byte offset of the padding that ends the uniform buffer.
pub const PADDING_OFFSET: u64 = 44;

/// Index of the word that starts at byte `offset`.
pub open spec fn word_index(offset: u64) -> int {
    offset as int / 4
}

/// `v` if it lies between `lo` and `hi`, else the nearer of the two.
pub open spec fn clamp(v: u32, lo: u32, hi: u32) -> u32 {
    if v < lo {
        lo
    } else if v > hi {
        hi
    } else {
        v
    }
}

/// The sum of `time` and `step`, held at the greatest value that fits.
pub open spec fn advance(time: u64, step: u32) -> u64 {
    if time + step <= u64::MAX {
        (time + step) as u64
    } else {
        u64::MAX
    }
}

/// What the controls of the settings panel hold.
#[derive(Clone, Copy, Debug, PartialEq, Eq, Structural)]
pub struct OrbitInput {
    /// Slider from [`A_MIN`] to [`A_MAX`].
    pub a: u32,
    /// Slider from [`B_MIN`] to [`B_MAX`].
    pub b: u32,
    /// Slider from [`TIMESTEP_MIN`] to [`TIMESTEP_MAX`].
    pub timestep: u32,
    /// Colour picker for the dot.
    pub color: Rgb,
    /// Check box that shows the curve.
    pub show_line: bool,
    /// Colour picker for the curve. The panel offers it only while
    /// `show_line` is set.
    pub line_color: Rgb,
}

/// The parameters of the effect.
#[derive(Clone, Copy, Debug, PartialEq, Eq, Structural)]
pub struct OrbitParams {
    /// First shape parameter.
    pub a: u32,
    /// Second shape parameter.
    pub b: u32,
    /// Speed: tenths of a degree per update.
    pub timestep: u32,
    /// Elapsed angle, in tenths of a degree.
    pub time: u64,
    /// Colour of the dot.
    pub color: Rgb,
    /// Whether the curve is drawn.
    pub show_line: bool,
    /// Colour of the curve.
    pub line_color: Rgb,
}

impl OrbitParams {
    /// The parameters that an effect starts with.
    pub open spec fn defaults() -> OrbitParams {
        OrbitParams {
            a: 10,
            b: 10,
            timestep: 15,
            time: 0,
            color: Rgb::grey_of(ONE_BITS),
            show_line: false,
            line_color: Rgb::grey_of(HALF_BITS),
        }
    }

    /// The shape parameters and the speed lie in the ranges of their
    /// sliders.
    pub open spec fn in_bounds(self) -> bool {
        &&& A_MIN <= self.a <= A_MAX
        &&& B_MIN <= self.b <= B_MAX
        &&& TIMESTEP_MIN <= self.timestep <= TIMESTEP_MAX
    }

    /// What the controls hold before the user touches them.
    pub open spec fn controls(self) -> OrbitInput {
        OrbitInput {
            a: self.a,
            b: self.b,
            timestep: self.timestep,
            color: self.color,
            show_line: self.show_line,
            line_color: self.line_color,
        }
    }

    /// The parameters after one update of the panel that left the controls
    /// at `input`. The sliders keep their values in range. The curve's
    /// colour can change only while the curve is shown. Then the angle
    /// grows by the new speed.
    pub open spec fn updated(self, input: OrbitInput) -> OrbitParams {
        let timestep = clamp(input.timestep, TIMESTEP_MIN, TIMESTEP_MAX);
        OrbitParams {
            a: clamp(input.a, A_MIN, A_MAX),
            b: clamp(input.b, B_MIN, B_MAX),
            timestep,
            time: advance(self.time, timestep),
            color: input.color,
            show_line: input.show_line,
            line_color: if input.show_line {
                input.line_color
            } else {
                self.line_color
            },
        }
    }

    /// The parameters after one update for each of `inputs`, in order.
    pub open spec fn replayed(self, inputs: Seq<OrbitInput>) -> OrbitParams
        decreases inputs.len(),
    {
        if inputs.len() == 0 {
            self
        } else {
            self.replayed(inputs.drop_last()).updated(inputs.last())
        }
    }

    /// The uniform buffer as words: `a`, `b`, the speed, the elapsed angle
    /// `time` in radians, the dot's colour, the flag that shows the curve
    /// (1 or 0), the curve's colour, and a word of padding.
    pub open spec fn words(self, time: Scalar) -> Seq<u32> {
        seq![
            self.a,
            self.b,
            self.timestep,
            time.bits,
            self.color.r.bits,
            self.color.g.bits,
            self.color.b.bits,
            if self.show_line { 1u32 } else { 0u32 },
            self.line_color.r.bits,
            self.line_color.g.bits,
            self.line_color.b.bits,
            0u32,
        ]
    }
}

/// The parameter record of the orbit effect, as it goes to the GPU.
///
/// Its shape parameters and its speed are always in range.
#[derive(Clone, Copy, Debug)]
pub struct OrbitDemoUniform {
    a: u32,
    b: u32,
    timestep: u32,
    time: u64,
    color: Rgb,
    show_line: u32,
    line_color: Rgb,
}

impl View for OrbitDemoUniform {
    type V = OrbitParams;

    closed spec fn view(&self) -> OrbitParams {
        OrbitParams {
            a: self.a,
            b: self.b,
            timestep: self.timestep,
            time: self.time,
            color: self.color,
            show_line: self.show_line != 0,
            line_color: self.line_color,
        }
    }
}

fn clamp_to(v: u32, lo: u32, hi: u32) -> (r: u32)
    ensures
        r == clamp(v, lo, hi),
{
    if v < lo {
        lo
    } else if v > hi {
        hi
    } else {
        v
    }
}

impl OrbitDemoUniform {
    #[verifier::type_invariant]
    spec fn valid(&self) -> bool {
        &&& self@.in_bounds()
        &&& self.show_line <= 1
    }

    /// The record that an effect starts with.
    pub fn new() -> (uniform: OrbitDemoUniform)
        ensures
            uniform@ == OrbitParams::defaults(),
    {
        OrbitDemoUniform {
            a: 10,
            b: 10,
            timestep: 15,
            time: 0,
            color: Rgb::grey(Scalar::one()),
            show_line: 0,
            line_color: Rgb::grey(Scalar::half()),
        }
    }

    /// The parameters. They are in range in every state of the record.
    pub fn params(&self) -> (params: OrbitParams)
        ensures
            params == self@,
            params.in_bounds(),
    {
        proof {
            use_type_invariant(self);
        }
        OrbitParams {
            a: self.a,
            b: self.b,
            timestep: self.timestep,
            time: self.time,
            color: self.color,
            show_line: self.show_line != 0,
            line_color: self.line_color,
        }
    }

    /// One update of the panel that left the controls at `input`.
    pub fn update(&mut self, input: &OrbitInput)
        ensures
            final(self)@ == old(self)@.updated(*input),
            final(self)@.in_bounds(),
            final(self)@.time >= old(self)@.time,
    {
        let a = clamp_to(input.a, A_MIN, A_MAX);
        let b = clamp_to(input.b, B_MIN, B_MAX);
        let timestep = clamp_to(input.timestep, TIMESTEP_MIN, TIMESTEP_MAX);
        let line_color = if input.show_line {
            input.line_color
        } else {
            self.line_color
        };
        let show_line: u32 = if input.show_line {
            1
        } else {
            0
        };
        let time = self.time.saturating_add(timestep as u64);
        *self = OrbitDemoUniform {
            a,
            b,
            timestep,
            time,
            color: input.color,
            show_line,
            line_color,
        };
    }

    /// The record as the words of the uniform buffer. `time` is the elapsed
    /// angle in radians.
    pub fn words(&self, time: Scalar) -> (words: Vec<u32>)
        ensures
            words@ == self@.words(time),
    {
        proof {
            use_type_invariant(self);
        }
        let words = vec![
            self.a,
            self.b,
            self.timestep,
            time.bits,
            self.color.r.bits,
            self.color.g.bits,
            self.color.b.bits,
            self.show_line,
            self.line_color.r.bits,
            self.line_color.g.bits,
            self.line_color.b.bits,
            0,
        ];
        assert(words@ =~= self@.words(time));
        words
    }

    /// The record as the bytes of the uniform buffer. `time` is the elapsed
    /// angle in radians.
    pub fn bytes(&self, time: Scalar) -> (bytes: Vec<u8>)
        ensures
            is_memory_image(self@.words(time), bytes@),
            bytes@.len() == UNIFORM_SIZE,
    {
        let words = self.words(time);
        cast_words(words.as_slice())
    }
}

/// The orbit effect.
#[derive(Clone, Copy, Debug)]
pub struct OrbitDemo {
    data: OrbitDemoUniform,
}

impl View for OrbitDemo {
    type V = OrbitParams;

    closed spec fn view(&self) -> OrbitParams {
        self.data@
    }
}

impl OrbitDemo {
    /// The effect with the parameters that it starts with.
    pub fn new() -> (demo: OrbitDemo)
        ensures
            demo@ == OrbitParams::defaults(),
    {
        OrbitDemo { data: OrbitDemoUniform::new() }
    }

    /// The name that the selector shows.
    pub fn name(&self) -> (name: &'static str)
        ensures
            name@ == "Orbit"@,
    {
        "Orbit"
    }

    /// The parameters. They are in range in every state of the effect.
    pub fn params(&self) -> (params: OrbitParams)
        ensures
            params == self@,
            params.in_bounds(),
    {
        self.data.params()
    }

    /// What the controls hold before the user touches them.
    pub fn input(&self) -> (input: OrbitInput)
        ensures
            input == self@.controls(),
    {
        let p = self.data.params();
        OrbitInput {
            a: p.a,
            b: p.b,
            timestep: p.timestep,
            color: p.color,
            show_line: p.show_line,
            line_color: p.line_color,
        }
    }

    /// One update of the settings panel that left the controls at `input`:
    /// takes the values over and moves the dot on.
    pub fn ui(&mut self, input: &OrbitInput)
        ensures
            final(self)@ == old(self)@.updated(*input),
            final(self)@.in_bounds(),
            final(self)@.time >= old(self)@.time,
    {
        self.data.update(input);
    }

    /// The commands that draw the effect. `time` is the elapsed angle in
    /// radians, which the caller derives from the `time` of [`Self::params`].
    pub fn render(&self, time: Scalar) -> (commands: Vec<DrawCommand>)
        ensures
            is_quad_draw(commands@, self@.words(time)),
    {
        let data = self.data.bytes(time);
        quad_draw(data, Ghost(self@.words(time)))
    }

    /// `setup` is what is created once for the effect: the vertex buffer
    /// with the quad, the uniform buffer with the starting parameters at
    /// angle zero, writable by later copies, and the pipeline.
    pub open spec fn is_setup(setup: Setup) -> bool {
        &&& is_memory_image(quad_words(), setup.vertex_buffer.contents@)
        &&& setup.vertex_buffer.usage == (BufferUsage {
            vertex: true,
            uniform: false,
            copy_dst: false,
        })
        &&& is_memory_image(
            OrbitParams::defaults().words(Scalar { bits: ZERO_BITS }),
            setup.uniform_buffer.contents@,
        )
        &&& setup.uniform_buffer.contents@.len() == UNIFORM_SIZE
        &&& setup.uniform_buffer.usage == (BufferUsage {
            vertex: false,
            uniform: true,
            copy_dst: true,
        })
        &&& setup.pipeline == quad_pipeline()
    }

    /// What is created once for the effect.
    pub fn setup() -> (setup: Setup)
        ensures
            OrbitDemo::is_setup(setup),
    {
        let vertices = quad();
        let vertex_buffer = BufferInit {
            contents: vertex_bytes(vertices.as_slice()),
            usage: BufferUsage { vertex: true, uniform: false, copy_dst: false },
        };
        let uniform_buffer = BufferInit {
            contents: OrbitDemoUniform::new().bytes(Scalar::zero()),
            usage: BufferUsage { vertex: false, uniform: true, copy_dst: true },
        };
        Setup { vertex_buffer, uniform_buffer, pipeline: PipelineConfig::quad() }
    }
}

/// A slider keeps its value in its range, whatever the range is, and leaves
/// a value of the range as it is.
pub proof fn lemma_clamp_in_range(v: u32, lo: u32, hi: u32)
    requires
        lo <= hi,
    ensures
        lo <= clamp(v, lo, hi) <= hi,
        lo <= v <= hi ==> clamp(v, lo, hi) == v,
{
}

/// The sliders keep the shape parameters and the speed in range, whatever
/// the controls report and whatever the parameters were.
pub proof fn lemma_update_in_bounds(params: OrbitParams, input: OrbitInput)
    ensures
        params.updated(input).in_bounds(),
{
}

/// Parameters that are in range stay in range over any run of updates.
pub proof fn lemma_replay_in_bounds(params: OrbitParams, inputs: Seq<OrbitInput>)
    requires
        params.in_bounds(),
    ensures
        params.replayed(inputs).in_bounds(),
    decreases inputs.len(),
{
    if inputs.len() > 0 {
        lemma_replay_in_bounds(params, inputs.drop_last());
    }
}

/// An update never turns the dot back.
pub proof fn lemma_time_never_decreases(params: OrbitParams, input: OrbitInput)
    ensures
        params.updated(input).time >= params.time,
{
}

/// Over a run of updates the elapsed angle never decreases: after more of
/// the run it is at least what it was after less.
pub proof fn lemma_time_monotonic(params: OrbitParams, inputs: Seq<OrbitInput>, i: int, j: int)
    requires
        0 <= i <= j <= inputs.len(),
    ensures
        params.replayed(inputs.take(i)).time <= params.replayed(inputs.take(j)).time,
    decreases j - i,
{
    if i < j {
        lemma_time_monotonic(params, inputs, i, j - 1);
        assert(inputs.take(j).drop_last() =~= inputs.take(j - 1));
    }
}

/// With a speed above zero an update moves the dot on, as long as the
/// counter of the angle has room left.
pub proof fn lemma_time_increases(params: OrbitParams, input: OrbitInput)
    requires
        params.updated(input).timestep > 0,
        params.time < u64::MAX,
    ensures
        params.updated(input).time > params.time,
{
}

/// An update with untouched controls changes nothing but the angle.
pub proof fn lemma_idle_update(params: OrbitParams)
    requires
        params.in_bounds(),
    ensures
        params.updated(params.controls()) == (OrbitParams {
            time: advance(params.time, params.timestep),
            ..params
        }),
{
}

/// The controls held at `input` for `n` updates.
pub open spec fn held(input: OrbitInput, n: nat) -> Seq<OrbitInput> {
    Seq::new(n, |i: int| input)
}

/// After `n` updates with the controls held at `input`, the angle has grown
/// by `n` times the speed, up to the greatest value that the counter holds.
pub proof fn lemma_constant_speed(params: OrbitParams, input: OrbitInput, n: nat)
    ensures
        params.replayed(held(input, n)).time == if params.time + n * clamp(
            input.timestep,
            TIMESTEP_MIN,
            TIMESTEP_MAX,
        ) <= u64::MAX {
            params.time + n * clamp(input.timestep, TIMESTEP_MIN, TIMESTEP_MAX)
        } else {
            u64::MAX as int
        },
    decreases n,
{
    let step = clamp(input.timestep, TIMESTEP_MIN, TIMESTEP_MAX);
    if n > 0 {
        lemma_constant_speed(params, input, (n - 1) as nat);
        assert(held(input, n).drop_last() =~= held(input, (n - 1) as nat));
        assert(held(input, n).last() == input);
        assert(n * step == (n - 1) * step + step) by (nonlinear_arith);
        assert((n - 1) * step >= 0) by (nonlinear_arith)
            requires
                n >= 1,
                step >= 0,
        ;
    } else {
        assert(n * step == 0) by (nonlinear_arith)
            requires
                n == 0,
        ;
    }
}

/// The uniform buffer has twelve words in forty-eight bytes. Every field
/// stands at its byte offset, and the two colours start on a multiple of
/// sixteen bytes, as the shader expects of three-component vectors.
pub proof fn lemma_uniform_layout(params: OrbitParams, time: Scalar)
    ensures
        params.words(time).len() == UNIFORM_WORDS,
        4 * UNIFORM_WORDS == UNIFORM_SIZE,
        UNIFORM_SIZE % 16 == 0,
        COLOR_OFFSET % 16 == 0,
        LINE_COLOR_OFFSET % 16 == 0,
        params.words(time)[word_index(A_OFFSET)] == params.a,
        params.words(time)[word_index(B_OFFSET)] == params.b,
        params.words(time)[word_index(TIMESTEP_OFFSET)] == params.timestep,
        params.words(time)[word_index(TIME_OFFSET)] == time.bits,
        params.words(time).subrange(word_index(COLOR_OFFSET), word_index(COLOR_OFFSET) + 3) == seq![
            params.color.r.bits,
            params.color.g.bits,
            params.color.b.bits,
        ],
        params.words(time)[word_index(SHOW_LINE_OFFSET)] == if params.show_line { 1u32 } else { 0u32 },
        params.words(time).subrange(word_index(LINE_COLOR_OFFSET), word_index(LINE_COLOR_OFFSET) + 3) == seq![
            params.line_color.r.bits,
            params.line_color.g.bits,
            params.line_color.b.bits,
        ],
        params.words(time)[word_index(PADDING_OFFSET)] == 0,
{
    let w = params.words(time);
    assert(w.subrange(4, 7) =~= seq![
        params.color.r.bits,
        params.color.g.bits,
        params.color.b.bits,
    ]);
    assert(w.subrange(8, 11) =~= seq![
        params.line_color.r.bits,
        params.line_color.g.bits,
        params.line_color.b.bits,
    ]);
}

} // verus!
