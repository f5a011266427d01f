use crate::control_panel::{axis_index, CPCursor, GorgonAxis, GorgonShape};
use crate::number_text::{dec_text, fixed6_text, push_decimal, push_fixed6};
use vstd::prelude::*;
use vstd::string::*;

verus! {

/// The fixed fragment shaders that can be shown before any settings edit.
#[derive(PartialEq, Eq, Structural, Copy, Clone, Debug)]
pub enum GorgonSelector {
    Spiral,
    SphereAxes,
    TwoCircles,
}

/// The selector after `s` in the cycle Spiral, SphereAxes, TwoCircles.
pub open spec fn selector_after(s: GorgonSelector) -> GorgonSelector {
    match s {
        GorgonSelector::Spiral => GorgonSelector::SphereAxes,
        GorgonSelector::SphereAxes => GorgonSelector::TwoCircles,
        GorgonSelector::TwoCircles => GorgonSelector::Spiral,
    }
}

impl GorgonSelector {
    /// Step to the next fixed shader, wrapping around.
    pub fn next(&mut self)
        ensures
            *final(self) == selector_after(*old(self)),
    {
        *self = match self {
            GorgonSelector::Spiral => GorgonSelector::SphereAxes,
            GorgonSelector::SphereAxes => GorgonSelector::TwoCircles,
            GorgonSelector::TwoCircles => GorgonSelector::Spiral,
        }
    }
}

/// A fixed fragment shader: two sets of rings around points left and right of
/// the view, lit where exactly one of them is.
pub const TWO_CIRCLES_SHADER: &'static str = "
varying vec3 ray;
uniform float phase;

void main() {
float d1 = distance(ray.xy, vec2(1,0));
float a = floor( mod(d1*4.0 + phase*4.0, 2.0));

float d2 = distance(ray.xy, vec2(-1,0));
float b = floor( mod(d2*5.0 + phase*6.0, 2.0));

float g;
if (a!=b) {
    g = 1.0;
} else {
    g = 0.0;
} 

gl_FragColor = vec4(g,g,g, 1.0);
}
        ";

/// The two-circles fragment shader.
pub fn gorgon_two_circles() -> (r: &'static str)
    ensures
        r@ == TWO_CIRCLES_SHADER@,
{
    TWO_CIRCLES_SHADER
}

/// Millionths in one unit: speeds, amplitudes and curls are held in millionths.
pub const MICROS: i64 = 1_000_000;

/// The parameters of one (shape, axis) pattern cell.
///
/// `speed`, `amplitude` and `curl` are held in millionths, so that `4_000_000`
/// is a speed of 4.0.
#[derive(PartialEq, Eq, Structural, Copy, Clone, Debug)]
pub struct GorgonSettings {
    pub enabled: bool,
    pub frequency: u8,
    pub speed: i64,
    pub amplitude: i64,
    pub curl: i64,
}

impl Default for GorgonSettings {
    fn default() -> (r: Self)
        ensures
            r == GorgonSettings::default_spec(),
    {
        Self { enabled: false, frequency: 4, speed: MICROS, amplitude: 0, curl: 0 }
    }
}

/// Declarations shared by every generated fragment shader: the inputs and the
/// conversion of a ray direction to spherical coordinates.
pub const SHADER_HEADER: &'static str = "
precision highp float;

varying vec3 ray;
uniform float phase;

#define PI 3.1415926538

vec3 c2s(vec3 rayn)
{
    float r = length(rayn.xy);

    float theta = atan(rayn.z, r);
    float phi = atan(rayn.y, rayn.x);
    return vec3(theta, phi, r);
}
";

/// Source of the checker function number `index` for a spiral cell: its
/// visibility flips where `phi*frequency/(2*PI) + curl*theta/PI + phase*speed`
/// crosses a half-integer.
pub open spec fn spiral_text(c: GorgonSettings, index: nat) -> Seq<char> {
    "\nbool checker"@ + dec_text(index)
        + "(vec3 sc)\n{\n    float theta = sc.x;\n    float phi = sc.y;\n    return 0.5 > mod(phi*"@
        + dec_text(c.frequency as nat) + ".0/(2.0*PI) + "@ + fixed6_text(c.curl as int)
        + "*theta/PI + phase*"@ + fixed6_text(c.speed as int) + ", 1.0);\n}\n"@
}

/// Source of the checker function number `index` for a latitude cell: bands
/// of `theta` that sway by `amplitude` at a rate set by `speed`.
pub open spec fn latitude_text(c: GorgonSettings, index: nat) -> Seq<char> {
    "\nbool checker"@ + dec_text(index)
        + "(vec3 sc)\n{\n    float theta = sc.x;\n    float phi = sc.y;\n    float offset = "@
        + fixed6_text(c.amplitude as int) + "*sin(mod(phase*2.0*"@ + fixed6_text(c.speed as int)
        + ", 2.0)*PI);\n    return 0.5 > mod( theta * "@ + dec_text(c.frequency as nat)
        + ".0 / (2.0*PI) + offset, 1.0);\n}"@
}

impl GorgonSettings {
    /// The values a cell starts with.
    pub open spec fn default_spec() -> GorgonSettings {
        GorgonSettings { enabled: false, frequency: 4, speed: MICROS, amplitude: 0, curl: 0 }
    }

    /// The frequency lies in `1..=255`.
    pub open spec fn wf(&self) -> bool {
        self.frequency >= 1
    }

    /// The declarations that precede the checker functions.
    pub fn shader_header() -> (r: String)
        ensures
            r@ == SHADER_HEADER@,
    {
        SHADER_HEADER.to_owned()
    }

    /// The checker function number `index` for this cell as a spiral.
    pub fn spiral_shader(&self, index: usize) -> (r: String)
        ensures
            r@ == spiral_text(*self, index as nat),
    {
        let mut s = String::new();
        s.append("\nbool checker");
        push_decimal(&mut s, index as u64);
        s.append(
            "(vec3 sc)\n{\n    float theta = sc.x;\n    float phi = sc.y;\n    return 0.5 > mod(phi*",
        );
        push_decimal(&mut s, self.frequency as u64);
        s.append(".0/(2.0*PI) + ");
        push_fixed6(&mut s, self.curl);
        s.append("*theta/PI + phase*");
        push_fixed6(&mut s, self.speed);
        s.append(", 1.0);\n}\n");
        proof {
            assert(s@ =~= spiral_text(*self, index as nat));
        }
        s
    }

    /// The checker function number `index` for this cell as a latitude pattern.
    pub fn latitude_shader(&self, index: usize) -> (r: String)
        ensures
            r@ == latitude_text(*self, index as nat),
    {
        let mut s = String::new();
        s.append("\nbool checker");
        push_decimal(&mut s, index as u64);
        s.append(
            "(vec3 sc)\n{\n    float theta = sc.x;\n    float phi = sc.y;\n    float offset = ",
        );
        push_fixed6(&mut s, self.amplitude);
        s.append("*sin(mod(phase*2.0*");
        push_fixed6(&mut s, self.speed);
        s.append(", 2.0)*PI);\n    return 0.5 > mod( theta * ");
        push_decimal(&mut s, self.frequency as u64);
        s.append(".0 / (2.0*PI) + offset, 1.0);\n}");
        proof {
            assert(s@ =~= latitude_text(*self, index as nat));
        }
        s
    }
}

/// The pieces of a shader under construction: for each checker function, the
/// swizzle of the ray direction it reads and its source.
pub type Pieces = Seq<(Seq<char>, Seq<char>)>;

/// Piece `i` is the first to read its swizzle.
pub open spec fn first_use(p: Pieces, i: int) -> bool {
    forall|j: int| 0 <= j < i ==> #[trigger] p[j].0 != p[i].0
}

/// The sources of the first `n` checker functions, one after another.
pub open spec fn functions_text(p: Pieces, n: nat) -> Seq<char>
    decreases n,
{
    if n == 0 {
        Seq::empty()
    } else {
        functions_text(p, (n - 1) as nat) + p[n - 1].1
    }
}

/// The line that converts the ray direction, read through `swizzle`, to
/// spherical coordinates.
pub open spec fn coord_line(swizzle: Seq<char>) -> Seq<char> {
    "    vec3 sc_"@ + swizzle + " = c2s(rayn."@ + swizzle + ");\n\n"@
}

/// One conversion line for each distinct swizzle among the first `n` pieces,
/// in order of first use.
pub open spec fn coords_text(p: Pieces, n: nat) -> Seq<char>
    decreases n,
{
    if n == 0 {
        Seq::empty()
    } else {
        coords_text(p, (n - 1) as nat) + if first_use(p, n - 1) {
            coord_line(p[n - 1].0)
        } else {
            Seq::empty()
        }
    }
}

/// The parity expression: `true` XOR each of the first `n` checker results.
pub open spec fn xor_text(p: Pieces, n: nat) -> Seq<char>
    decreases n,
{
    if n == 0 {
        "true\n"@
    } else {
        xor_text(p, (n - 1) as nat) + "        ^^ checker"@ + dec_text((n - 1) as nat) + "(sc_"@
            + p[n - 1].0 + ")\n"@
    }
}

/// The `main` function: the coordinate conversions, then the pixel lit where
/// the parity expression holds.
pub open spec fn main_text(coords: Seq<char>, xors: Seq<char>) -> Seq<char> {
    "\nvoid main()\n{\n    vec3 rayn = normalize(ray);\n\n"@ + coords + "\n    float g = ("@ + xors
        + "        ) ? 1.0 : 0.0;\n    gl_FragColor = vec4(g,g,g, 1.0);\n}\n"@
}

/// The complete fragment shader built from `p`.
pub open spec fn shader_source(p: Pieces) -> Seq<char> {
    SHADER_HEADER@ + functions_text(p, p.len()) + main_text(
        coords_text(p, p.len()),
        xor_text(p, p.len()),
    )
}

/// Each swizzle is converted to spherical coordinates by exactly one line of
/// `main`, however many checkers read it: every piece's swizzle is that of a
/// piece that emits a conversion line (`first_use`), and no two such pieces
/// share a swizzle.
pub proof fn lemma_swizzle_converted_once(p: Pieces, i: int)
    requires
        0 <= i < p.len(),
    ensures
        exists|j: int| 0 <= j <= i && first_use(p, j) && #[trigger] p[j].0 == p[i].0,
        forall|j1: int, j2: int|
            #![trigger first_use(p, j1), first_use(p, j2)]
            0 <= j1 < p.len() && 0 <= j2 < p.len() && first_use(p, j1) && first_use(p, j2)
                && p[j1].0 == p[j2].0 ==> j1 == j2,
    decreases i,
{
    if !first_use(p, i) {
        let k = choose|k: int| 0 <= k < i && #[trigger] p[k].0 == p[i].0;
        lemma_swizzle_converted_once(p, k);
        let j = choose|j: int| 0 <= j <= k && first_use(p, j) && #[trigger] p[j].0 == p[k].0;
        assert(0 <= j <= i && first_use(p, j) && p[j].0 == p[i].0);
    } else {
        assert(first_use(p, i) && p[i].0 == p[i].0);
    }
    assert forall|j1: int, j2: int|
        #![trigger first_use(p, j1), first_use(p, j2)]
        0 <= j1 < p.len() && 0 <= j2 < p.len() && first_use(p, j1) && first_use(p, j2)
            && p[j1].0 == p[j2].0 implies j1 == j2 by {
        if j1 < j2 {
            assert(p[j1].0 != p[j2].0);
        } else if j2 < j1 {
            assert(p[j2].0 != p[j1].0);
        }
    }
}

/// Collects checker functions and assembles them into one fragment shader.
pub struct GorgonFragmentShaderBuilder {
    pieces: Vec<(String, String)>,
}

impl View for GorgonFragmentShaderBuilder {
    type V = Pieces;

    closed spec fn view(&self) -> Pieces {
        self.pieces@.map_values(|q: (String, String)| (q.0@, q.1@))
    }
}

impl Default for GorgonFragmentShaderBuilder {
    fn default() -> (r: Self)
        ensures
            r@ == Seq::<(Seq<char>, Seq<char>)>::empty(),
    {
        let r = Self { pieces: Vec::new() };
        proof {
            assert(r@ =~= Seq::<(Seq<char>, Seq<char>)>::empty());
        }
        r
    }
}

impl GorgonFragmentShaderBuilder {
    fn push_piece(&mut self, swizzle: &str, glsl: String)
        ensures
            final(self)@ == old(self)@.push((swizzle@, glsl@)),
    {
        self.pieces.push((swizzle.to_owned(), glsl));
        proof {
            assert(self@ =~= old(self)@.push((swizzle@, glsl@)));
        }
    }

    /// Add a spiral checker for `settings`, reading the ray through `swizzle`.
    pub fn add_spiral(&mut self, settings: &GorgonSettings, swizzle: &str)
        ensures
            final(self)@ == old(self)@.push((swizzle@, spiral_text(*settings, old(self)@.len()))),
    {
        let index = self.pieces.len();
        let glsl = settings.spiral_shader(index);
        self.push_piece(swizzle, glsl);
    }

    /// Add a latitude checker for `settings`, reading the ray through `swizzle`.
    pub fn add_latitude(&mut self, settings: &GorgonSettings, swizzle: &str)
        ensures
            final(self)@ == old(self)@.push(
                (swizzle@, latitude_text(*settings, old(self)@.len())),
            ),
    {
        let index = self.pieces.len();
        let glsl = settings.latitude_shader(index);
        self.push_piece(swizzle, glsl);
    }

    fn is_first_use(&self, index: usize) -> (r: bool)
        requires
            index < self@.len(),
        ensures
            r == first_use(self@, index as int),
    {
        let mut j: usize = 0;
        while j < index
            invariant
                index < self@.len(),
                j <= index,
                forall|k: int| 0 <= k < j ==> #[trigger] self@[k].0 != self@[index as int].0,
            decreases index - j,
        {
            if self.pieces[j].0 == self.pieces[index].0 {
                proof {
                    assert(self@[j as int].0 == self.pieces@[j as int].0@);
                    assert(self@[index as int].0 == self.pieces@[index as int].0@);
                }
                return false;
            }
            j += 1;
        }
        true
    }

    /// The fragment shader: the header, every checker function in order of
    /// addition, one spherical conversion per distinct swizzle, and a pixel
    /// lit where `true` XOR all checker results holds.
    pub fn build(&self) -> (r: String)
        ensures
            r@ == shader_source(self@),
    {
        let mut rval = GorgonSettings::shader_header();
        let mut swizzle_glsl = String::new();
        let mut xor_glsl = "true\n".to_owned();
        let mut index: usize = 0;
        while index < self.pieces.len()
            invariant
                index <= self@.len(),
                self@.len() == self.pieces@.len(),
                rval@ == SHADER_HEADER@ + functions_text(self@, index as nat),
                swizzle_glsl@ == coords_text(self@, index as nat),
                xor_glsl@ == xor_text(self@, index as nat),
            decreases self@.len() - index,
        {
            let swizzle = &self.pieces[index].0;
            let function = &self.pieces[index].1;
            rval.append(function.as_str());
            proof {
                assert(rval@ =~= SHADER_HEADER@ + functions_text(self@, (index + 1) as nat));
            }
            if self.is_first_use(index) {
                swizzle_glsl.append("    vec3 sc_");
                swizzle_glsl.append(swizzle.as_str());
                swizzle_glsl.append(" = c2s(rayn.");
                swizzle_glsl.append(swizzle.as_str());
                swizzle_glsl.append(");\n\n");
            }
            proof {
                assert(swizzle_glsl@ =~= coords_text(self@, (index + 1) as nat));
            }
            xor_glsl.append("        ^^ checker");
            push_decimal(&mut xor_glsl, index as u64);
            xor_glsl.append("(sc_");
            xor_glsl.append(swizzle.as_str());
            xor_glsl.append(")\n");
            proof {
                assert(xor_glsl@ =~= xor_text(self@, (index + 1) as nat));
            }
            index += 1;
        }
        rval.append("\nvoid main()\n{\n    vec3 rayn = normalize(ray);\n\n");
        rval.append(swizzle_glsl.as_str());
        rval.append("\n    float g = (");
        rval.append(xor_glsl.as_str());
        rval.append("        ) ? 1.0 : 0.0;\n    gl_FragColor = vec4(g,g,g, 1.0);\n}\n");
        proof {
            assert(rval@ =~= shader_source(self@));
        }
        rval
    }
}

/// `v` clamped to `lo..=hi`.
pub open spec fn clamp(v: int, lo: int, hi: int) -> int {
    if v < lo {
        lo
    } else if v > hi {
        hi
    } else {
        v
    }
}

/// The change a stick deflection `delta` (millionths) makes to a value held
/// in millionths: one tenth of it, rounded toward zero.
pub open spec fn gain_step(delta: int) -> int {
    if delta >= 0 {
        delta / 10
    } else {
        -((-delta) / 10)
    }
}

/// `c` with `enabled` flipped.
pub open spec fn toggled(c: GorgonSettings) -> GorgonSettings {
    GorgonSettings { enabled: !c.enabled, ..c }
}

/// `c` with `delta` added to its frequency, clamped to `1..=255`.
pub open spec fn frequency_step(c: GorgonSettings, delta: int) -> GorgonSettings {
    GorgonSettings { frequency: clamp(c.frequency + delta, 1, 255) as u8, ..c }
}

/// `c` with its speed moved by the stick deflection `delta`.
pub open spec fn speed_step(c: GorgonSettings, delta: int) -> GorgonSettings {
    GorgonSettings { speed: accumulate(c.speed as int, delta) as i64, ..c }
}

/// `c` with its amplitude moved by the stick deflection `delta`.
pub open spec fn amplitude_step(c: GorgonSettings, delta: int) -> GorgonSettings {
    GorgonSettings { amplitude: accumulate(c.amplitude as int, delta) as i64, ..c }
}

/// `c` with its curl moved by the stick deflection `delta`.
pub open spec fn curl_step(c: GorgonSettings, delta: int) -> GorgonSettings {
    GorgonSettings { curl: accumulate(c.curl as int, delta) as i64, ..c }
}

/// `old + gain_step(delta)`, saturated to the range of `i64`.
pub open spec fn accumulate(old: int, delta: int) -> int {
    clamp(old + gain_step(delta), i64::MIN as int, i64::MAX as int)
}

fn accumulate_exec(old: i64, delta: i32) -> (r: i64)
    ensures
        r as int == accumulate(old as int, delta as int),
{
    let mag: u64 = if delta >= 0 {
        delta as u64
    } else {
        (0i64 - delta as i64) as u64
    };
    let tenth: i64 = (mag / 10) as i64;
    if delta >= 0 {
        if old > i64::MAX - tenth {
            i64::MAX
        } else {
            old + tenth
        }
    } else {
        if old < i64::MIN + tenth {
            i64::MIN
        } else {
            old - tenth
        }
    }
}

/// All pattern cells, one per (shape, axis), and whether the shader must be
/// rebuilt.
pub struct MultiGorgonSettings {
    /// Set by every edit; cleared once the shader has been rebuilt.
    pub dirty: bool,
    pub spirals: [GorgonSettings; 3],
    pub latitudes: [GorgonSettings; 3],
    pub cartesians: [GorgonSettings; 3],
}

/// The three cells of a shape block, indexed by axis.
pub open spec fn shape_cells(s: MultiGorgonSettings, shape: GorgonShape) -> [GorgonSettings; 3] {
    match shape {
        GorgonShape::Spiral => s.spirals,
        GorgonShape::Latitude => s.latitudes,
        GorgonShape::Cartesian => s.cartesians,
    }
}

/// The cell of `shape` on `axis`.
pub open spec fn cell(s: MultiGorgonSettings, shape: GorgonShape, axis: GorgonAxis) -> GorgonSettings {
    shape_cells(s, shape)@[axis_index(axis)]
}

impl MultiGorgonSettings {
    /// Every cell's frequency lies in `1..=255`.
    pub open spec fn wf(&self) -> bool {
        forall|i: int|
            0 <= i < 3 ==> (#[trigger] self.spirals@[i]).wf() && self.latitudes@[i].wf()
                && self.cartesians@[i].wf()
    }
}

impl Default for MultiGorgonSettings {
    fn default() -> (r: Self)
        ensures
            !r.dirty,
            r.wf(),
            r.spirals@ == seq![GorgonSettings::default_spec(); 3],
            r.latitudes@ == seq![GorgonSettings::default_spec(); 3],
            r.cartesians@ == seq![GorgonSettings::default_spec(); 3],
    {
        let c = GorgonSettings::default();
        let r = Self { dirty: false, spirals: [c, c, c], latitudes: [c, c, c], cartesians: [c, c, c] };
        proof {
            assert(r.spirals@ =~= seq![GorgonSettings::default_spec(); 3]);
            assert(r.latitudes@ =~= seq![GorgonSettings::default_spec(); 3]);
            assert(r.cartesians@ =~= seq![GorgonSettings::default_spec(); 3]);
        }
        r
    }
}

/// The cells of `t` are those of `s` with the cell of `shape` on `axis`
/// replaced by `c`.
pub open spec fn cells_updated(
    s: MultiGorgonSettings,
    t: MultiGorgonSettings,
    shape: GorgonShape,
    axis: GorgonAxis,
    c: GorgonSettings,
) -> bool {
    let i = axis_index(axis);
    &&& t.spirals@ == if shape == GorgonShape::Spiral {
        s.spirals@.update(i, c)
    } else {
        s.spirals@
    }
    &&& t.latitudes@ == if shape == GorgonShape::Latitude {
        s.latitudes@.update(i, c)
    } else {
        s.latitudes@
    }
    &&& t.cartesians@ == if shape == GorgonShape::Cartesian {
        s.cartesians@.update(i, c)
    } else {
        s.cartesians@
    }
}

/// The swizzle through which the cells of axis position `i` read the ray
/// direction: the pole of the spherical coordinates lies along that axis.
pub open spec fn swizzle_of(i: int) -> Seq<char> {
    if i == 0 {
        "yzx"@
    } else if i == 1 {
        "zxy"@
    } else {
        "xyz"@
    }
}

/// The cells that may contribute a checker, in the order they are offered to
/// the builder: spirals by axis, then latitudes by axis, each with its swizzle
/// and whether it is a spiral. Cartesian cells contribute no checker.
pub open spec fn candidates(s: MultiGorgonSettings) -> Seq<(Seq<char>, bool, GorgonSettings)> {
    seq![
        (swizzle_of(0), true, s.spirals@[0]),
        (swizzle_of(1), true, s.spirals@[1]),
        (swizzle_of(2), true, s.spirals@[2]),
        (swizzle_of(0), false, s.latitudes@[0]),
        (swizzle_of(1), false, s.latitudes@[1]),
        (swizzle_of(2), false, s.latitudes@[2]),
    ]
}

/// The pieces that the first `n` candidates give: one per enabled cell,
/// numbered in order.
pub open spec fn render_pieces(c: Seq<(Seq<char>, bool, GorgonSettings)>, n: nat) -> Pieces
    decreases n,
{
    if n == 0 {
        Seq::empty()
    } else {
        let prev = render_pieces(c, (n - 1) as nat);
        let cand = c[n - 1];
        if cand.2.enabled {
            prev.push(
                (
                    cand.0,
                    if cand.1 {
                        spiral_text(cand.2, prev.len())
                    } else {
                        latitude_text(cand.2, prev.len())
                    },
                ),
            )
        } else {
            prev
        }
    }
}

/// The checker pieces of a settings store.
pub open spec fn pattern_pieces(s: MultiGorgonSettings) -> Pieces {
    render_pieces(candidates(s), 6)
}

/// The fragment shader of a settings store.
pub open spec fn fragment_source(s: MultiGorgonSettings) -> Seq<char> {
    shader_source(pattern_pieces(s))
}

proof fn lemma_cell_wf(s: MultiGorgonSettings, shape: GorgonShape, axis: GorgonAxis)
    requires
        s.wf(),
    ensures
        cell(s, shape, axis).wf(),
{
    let i = axis_index(axis);
    assert(s.spirals@[i].wf() && s.latitudes@[i].wf() && s.cartesians@[i].wf());
}

proof fn lemma_update_wf(
    s: MultiGorgonSettings,
    t: MultiGorgonSettings,
    shape: GorgonShape,
    axis: GorgonAxis,
    c: GorgonSettings,
)
    requires
        s.wf(),
        c.wf(),
        cells_updated(s, t, shape, axis, c),
    ensures
        t.wf(),
{
    assert forall|i: int| 0 <= i < 3 implies (#[trigger] t.spirals@[i]).wf() && t.latitudes@[i].wf()
        && t.cartesians@[i].wf() by {
        assert(s.spirals@[i].wf());
        assert(s.latitudes@[i].wf());
        assert(s.cartesians@[i].wf());
    }
}

impl MultiGorgonSettings {
    /// The store the panel starts with: every cell at its default, but for
    /// a spiral on the Z axis (frequency 8, speed 4, curl 3.141593) and a
    /// latitude pattern on the Z axis (frequency 40, amplitude 3), both enabled.
    pub fn with_demo_cells() -> (r: Self)
        ensures
            !r.dirty,
            r.wf(),
            r.spirals@[0] == GorgonSettings::default_spec(),
            r.spirals@[1] == GorgonSettings::default_spec(),
            r.spirals@[2] == (GorgonSettings {
                enabled: true,
                frequency: 8,
                speed: 4_000_000,
                amplitude: 0,
                curl: 3_141_593,
            }),
            r.latitudes@[0] == GorgonSettings::default_spec(),
            r.latitudes@[1] == GorgonSettings::default_spec(),
            r.latitudes@[2] == (GorgonSettings {
                enabled: true,
                frequency: 40,
                speed: MICROS,
                amplitude: 3_000_000,
                curl: 0,
            }),
            r.cartesians@ == seq![GorgonSettings::default_spec(); 3],
    {
        let c = GorgonSettings::default();
        let spiral = GorgonSettings {
            enabled: true,
            frequency: 8,
            speed: 4 * MICROS,
            amplitude: 0,
            curl: 3_141_593,
        };
        let latitude = GorgonSettings {
            enabled: true,
            frequency: 40,
            speed: MICROS,
            amplitude: 3 * MICROS,
            curl: 0,
        };
        Self { dirty: false, spirals: [c, c, spiral], latitudes: [c, c, latitude], cartesians: [c, c, c] }
    }

    /// The fragment shader for the current cells: a checker per enabled spiral
    /// and latitude cell, combined by parity. The dirty flag is not read.
    pub fn fragment_shader(&self) -> (r: String)
        ensures
            r@ == fragment_source(*self),
    {
        let mut builder = GorgonFragmentShaderBuilder::default();
        let swizzles: [&str; 3] = ["yzx", "zxy", "xyz"];
        let ghost cands = candidates(*self);
        let mut i: usize = 0;
        while i < 3
            invariant
                i <= 3,
                cands == candidates(*self),
                swizzles@ == seq!["yzx", "zxy", "xyz"],
                builder@ == render_pieces(cands, i as nat),
            decreases 3 - i,
        {
            if self.spirals[i].enabled {
                builder.add_spiral(&self.spirals[i], swizzles[i]);
            }
            i += 1;
        }
        let mut i: usize = 0;
        while i < 3
            invariant
                i <= 3,
                cands == candidates(*self),
                swizzles@ == seq!["yzx", "zxy", "xyz"],
                builder@ == render_pieces(cands, (3 + i) as nat),
            decreases 3 - i,
        {
            if self.latitudes[i].enabled {
                builder.add_latitude(&self.latitudes[i], swizzles[i]);
            }
            i += 1;
        }
        builder.build()
    }

    /// The three cells of a shape block, indexed by axis.
    pub fn shape_for(&self, shape: GorgonShape) -> (r: &[GorgonSettings; 3])
        ensures
            *r == shape_cells(*self, shape),
    {
        match shape {
            GorgonShape::Spiral => &self.spirals,
            GorgonShape::Latitude => &self.latitudes,
            GorgonShape::Cartesian => &self.cartesians,
        }
    }

    /// The three cells of a shape block, for editing.
    pub fn shape_for_mut(&mut self, shape: GorgonShape) -> (r: &mut [GorgonSettings; 3])
        ensures
            *r == shape_cells(*old(self), shape),
            final(self).dirty == old(self).dirty,
            shape_cells(*final(self), shape) == *final(r),
            forall|sh: GorgonShape|
                sh != shape ==> #[trigger] shape_cells(*final(self), sh) == shape_cells(
                    *old(self),
                    sh,
                ),
    {
        match shape {
            GorgonShape::Spiral => &mut self.spirals,
            GorgonShape::Latitude => &mut self.latitudes,
            GorgonShape::Cartesian => &mut self.cartesians,
        }
    }

    /// The cell of `shape` on `axis`.
    pub fn lookup(&self, shape: GorgonShape, axis: GorgonAxis) -> (r: &GorgonSettings)
        ensures
            *r == cell(*self, shape, axis),
    {
        let cells = self.shape_for(shape);
        &cells[axis.index() as usize]
    }

    /// The cell of `shape` on `axis`, for editing.
    pub fn lookup_mut(&mut self, shape: GorgonShape, axis: GorgonAxis) -> (r: &mut GorgonSettings)
        ensures
            *r == cell(*old(self), shape, axis),
            final(self).dirty == old(self).dirty,
            cells_updated(*old(self), *final(self), shape, axis, *final(r)),
    {
        let i = axis.index() as usize;
        match shape {
            GorgonShape::Spiral => &mut self.spirals[i],
            GorgonShape::Latitude => &mut self.latitudes[i],
            GorgonShape::Cartesian => &mut self.cartesians[i],
        }
    }

    /// Record that the shader was rebuilt from the current cells: clears the
    /// dirty flag and changes no cell.
    pub fn clear_dirty(&mut self)
        ensures
            !final(self).dirty,
            final(self).spirals == old(self).spirals,
            final(self).latitudes == old(self).latitudes,
            final(self).cartesians == old(self).cartesians,
    {
        self.dirty = false;
    }

    /// Flip whether the cell under the cursor is drawn; marks the store dirty.
    pub fn toggle_enabled(&mut self, cursor: CPCursor)
        ensures
            old(self).wf() ==> final(self).wf(),
            final(self).dirty,
            cells_updated(
                *old(self),
                *final(self),
                cursor.row,
                cursor.axis,
                toggled(cell(*old(self), cursor.row, cursor.axis)),
            ),
    {
        self.dirty = true;
        let gorgon = self.lookup_mut(cursor.row, cursor.axis);
        gorgon.enabled = !gorgon.enabled;
        proof {
            if old(self).wf() {
                lemma_cell_wf(*old(self), cursor.row, cursor.axis);
                lemma_update_wf(
                    *old(self),
                    *self,
                    cursor.row,
                    cursor.axis,
                    cell(*self, cursor.row, cursor.axis),
                );
            }
        }
    }

    /// Add `delta` to the frequency of the cell under the cursor, clamped to
    /// `1..=255`. A zero `delta` changes nothing and leaves the dirty flag as
    /// it was; any other marks the store dirty.
    pub fn adjust_frequency(&mut self, delta: i32, cursor: CPCursor)
        ensures
            old(self).wf() ==> final(self).wf(),
            delta == 0 ==> *final(self) == *old(self),
            delta != 0 ==> final(self).dirty,
            delta != 0 ==> cells_updated(
                *old(self),
                *final(self),
                cursor.row,
                cursor.axis,
                frequency_step(cell(*old(self), cursor.row, cursor.axis), delta as int),
            ),
    {
        if delta == 0 {
            return ;
        }
        self.dirty = true;
        let gorgon = self.lookup_mut(cursor.row, cursor.axis);
        let freq: i64 = gorgon.frequency as i64 + delta as i64;
        gorgon.frequency = if freq < 1 {
            1
        } else if freq > 255 {
            255
        } else {
            freq as u8
        };
        proof {
            if old(self).wf() {
                lemma_cell_wf(*old(self), cursor.row, cursor.axis);
                lemma_update_wf(
                    *old(self),
                    *self,
                    cursor.row,
                    cursor.axis,
                    cell(*self, cursor.row, cursor.axis),
                );
            }
        }
    }

    /// Add a tenth of the stick deflection `delta` (millionths) to the speed
    /// of the cell under the cursor, unclamped but for the range of `i64`. A
    /// zero `delta` changes nothing; any other marks the store dirty.
    pub fn adjust_speed(&mut self, delta: i32, cursor: CPCursor)
        ensures
            old(self).wf() ==> final(self).wf(),
            delta == 0 ==> *final(self) == *old(self),
            delta != 0 ==> final(self).dirty,
            delta != 0 ==> cells_updated(
                *old(self),
                *final(self),
                cursor.row,
                cursor.axis,
                speed_step(cell(*old(self), cursor.row, cursor.axis), delta as int),
            ),
    {
        if delta == 0 {
            return ;
        }
        self.dirty = true;
        let gorgon = self.lookup_mut(cursor.row, cursor.axis);
        gorgon.speed = accumulate_exec(gorgon.speed, delta);
        proof {
            if old(self).wf() {
                lemma_cell_wf(*old(self), cursor.row, cursor.axis);
                lemma_update_wf(
                    *old(self),
                    *self,
                    cursor.row,
                    cursor.axis,
                    cell(*self, cursor.row, cursor.axis),
                );
            }
        }
    }

    /// Add a tenth of the stick deflection `delta` (millionths) to the
    /// amplitude of the cell under the cursor, unclamped but for the range of
    /// `i64`. A zero `delta` changes nothing; any other marks the store dirty.
    pub fn adjust_amplitude(&mut self, delta: i32, cursor: CPCursor)
        ensures
            old(self).wf() ==> final(self).wf(),
            delta == 0 ==> *final(self) == *old(self),
            delta != 0 ==> final(self).dirty,
            delta != 0 ==> cells_updated(
                *old(self),
                *final(self),
                cursor.row,
                cursor.axis,
                amplitude_step(cell(*old(self), cursor.row, cursor.axis), delta as int),
            ),
    {
        if delta == 0 {
            return ;
        }
        self.dirty = true;
        let gorgon = self.lookup_mut(cursor.row, cursor.axis);
        gorgon.amplitude = accumulate_exec(gorgon.amplitude, delta);
        proof {
            if old(self).wf() {
                lemma_cell_wf(*old(self), cursor.row, cursor.axis);
                lemma_update_wf(
                    *old(self),
                    *self,
                    cursor.row,
                    cursor.axis,
                    cell(*self, cursor.row, cursor.axis),
                );
            }
        }
    }

    /// Add a tenth of the stick deflection `delta` (millionths) to the curl of
    /// the cell under the cursor, unclamped but for the range of `i64`. A zero
    /// `delta` changes nothing; any other marks the store dirty.
    pub fn adjust_curl(&mut self, delta: i32, cursor: CPCursor)
        ensures
            old(self).wf() ==> final(self).wf(),
            delta == 0 ==> *final(self) == *old(self),
            delta != 0 ==> final(self).dirty,
            delta != 0 ==> cells_updated(
                *old(self),
                *final(self),
                cursor.row,
                cursor.axis,
                curl_step(cell(*old(self), cursor.row, cursor.axis), delta as int),
            ),
    {
        if delta == 0 {
            return ;
        }
        self.dirty = true;
        let gorgon = self.lookup_mut(cursor.row, cursor.axis);
        gorgon.curl = accumulate_exec(gorgon.curl, delta);
        proof {
            if old(self).wf() {
                lemma_cell_wf(*old(self), cursor.row, cursor.axis);
                lemma_update_wf(
                    *old(self),
                    *self,
                    cursor.row,
                    cursor.axis,
                    cell(*self, cursor.row, cursor.axis),
                );
            }
        }
    }
}

/// The shader text depends on the cells alone: two stores holding the same
/// cells, whatever their dirty flags, give the same source, so building twice
/// from an unchanged store yields identical text.
pub proof fn lemma_fragment_source_deterministic(s: MultiGorgonSettings, t: MultiGorgonSettings)
    requires
        s.spirals == t.spirals,
        s.latitudes == t.latitudes,
        s.cartesians == t.cartesians,
    ensures
        fragment_source(s) == fragment_source(t),
{
    assert(candidates(s) == candidates(t));
}

/// With every cell disabled the shader holds no checker function and lights
/// every pixel: its parity expression is the bare constant `true`.
pub proof fn lemma_all_disabled_lights_everything(s: MultiGorgonSettings)
    requires
        forall|i: int|
            0 <= i < 3 ==> !(#[trigger] s.spirals@[i]).enabled && !s.latitudes@[i].enabled
                && !s.cartesians@[i].enabled,
    ensures
        pattern_pieces(s).len() == 0,
        xor_text(pattern_pieces(s), pattern_pieces(s).len()) == "true\n"@,
        fragment_source(s) == SHADER_HEADER@ + main_text(Seq::empty(), "true\n"@),
{
    assert(!s.spirals@[0].enabled && !s.spirals@[1].enabled && !s.spirals@[2].enabled);
    assert(!s.latitudes@[0].enabled && !s.latitudes@[1].enabled && !s.latitudes@[2].enabled);
    reveal_with_fuel(render_pieces, 7);
    let p = pattern_pieces(s);
    assert(p.len() == 0);
    assert(SHADER_HEADER@ + functions_text(p, 0) =~= SHADER_HEADER@);
}

} // verus!
