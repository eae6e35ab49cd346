use crate::circle::CircleConfig;
use crate::settings::ColorMode;
use crate::text::{decimal, fixed_text, push_decimal, push_fixed};
use crate::walk::{
    max_of, min_of, random_in_range, walk_step_ok, ColorParamConfig,
};
use vstd::arithmetic::div_mod::lemma_hoist_over_denominator;
use vstd::prelude::*;

verus! {

/// The fixed-point value of 1.0 for saturation, lightness and opacity, which
/// are held in ten-thousandths.
pub const UNIT: i64 = 10_000;

/// A full turn of hue; hue is held in hundredths of a degree.
pub const TURN: i64 = 36_000;

/// How much darker a highlight is: 0.1 of lightness.
pub const DARKER_STEP: i64 = 1_000;

/// One 8-bit channel of an RGB colour.
#[derive(Clone, Copy, Debug, PartialEq, Eq, Structural)]
pub struct ColorBit(pub u8);

/// The lowest value an 8-bit channel may step to: `delta` below, saturating.
pub open spec fn channel_low(current: u8, delta: u8) -> int {
    max_of(0, current - delta)
}

/// The highest value an 8-bit channel may step to: `delta` above, saturating.
pub open spec fn channel_high(current: u8, delta: u8) -> int {
    min_of(255, current + delta)
}

impl ColorBit {
    pub fn rand() -> Self {
        ColorBit(random_in_range(0, 255) as u8)
    }

    pub fn update(&mut self, config: &CircleConfig)
        ensures
            channel_low(old(self).0, config.max_color_delta) <= final(self).0 <= channel_high(
                old(self).0,
                config.max_color_delta,
            ),
    {
        let min = self.0.saturating_sub(config.max_color_delta);
        let max = self.0.saturating_add(config.max_color_delta);
        self.0 = random_in_range(min as i64, max as i64) as u8;
    }
}

/// Opacity, in ten-thousandths.
#[derive(Clone, Copy, Debug, PartialEq, Eq, Structural)]
pub struct Opacity(pub i64);

impl Opacity {
    pub open spec fn valid(self) -> bool {
        0 <= self.0 <= UNIT
    }

    pub fn rand() -> (r: Self)
        ensures
            r.valid(),
    {
        Opacity(random_in_range(0, UNIT))
    }

    /// Opacity is drawn afresh on each step, not walked.
    pub fn update(&mut self)
        ensures
            final(self).valid(),
    {
        self.0 = random_in_range(0, UNIT)
    }
}

#[derive(Clone, Copy, Debug, PartialEq, Eq, Structural)]
pub struct RGBColor {
    pub r: ColorBit,
    pub g: ColorBit,
    pub b: ColorBit,
    pub a: Opacity,
}

pub open spec fn channel_stepped(old: ColorBit, new: ColorBit, delta: u8) -> bool {
    channel_low(old.0, delta) <= new.0 <= channel_high(old.0, delta)
}

/// `new` is a possible outcome of one update of `old`.
pub open spec fn rgb_stepped(old: RGBColor, new: RGBColor, config: CircleConfig) -> bool {
    &&& channel_stepped(old.r, new.r, config.max_color_delta)
    &&& channel_stepped(old.g, new.g, config.max_color_delta)
    &&& channel_stepped(old.b, new.b, config.max_color_delta)
    &&& new.a.valid()
}

/// The text of an RGB colour: `rgb(r, g, b, a)`.
pub open spec fn rgba_text(c: RGBColor) -> Seq<char> {
    "rgb("@ + decimal(c.r.0 as nat) + ", "@ + decimal(c.g.0 as nat) + ", "@ + decimal(
        c.b.0 as nat,
    ) + ", "@ + fixed_text(c.a.0 as int, 4) + ")"@
}

impl RGBColor {
    pub fn new() -> (r: Self)
        ensures
            r.a.valid(),
    {
        RGBColor { r: ColorBit::rand(), g: ColorBit::rand(), b: ColorBit::rand(), a: Opacity::rand() }
    }

    pub fn to_rgba(&self) -> (r: String)
        ensures
            r@ == rgba_text(*self),
    {
        let mut s = String::from_str("rgb(");
        push_decimal(&mut s, self.r.0 as u64);
        s.append(", ");
        push_decimal(&mut s, self.g.0 as u64);
        s.append(", ");
        push_decimal(&mut s, self.b.0 as u64);
        s.append(", ");
        push_fixed(&mut s, self.a.0, 4);
        s.append(")");
        s
    }

    pub fn update(&mut self, config: &CircleConfig)
        ensures
            rgb_stepped(*old(self), *final(self), *config),
    {
        self.r.update(config);
        self.g.update(config);
        self.b.update(config);
        self.a.update();
    }

    /// The highlight colour of this one, as HSL text.
    pub fn to_slightly_darker_color(&self) -> (r: String)
        ensures
            r@ == hsl_text(darker(hsl_of_rgb(*self))),
    {
        HSL::from_rgb(self).to_slightly_darker_color().to_hsl()
    }
}

/// Hue, in hundredths of a degree.
#[derive(Clone, Copy, Debug, PartialEq, Eq, Structural)]
pub struct Hue(pub i64);

/// `v` lies within the bounds of `c`, taken in either order.
pub open spec fn within_bounds(v: int, c: ColorParamConfig) -> bool {
    min_of(c.min_value as int, c.max_value as int) <= v <= max_of(
        c.min_value as int,
        c.max_value as int,
    )
}

/// `new` is a possible outcome of one walk step of `old` under `c`.
pub open spec fn param_stepped(old: i64, new: i64, c: ColorParamConfig) -> bool {
    walk_step_ok(new as int, old as int, c.max_delta as int, c.min_value as int, c.max_value as int)
}

impl Hue {
    pub fn new(config: &CircleConfig) -> (r: Self)
        ensures
            within_bounds(r.0 as int, config.color_config.hue_config),
    {
        Hue(config.color_config.hue_config.sample())
    }

    pub fn update(&mut self, config: &CircleConfig)
        ensures
            param_stepped(old(self).0, final(self).0, config.color_config.hue_config),
    {
        self.0 = config.color_config.hue_config.step(self.0)
    }
}

/// The bounded walks of the three HSL channels.
#[derive(Clone, Copy, Debug, PartialEq, Eq, Structural)]
pub struct ColorConfig {
    pub hue_config: ColorParamConfig,
    pub saturation_config: ColorParamConfig,
    pub lightness_config: ColorParamConfig,
}

/// An HSL colour: hue in hundredths of a degree, saturation and lightness in
/// ten-thousandths.
#[derive(Clone, Copy, Debug, PartialEq, Eq, Structural)]
pub struct HSL {
    pub hue: Hue,
    pub saturation: i64,
    pub lightness: i64,
    pub opacity: Opacity,
}

/// `c` could have been drawn afresh under `cc`.
pub open spec fn hsl_fresh(c: HSL, cc: ColorConfig) -> bool {
    &&& within_bounds(c.hue.0 as int, cc.hue_config)
    &&& within_bounds(c.saturation as int, cc.saturation_config)
    &&& within_bounds(c.lightness as int, cc.lightness_config)
    &&& c.opacity.valid()
}

/// `new` is a possible outcome of one update of `old`.
pub open spec fn hsl_stepped(old: HSL, new: HSL, cc: ColorConfig) -> bool {
    &&& param_stepped(old.hue.0, new.hue.0, cc.hue_config)
    &&& param_stepped(old.saturation, new.saturation, cc.saturation_config)
    &&& param_stepped(old.lightness, new.lightness, cc.lightness_config)
    &&& new.opacity.valid()
}

/// The text of an HSL colour without opacity: `hsl(h, s%, l%)`.
pub open spec fn hsl_text(c: HSL) -> Seq<char> {
    "hsl("@ + fixed_text(c.hue.0 as int, 2) + ", "@ + fixed_text(c.saturation as int, 2) + "%, "@
        + fixed_text(c.lightness as int, 2) + "%)"@
}

/// The text of an HSL colour with opacity: `hsl(h, s%, l%, a)`.
pub open spec fn hsla_text(c: HSL) -> Seq<char> {
    "hsl("@ + fixed_text(c.hue.0 as int, 2) + ", "@ + fixed_text(c.saturation as int, 2) + "%, "@
        + fixed_text(c.lightness as int, 2) + "%, "@ + fixed_text(c.opacity.0 as int, 4) + ")"@
}

/// The same colour with its lightness lowered by `DARKER_STEP`, not below 0.
pub open spec fn darker(c: HSL) -> HSL {
    HSL { lightness: if c.lightness < DARKER_STEP { 0 } else { (c.lightness - DARKER_STEP) as i64 }, ..c }
}

pub open spec fn max3(r: int, g: int, b: int) -> int {
    max_of(r, max_of(g, b))
}

pub open spec fn min3(r: int, g: int, b: int) -> int {
    min_of(r, min_of(g, b))
}

/// Hue of an RGB colour, in hundredths of a degree, rounded down: 0 for a
/// grey, else by the channel that is largest (red first, then green). A
/// red-led hue below zero (blue above green) is wrapped by a full turn, so
/// the hue lies in `[0, TURN)`.
pub open spec fn hue_of_rgb(r: int, g: int, b: int) -> int {
    let c_max = max3(r, g, b);
    let delta = c_max - min3(r, g, b);
    if delta == 0 {
        0
    } else if c_max == r {
        if g >= b {
            6000 * (g - b) / delta
        } else {
            TURN + 6000 * (g - b) / delta
        }
    } else if c_max == g {
        12000 + 6000 * (b - r) / delta
    } else {
        24000 + 6000 * (r - g) / delta
    }
}

/// Saturation of an RGB colour, in ten-thousandths, rounded down: the spread
/// of the channels over the largest one, 0 for black.
pub open spec fn saturation_of_rgb(r: int, g: int, b: int) -> int {
    let c_max = max3(r, g, b);
    let delta = c_max - min3(r, g, b);
    if c_max == 0 {
        0
    } else {
        UNIT * delta / c_max
    }
}

/// Lightness of an RGB colour as this model derives it, in ten-thousandths,
/// rounded down: half the spread over the distance of the mid level from
/// the nearer end, 0 where the mid level is black or white.
pub open spec fn lightness_of_rgb(r: int, g: int, b: int) -> int {
    let c_max = max3(r, g, b);
    let c_min = min3(r, g, b);
    let sum = c_max + c_min;
    if sum == 0 || sum == 510 {
        0
    } else {
        UNIT * (c_max - c_min) / min_of(sum, 510 - sum)
    }
}

pub open spec fn hsl_of_rgb(c: RGBColor) -> HSL {
    HSL {
        hue: Hue(hue_of_rgb(c.r.0 as int, c.g.0 as int, c.b.0 as int) as i64),
        saturation: saturation_of_rgb(c.r.0 as int, c.g.0 as int, c.b.0 as int) as i64,
        lightness: lightness_of_rgb(c.r.0 as int, c.g.0 as int, c.b.0 as int) as i64,
        opacity: c.a,
    }
}

/// `(6000 * (x + d)) / d - 6000` is `6000 * x / d`, rounded down.
fn scaled_ratio(x_plus_d: u32, d: u32) -> (r: i64)
    requires
        0 < d <= 255,
        x_plus_d <= 2 * d,
    ensures
        r == 6000 * (x_plus_d - d) / (d as int),
        -6000 <= r <= 6000,
        x_plus_d < d ==> r < 0,
        x_plus_d >= d ==> r >= 0,
{
    let q = (6000 * x_plus_d) / d;
    proof {
        if x_plus_d < d {
            assert((6000 * x_plus_d) / (d as int) < 6000) by (nonlinear_arith)
                requires x_plus_d < d, d > 0;
        } else {
            assert((6000 * x_plus_d) / (d as int) >= 6000) by (nonlinear_arith)
                requires x_plus_d >= d, d > 0;
        }
        let x = x_plus_d - d;
        lemma_hoist_over_denominator(6000 * x, 6000, d as nat);
        assert(6000 * x_plus_d == 6000 * x + 6000 * d) by (nonlinear_arith)
            requires x == x_plus_d - d;
        assert(6000 * x_plus_d <= 12000 * d) by (nonlinear_arith)
            requires x_plus_d <= 2 * d;
        assert((6000 * x_plus_d) / (d as int) <= 12000) by (nonlinear_arith)
            requires 6000 * x_plus_d <= 12000 * d, d > 0;
    }
    q as i64 - 6000
}

impl HSL {
    pub fn new(config: &CircleConfig) -> (r: Self)
        ensures
            hsl_fresh(r, config.color_config),
    {
        HSL {
            hue: Hue::new(config),
            saturation: config.color_config.saturation_config.sample(),
            lightness: config.color_config.lightness_config.sample(),
            opacity: Opacity::rand(),
        }
    }

    pub fn update(&mut self, config: &CircleConfig)
        ensures
            hsl_stepped(*old(self), *final(self), config.color_config),
    {
        self.hue.update(config);
        self.opacity.update();
        self.saturation = config.color_config.saturation_config.step(self.saturation);
        self.lightness = config.color_config.lightness_config.step(self.lightness);
    }

    pub fn to_hsl(&self) -> (r: String)
        ensures
            r@ == hsl_text(*self),
    {
        let mut s = String::from_str("hsl(");
        push_fixed(&mut s, self.hue.0, 2);
        s.append(", ");
        push_fixed(&mut s, self.saturation, 2);
        s.append("%, ");
        push_fixed(&mut s, self.lightness, 2);
        s.append("%)");
        s
    }

    pub fn to_hsla(&self) -> (r: String)
        ensures
            r@ == hsla_text(*self),
    {
        let mut s = String::from_str("hsl(");
        push_fixed(&mut s, self.hue.0, 2);
        s.append(", ");
        push_fixed(&mut s, self.saturation, 2);
        s.append("%, ");
        push_fixed(&mut s, self.lightness, 2);
        s.append("%, ");
        push_fixed(&mut s, self.opacity.0, 4);
        s.append(")");
        s
    }

    pub fn to_slightly_darker_color(self) -> (r: Self)
        ensures
            r == darker(self),
    {
        HSL {
            lightness: if self.lightness < DARKER_STEP {
                0
            } else {
                self.lightness - DARKER_STEP
            },
            ..self
        }
    }

    pub fn from_rgb(rgb: &RGBColor) -> (r: HSL)
        ensures
            r == hsl_of_rgb(*rgb),
            0 <= r.hue.0 < TURN,
    {
        let r = rgb.r.0 as u32;
        let g = rgb.g.0 as u32;
        let b = rgb.b.0 as u32;
        let c_max = if r >= g && r >= b { r } else if g >= b { g } else { b };
        let c_min = if r <= g && r <= b { r } else if g <= b { g } else { b };
        let delta = c_max - c_min;
        let hue: i64 = if delta == 0 {
            0
        } else if c_max == r {
            let q = scaled_ratio(g + delta - b, delta);
            if g >= b {
                q
            } else {
                TURN + q
            }
        } else if c_max == g {
            12000 + scaled_ratio(b + delta - r, delta)
        } else {
            24000 + scaled_ratio(r + delta - g, delta)
        };
        let saturation: u32 = if c_max == 0 {
            0
        } else {
            (10_000 * delta) / c_max
        };
        let sum = c_max + c_min;
        let lightness: u32 = if sum == 0 || sum == 510 {
            0
        } else {
            let spread = if sum <= 510 - sum { sum } else { 510 - sum };
            (10_000 * delta) / spread
        };
        proof {
            assert(10_000 * delta <= 10_000 * 255) by (nonlinear_arith)
                requires delta <= 255;
        }
        HSL {
            hue: Hue(hue),
            saturation: saturation as i64,
            lightness: lightness as i64,
            opacity: rgb.a,
        }
    }
}

#[derive(Clone, Copy, Debug, PartialEq, Eq, Structural)]
pub enum Color {
    RGB(RGBColor),
    HSL(HSL),
}

/// `c` could have been drawn afresh in `mode` under `config`.
pub open spec fn color_fresh(c: Color, mode: ColorMode, config: CircleConfig) -> bool {
    match (mode, c) {
        (ColorMode::RGB, Color::RGB(rgb)) => rgb.a.valid(),
        (ColorMode::HSL, Color::HSL(hsl)) => hsl_fresh(hsl, config.color_config),
        _ => false,
    }
}

/// `new` is a possible outcome of one update of `old`; the model never changes.
pub open spec fn color_stepped(old: Color, new: Color, config: CircleConfig) -> bool {
    match (old, new) {
        (Color::RGB(a), Color::RGB(b)) => rgb_stepped(a, b, config),
        (Color::HSL(a), Color::HSL(b)) => hsl_stepped(a, b, config.color_config),
        _ => false,
    }
}

pub open spec fn color_text(c: Color) -> Seq<char> {
    match c {
        Color::RGB(rgb) => rgba_text(rgb),
        Color::HSL(hsl) => hsla_text(hsl),
    }
}

pub open spec fn as_hsl(c: Color) -> HSL {
    match c {
        Color::RGB(rgb) => hsl_of_rgb(rgb),
        Color::HSL(hsl) => hsl,
    }
}

impl Color {
    /// The highlight colour: this one in HSL, slightly darker.
    pub fn to_slightly_darker_color(&self) -> (r: String)
        ensures
            r@ == hsl_text(darker(as_hsl(*self))),
    {
        let hsl = match self {
            Color::HSL(hsl) => *hsl,
            Color::RGB(rgb) => HSL::from_rgb(rgb),
        };
        hsl.to_slightly_darker_color().to_hsl()
    }

    pub fn new(color_mode: &ColorMode, config: &CircleConfig) -> (r: Self)
        ensures
            color_fresh(r, *color_mode, *config),
    {
        match color_mode {
            ColorMode::RGB => Color::RGB(RGBColor::new()),
            ColorMode::HSL => Color::HSL(HSL::new(config)),
        }
    }

    pub fn update(&mut self, config: &CircleConfig)
        ensures
            color_stepped(*old(self), *final(self), *config),
    {
        match self {
            Color::RGB(rgb) => rgb.update(config),
            Color::HSL(hsl) => hsl.update(config),
        }
    }

    pub fn to_string(&self) -> (r: String)
        ensures
            r@ == color_text(*self),
    {
        match self {
            Color::RGB(rgb) => rgb.to_rgba(),
            Color::HSL(hsl) => hsl.to_hsla(),
        }
    }
}

/// A grey, with all three channels equal, has hue 0 and saturation 0.
pub proof fn lemma_gray_has_no_hue(c: RGBColor)
    requires
        c.r.0 == c.g.0,
        c.g.0 == c.b.0,
    ensures
        hsl_of_rgb(c).hue.0 == 0,
        hsl_of_rgb(c).saturation == 0,
{
}

} // verus!
