use crate::circle::{CircleConfig, PIXEL};
use vstd::prelude::*;

verus! {

/// Ticks per frame that the normal speed asks for.
pub const NORMAL_SPEED_STEPS: u32 = 1;

/// Ticks per frame that the fast speed asks for.
pub const FAST_SPEED_STEPS: u32 = 3000;

/// Side of the square canvas in the giant size mode, in canvas units.
pub const GIANT_SIZE: u32 = 12_000 * PIXEL;

/// Whether persistent circles move on each tick.
#[derive(Clone, Copy, Debug, PartialEq, Eq, Structural)]
pub enum Status {
    RUNNING,
    PAUSED,
}

impl Status {
    pub fn toggle(&mut self)
        ensures
            *final(self) == (match *old(self) {
                Status::RUNNING => Status::PAUSED,
                Status::PAUSED => Status::RUNNING,
            }),
    {
        *self = match *self {
            Status::RUNNING => Status::PAUSED,
            Status::PAUSED => Status::RUNNING,
        }
    }

    /// The label of the run/pause button: what pressing it would do.
    pub fn to_button_display(&self) -> (r: String)
        ensures
            r@ == (match *self {
                Status::RUNNING => "⏸"@,
                Status::PAUSED => "▶️"@,
            }),
    {
        String::from_str(
            match *self {
                Status::RUNNING => "⏸",
                Status::PAUSED => "▶️",
            },
        )
    }
}

/// How many ticks a frame asks for.
#[derive(Clone, Copy, Debug, PartialEq, Eq, Structural)]
pub enum Speed {
    NORMAL,
    FAST,
}

impl Speed {
    pub open spec fn frame_steps(self) -> u32 {
        match self {
            Speed::NORMAL => NORMAL_SPEED_STEPS,
            Speed::FAST => FAST_SPEED_STEPS,
        }
    }

    pub open spec fn spec_next(self) -> Speed {
        match self {
            Speed::NORMAL => Speed::FAST,
            Speed::FAST => Speed::NORMAL,
        }
    }

    /// Ticks per frame, before the population is taken into account.
    pub fn steps(self) -> (r: u32)
        ensures
            r == self.frame_steps(),
    {
        match self {
            Speed::NORMAL => NORMAL_SPEED_STEPS,
            Speed::FAST => FAST_SPEED_STEPS,
        }
    }

    pub fn next(self) -> (r: Speed)
        ensures
            r == self.spec_next(),
    {
        match self {
            Speed::NORMAL => Speed::FAST,
            Speed::FAST => Speed::NORMAL,
        }
    }

    pub fn toggle(&mut self)
        ensures
            *final(self) == old(self).spec_next(),
    {
        *self = self.next()
    }

    fn display(self) -> (r: String)
        ensures
            r@ == speed_symbol(self),
    {
        String::from_str(
            match self {
                Speed::NORMAL => "🐢",
                Speed::FAST => "🐇",
            },
        )
    }

    /// The label of the speed button: the speed that pressing it selects.
    pub fn to_button_display(self) -> (r: String)
        ensures
            r@ == speed_symbol(self.spec_next()),
    {
        self.next().display()
    }
}

pub open spec fn speed_symbol(s: Speed) -> Seq<char> {
    match s {
        Speed::NORMAL => "🐢"@,
        Speed::FAST => "🐇"@,
    }
}

/// The colour model given to circles created from now on.
#[derive(Clone, Copy, Debug, PartialEq, Eq, Structural)]
pub enum ColorMode {
    RGB,
    HSL,
}

impl ColorMode {
    pub open spec fn spec_next(self) -> ColorMode {
        match self {
            ColorMode::RGB => ColorMode::HSL,
            ColorMode::HSL => ColorMode::RGB,
        }
    }

    pub fn next(self) -> (r: ColorMode)
        ensures
            r == self.spec_next(),
    {
        match self {
            ColorMode::RGB => ColorMode::HSL,
            ColorMode::HSL => ColorMode::RGB,
        }
    }

    pub fn toggle(&mut self)
        ensures
            *final(self) == old(self).spec_next(),
    {
        *self = self.next()
    }

    fn display(self) -> (r: String)
        ensures
            r@ == color_mode_symbol(self),
    {
        String::from_str(
            match self {
                ColorMode::RGB => "R",
                ColorMode::HSL => "H",
            },
        )
    }

    /// The label of the colour-mode button: the mode that pressing it selects.
    pub fn to_button_display(self) -> (r: String)
        ensures
            r@ == color_mode_symbol(self.spec_next()),
    {
        self.next().display()
    }
}

pub open spec fn color_mode_symbol(m: ColorMode) -> Seq<char> {
    match m {
        ColorMode::RGB => "R"@,
        ColorMode::HSL => "H"@,
    }
}

/// Whether the canvas has the window's size or the giant one.
#[derive(Clone, Copy, Debug, PartialEq, Eq, Structural)]
pub enum SizeMode {
    NORMAL,
    GIANT,
}

impl SizeMode {
    pub open spec fn spec_next(self) -> SizeMode {
        match self {
            SizeMode::GIANT => SizeMode::NORMAL,
            SizeMode::NORMAL => SizeMode::GIANT,
        }
    }

    pub fn next(self) -> (r: SizeMode)
        ensures
            r == self.spec_next(),
    {
        match self {
            SizeMode::GIANT => SizeMode::NORMAL,
            SizeMode::NORMAL => SizeMode::GIANT,
        }
    }

    /// Switches the mode and sets the canvas bounds that go with the new one;
    /// nothing else in `circle_config` changes.
    pub fn toggle(&mut self, circle_config: &mut CircleConfig, normal_width: u32, normal_height: u32)
        ensures
            *final(self) == old(self).spec_next(),
            final(circle_config).max_position_delta == old(circle_config).max_position_delta,
            final(circle_config).max_color_delta == old(circle_config).max_color_delta,
            final(circle_config).color_config == old(circle_config).color_config,
            *final(self) == SizeMode::GIANT ==> final(circle_config).width == GIANT_SIZE
                && final(circle_config).height == GIANT_SIZE,
            *final(self) == SizeMode::NORMAL ==> final(circle_config).width == normal_width
                && final(circle_config).height == normal_height,
    {
        *self = self.next();
        match *self {
            SizeMode::GIANT => {
                circle_config.width = GIANT_SIZE;
                circle_config.height = GIANT_SIZE;
            },
            SizeMode::NORMAL => {
                circle_config.width = normal_width;
                circle_config.height = normal_height;
            },
        }
    }

    fn display(self) -> (r: String)
        ensures
            r@ == size_mode_symbol(self),
    {
        String::from_str(
            match self {
                SizeMode::GIANT => "🐘",
                SizeMode::NORMAL => "🐁",
            },
        )
    }

    /// The label of the size button: the mode that pressing it selects.
    pub fn to_button_display(self) -> (r: String)
        ensures
            r@ == size_mode_symbol(self.spec_next()),
    {
        self.next().display()
    }
}

pub open spec fn size_mode_symbol(m: SizeMode) -> Seq<char> {
    match m {
        SizeMode::GIANT => "🐘"@,
        SizeMode::NORMAL => "🐁"@,
    }
}

/// Global settings, written by the user interface between ticks.
#[derive(Clone, Copy, Debug, PartialEq, Eq, Structural)]
pub struct Config {
    pub status: Status,
    pub speed: Speed,
    /// Radius given to new circles, in canvas units.
    pub radius: u32,
    /// Lifetime, in ticks, given to new apples.
    pub apple_steps: u32,
    /// Whether the renderer outlines each disk in black.
    pub bug_checkbox: bool,
    pub color_mode: ColorMode,
    pub initial_height: u32,
    pub initial_width: u32,
    pub size_mode: SizeMode,
}

} // verus!
