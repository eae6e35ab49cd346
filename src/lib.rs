//! A generative-art simulation: coloured disks performing bounded random
//! walks in position and colour, plus short-lived "apples", scheduled tick by
//! tick. All quantities are fixed-point integers; see the unit constants.

pub mod circle;
pub mod color;
pub mod settings;
pub mod text;
pub mod universe;
pub mod walk;

pub use circle::{Apple, Circle, CircleConfig, Position, PIXEL};
pub use color::{
    Color, ColorBit, ColorConfig, Hue, Opacity, RGBColor, DARKER_STEP, HSL, TURN, UNIT,
};
pub use settings::{
    ColorMode, Config, SizeMode, Speed, Status, FAST_SPEED_STEPS, GIANT_SIZE, NORMAL_SPEED_STEPS,
};
pub use walk::{random_in_range, saturating_random_in_range, walk_window, ColorParamConfig};
pub use universe::{Universe, APPLE_STEP_CAP};
