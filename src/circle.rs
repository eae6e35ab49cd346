use crate::color::{color_fresh, color_stepped, color_text, Color, ColorConfig};
use crate::settings::Config;
use crate::walk::{saturating_random_in_range, walk_step_ok, random_in_range};
use vstd::prelude::*;

verus! {

/// Canvas units per pixel: positions, bounds and radii are held in
/// hundredths of a pixel.
pub const PIXEL: u32 = 100;

/// What every update of a circle reads: the canvas bounds and the walks.
#[derive(Clone, Copy, Debug, PartialEq, Eq, Structural)]
pub struct CircleConfig {
    pub width: u32,
    pub height: u32,
    pub max_position_delta: u32,
    /// Largest step of an 8-bit RGB channel.
    pub max_color_delta: u8,
    pub color_config: ColorConfig,
}

/// The centre of a disk, in canvas units.
#[derive(Clone, Copy, Debug, PartialEq, Eq, Structural)]
pub struct Position {
    pub x: u32,
    pub y: u32,
}

/// `new` is a possible outcome of one update of `old`: each axis moves at
/// most `max_position_delta` and ends inside the canvas.
pub open spec fn position_stepped(old: Position, new: Position, config: CircleConfig) -> bool {
    &&& walk_step_ok(new.x as int, old.x as int, config.max_position_delta as int, 0, config.width as int)
    &&& walk_step_ok(new.y as int, old.y as int, config.max_position_delta as int, 0, config.height as int)
}

pub open spec fn on_canvas(p: Position, config: CircleConfig) -> bool {
    p.x <= config.width && p.y <= config.height
}

/// One axis of a position step; the result lies in `[0, bound]`.
fn axis_step(current: u32, delta: u32, bound: u32) -> (r: u32)
    ensures
        walk_step_ok(r as int, current as int, delta as int, 0, bound as int),
        r <= bound,
{
    saturating_random_in_range(current as i64, delta as i64, 0, bound as i64) as u32
}

impl Position {
    /// A uniform placement on the canvas, independent of the walk's delta.
    pub fn new(config: &CircleConfig) -> (r: Self)
        ensures
            on_canvas(r, *config),
    {
        Position {
            x: random_in_range(0, config.width as i64) as u32,
            y: random_in_range(0, config.height as i64) as u32,
        }
    }

    /// One step of the walk. The radius is not taken into account: only the
    /// centre is kept on the canvas. A position left outside by a smaller
    /// canvas is brought back onto it.
    pub fn update(&mut self, config: &CircleConfig, _radius: u32)
        ensures
            position_stepped(*old(self), *final(self), *config),
            on_canvas(*final(self), *config),
    {
        let max_position_delta = config.max_position_delta;
        self.x = axis_step(self.x, max_position_delta, config.width);
        self.y = axis_step(self.y, max_position_delta, config.height);
    }
}

/// A disk of the population.
#[derive(Clone, Copy, Debug, PartialEq, Eq, Structural)]
pub struct Circle {
    pub position: Position,
    pub color: Color,
    /// In canvas units; fixed at creation.
    pub radius: u32,
    /// Set on creation and on every update; a renderer that draws only what
    /// changed clears it.
    pub dirty: bool,
}

/// `c` could have been created under these settings.
pub open spec fn circle_fresh(c: Circle, config: Config, circle_config: CircleConfig) -> bool {
    &&& on_canvas(c.position, circle_config)
    &&& color_fresh(c.color, config.color_mode, circle_config)
    &&& c.radius == config.radius
    &&& c.dirty
}

/// `new` is a possible outcome of one update of `old`.
pub open spec fn circle_stepped(old: Circle, new: Circle, config: CircleConfig) -> bool {
    &&& position_stepped(old.position, new.position, config)
    &&& on_canvas(new.position, config)
    &&& color_stepped(old.color, new.color, config)
    &&& new.radius == old.radius
    &&& new.dirty
}

impl Circle {
    pub fn new(config: &Config, circle_config: &CircleConfig) -> (r: Self)
        ensures
            circle_fresh(r, *config, *circle_config),
    {
        Circle {
            position: Position::new(circle_config),
            color: Color::new(&config.color_mode, circle_config),
            radius: config.radius,
            dirty: true,
        }
    }

    pub fn update(&mut self, config: &CircleConfig)
        ensures
            circle_stepped(*old(self), *final(self), *config),
    {
        self.position.update(config, self.radius);
        self.color.update(config);
        self.dirty = true;
    }

    /// The fill colour as text.
    pub fn color(&self) -> (r: String)
        ensures
            r@ == color_text(self.color),
    {
        self.color.to_string()
    }
}

/// A circle that expires after a number of ticks. It keeps the settings it
/// was created under.
#[derive(Clone, Copy, Debug, PartialEq, Eq, Structural)]
pub struct Apple {
    pub circle: Circle,
    pub config: CircleConfig,
    /// Ticks left to live.
    pub steps: u32,
}

/// The counter after one update: one less, never below zero.
pub open spec fn countdown(steps: u32) -> u32 {
    if steps == 0 { 0 } else { (steps - 1) as u32 }
}

/// `new` is what one update may make of `old`.
pub open spec fn apple_stepped(old: Apple, new: Apple) -> bool {
    &&& new.steps == countdown(old.steps)
    &&& new.config == old.config
    &&& circle_stepped(old.circle, new.circle, old.config)
}

impl Apple {
    /// Moves the apple and counts one tick down; true when no tick is left,
    /// the signal to remove it.
    pub fn update(&mut self) -> (expired: bool)
        ensures
            apple_stepped(*old(self), *final(self)),
            expired == (final(self).steps == 0),
    {
        let config = self.config;
        self.circle.update(&config);
        if self.steps > 0 {
            self.steps = self.steps - 1;
        }
        self.steps == 0
    }
}

/// Successive states of one apple, each the update of the one before,
/// starting from `n` ticks to live: the `k`-th update signals expiry exactly
/// when `k == n`.
pub proof fn lemma_apple_expires_on_last_update(run: Seq<Apple>)
    requires
        run.len() >= 2,
        run[0].steps == run.len() - 1,
        forall|i: int| 0 <= i < run.len() - 1 ==> apple_stepped(#[trigger] run[i], run[i + 1]),
    ensures
        forall|k: int| 1 <= k < run.len() ==> ((#[trigger] run[k]).steps == 0) == (k == run.len() - 1),
{
    assert forall|k: int| 1 <= k < run.len() implies ((#[trigger] run[k]).steps == 0) == (k
        == run.len() - 1) by {
        lemma_counts_down(run, k);
    }
}

proof fn lemma_counts_down(run: Seq<Apple>, k: int)
    requires
        0 <= k < run.len(),
        run[0].steps == run.len() - 1,
        forall|i: int| 0 <= i < run.len() - 1 ==> apple_stepped(#[trigger] run[i], run[i + 1]),
    ensures
        run[k].steps == run[0].steps - k,
    decreases k,
{
    if k > 0 {
        lemma_counts_down(run, k - 1);
        assert(apple_stepped(run[k - 1], run[k]));
    }
}

} // verus!
