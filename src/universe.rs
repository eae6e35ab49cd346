use crate::circle::{apple_stepped, circle_fresh, circle_stepped, countdown, Apple, Circle, CircleConfig};
use crate::settings::{Config, SizeMode, Status, GIANT_SIZE};
use crate::walk::{max_of, min_of};
use vstd::arithmetic::div_mod::{lemma_fundamental_div_mod, lemma_mod_pos_bound};
use vstd::prelude::*;

verus! {

/// The most ticks that live apples can ask of one frame.
pub const APPLE_STEP_CAP: u32 = 5000;

/// The whole simulation: settings and both populations.
#[derive(Clone)]
pub struct Universe {
    pub config: Config,
    pub circle_config: CircleConfig,
    pub circles: Vec<Circle>,
    pub apples: Vec<Apple>,
}

/// The largest counter among `apples`, 0 when there is none.
pub open spec fn max_apple_steps(apples: Seq<Apple>) -> nat
    decreases apples.len(),
{
    if apples.len() == 0 {
        0
    } else {
        max_of(max_apple_steps(apples.drop_last()) as int, apples.last().steps as int) as nat
    }
}

/// `a / b` rounded up.
pub open spec fn ceil_div(a: nat, b: nat) -> nat
    recommends
        b > 0,
{
    if a % b == 0 {
        a / b
    } else {
        a / b + 1
    }
}

/// Ticks for one frame: enough for the speed spread over the circles, and
/// enough for the longest-lived apple up to the cap.
pub open spec fn schedule(speed_steps: nat, circle_count: nat, remaining: nat) -> nat {
    max_of(
        min_of(APPLE_STEP_CAP as int, remaining as int),
        ceil_div(speed_steps, max_of(1, circle_count as int) as nat) as int,
    ) as nat
}

/// The apples of `apples` that a tick keeps, in their order: those whose
/// update does not signal expiry.
pub open spec fn surviving(apples: Seq<Apple>) -> Seq<Apple>
    decreases apples.len(),
{
    if apples.len() == 0 {
        apples
    } else if countdown(apples.last().steps) > 0 {
        surviving(apples.drop_last()).push(apples.last())
    } else {
        surviving(apples.drop_last())
    }
}

impl Universe {
    pub open spec fn spec_steps(&self) -> nat {
        schedule(
            self.config.speed.frame_steps() as nat,
            self.circles@.len(),
            max_apple_steps(self.apples@),
        )
    }

    /// One tick: every apple moves and counts down, and those that reach
    /// zero leave; then, unless paused, every circle moves.
    pub fn tick(&mut self)
        ensures
            final(self).config == old(self).config,
            final(self).circle_config == old(self).circle_config,
            final(self).apples@.len() == surviving(old(self).apples@).len(),
            forall|j: int|
                0 <= j < final(self).apples@.len() ==> apple_stepped(
                    #[trigger] surviving(old(self).apples@)[j],
                    final(self).apples@[j],
                ),
            old(self).config.status == Status::PAUSED ==> final(self).circles@ == old(self).circles@,
            old(self).config.status == Status::RUNNING ==> final(self).circles@.len()
                == old(self).circles@.len(),
            old(self).config.status == Status::RUNNING ==> forall|k: int|
                0 <= k < old(self).circles@.len() ==> circle_stepped(
                    #[trigger] old(self).circles@[k],
                    final(self).circles@[k],
                    old(self).circle_config,
                ),
    {
        let mut kept: Vec<Apple> = Vec::new();
        let n = self.apples.len();
        let mut i: usize = 0;
        while i < n
            invariant
                n == self.apples@.len(),
                *self == *old(self),
                i <= n,
                kept@.len() == surviving(self.apples@.subrange(0, i as int)).len(),
                forall|j: int|
                    0 <= j < kept@.len() ==> apple_stepped(
                        #[trigger] surviving(self.apples@.subrange(0, i as int))[j],
                        kept@[j],
                    ),
            decreases n - i,
        {
            let mut apple = self.apples[i];
            let expired = apple.update();
            if !expired {
                kept.push(apple);
            }
            proof {
                assert(self.apples@.subrange(0, i + 1).drop_last() =~= self.apples@.subrange(0, i as int));
            }
            i = i + 1;
        }
        proof {
            assert(self.apples@.subrange(0, n as int) =~= self.apples@);
        }
        self.apples = kept;
        match self.config.status {
            Status::RUNNING => {
                let m = self.circles.len();
                let mut k: usize = 0;
                while k < m
                    invariant
                        m == self.circles@.len(),
                        m == old(self).circles@.len(),
                        k <= m,
                        self.config == old(self).config,
                        self.circle_config == old(self).circle_config,
                        self.apples@.len() == surviving(old(self).apples@).len(),
                        forall|j: int|
                            0 <= j < self.apples@.len() ==> apple_stepped(
                                #[trigger] surviving(old(self).apples@)[j],
                                self.apples@[j],
                            ),
                        forall|j: int| 0 <= j < k ==> circle_stepped(
                            #[trigger] old(self).circles@[j],
                            self.circles@[j],
                            old(self).circle_config,
                        ),
                        forall|j: int| k <= j < m ==> #[trigger] self.circles@[j] == old(self).circles@[j],
                    decreases m - k,
                {
                    let mut circle = self.circles[k];
                    circle.update(&self.circle_config);
                    self.circles.set(k, circle);
                    k = k + 1;
                }
            },
            Status::PAUSED => {},
        }
    }

    /// True when there is nothing to animate.
    pub fn is_empty(&self) -> (r: bool)
        ensures
            r == (self.circles@.len() == 0 && self.apples@.len() == 0),
    {
        self.circles.is_empty() && self.apples.is_empty()
    }

    /// Adds a circle made under the current settings.
    pub fn add_circle(&mut self)
        ensures
            final(self).config == old(self).config,
            final(self).circle_config == old(self).circle_config,
            final(self).apples@ == old(self).apples@,
            final(self).circles@.len() == old(self).circles@.len() + 1,
            final(self).circles@.drop_last() == old(self).circles@,
            circle_fresh(final(self).circles@.last(), old(self).config, old(self).circle_config),
    {
        let circle = Circle::new(&self.config, &self.circle_config);
        self.circles.push(circle);
        assert(self.circles@.drop_last() =~= old(self).circles@);
    }

    /// Adds an apple made under the current settings; it keeps a copy of the
    /// circle settings and lives `apple_steps` ticks.
    pub fn add_apple(&mut self)
        ensures
            final(self).config == old(self).config,
            final(self).circle_config == old(self).circle_config,
            final(self).circles@ == old(self).circles@,
            final(self).apples@.len() == old(self).apples@.len() + 1,
            final(self).apples@.drop_last() == old(self).apples@,
            circle_fresh(final(self).apples@.last().circle, old(self).config, old(self).circle_config),
            final(self).apples@.last().config == old(self).circle_config,
            final(self).apples@.last().steps == old(self).config.apple_steps,
    {
        let apple = Apple {
            circle: Circle::new(&self.config, &self.circle_config),
            config: self.circle_config,
            steps: self.config.apple_steps,
        };
        self.apples.push(apple);
        assert(self.apples@.drop_last() =~= old(self).apples@);
    }

    /// The largest number of ticks any live apple has left, 0 without apples.
    pub fn remaining_apple_steps(&self) -> (r: u32)
        ensures
            r == max_apple_steps(self.apples@),
    {
        let mut best: u32 = 0;
        let mut i: usize = 0;
        while i < self.apples.len()
            invariant
                i <= self.apples@.len(),
                best == max_apple_steps(self.apples@.subrange(0, i as int)),
            decreases self.apples@.len() - i,
        {
            proof {
                assert(self.apples@.subrange(0, i + 1).drop_last() =~= self.apples@.subrange(0, i as int));
            }
            if self.apples[i].steps > best {
                best = self.apples[i].steps;
            }
            i = i + 1;
        }
        assert(self.apples@.subrange(0, i as int) =~= self.apples@);
        best
    }

    /// How many ticks to run before the next paint.
    pub fn steps(&self) -> (r: u32)
        ensures
            r == self.spec_steps(),
    {
        let remaining = self.remaining_apple_steps();
        let capped = if remaining < APPLE_STEP_CAP {
            remaining
        } else {
            APPLE_STEP_CAP
        };
        let speed = self.config.speed.steps() as usize;
        let count = if self.circles.len() > 1 {
            self.circles.len()
        } else {
            1
        };
        let per_circle = if speed % count == 0 {
            speed / count
        } else {
            speed / count + 1
        };
        assert(speed / count <= speed) by (nonlinear_arith)
            requires count >= 1;
        let per_circle = per_circle as u32;
        if capped >= per_circle {
            capped
        } else {
            per_circle
        }
    }

    /// Switches between the window-sized and the giant canvas. Positions are
    /// not moved; each is brought inside by its own next update.
    pub fn toggle_size_mode(&mut self)
        ensures
            final(self).config == (Config { size_mode: old(self).config.size_mode.spec_next(), ..old(self).config }),
            final(self).circles@ == old(self).circles@,
            final(self).apples@ == old(self).apples@,
            final(self).circle_config == (CircleConfig {
                width: if final(self).config.size_mode == SizeMode::GIANT { GIANT_SIZE } else { old(self).config.initial_width },
                height: if final(self).config.size_mode == SizeMode::GIANT { GIANT_SIZE } else { old(self).config.initial_height },
                ..old(self).circle_config
            }),
    {
        let normal_width = self.config.initial_width;
        let normal_height = self.config.initial_height;
        self.config.size_mode.toggle(&mut self.circle_config, normal_width, normal_height);
    }

    /// Removes every circle; apples stay.
    pub fn clear_circles(&mut self)
        ensures
            final(self).circles@.len() == 0,
            final(self).apples@ == old(self).apples@,
            final(self).config == old(self).config,
            final(self).circle_config == old(self).circle_config,
    {
        self.circles.clear();
    }

    /// Removes every circle and every apple.
    pub fn clear(&mut self)
        ensures
            final(self).circles@.len() == 0,
            final(self).apples@.len() == 0,
            final(self).config == old(self).config,
            final(self).circle_config == old(self).circle_config,
    {
        self.circles.clear();
        self.apples.clear();
    }
}

proof fn lemma_ceil_div_bounds(a: nat, b: nat)
    requires
        b > 0,
    ensures
        ceil_div(a, b) * b >= a,
        (ceil_div(a, b) - 1) * b < a || a == 0,
{
    lemma_fundamental_div_mod(a as int, b as int);
    lemma_mod_pos_bound(a as int, b as int);
    let q = a / b;
    let r = a % b;
    assert(q * b == b * q) by (nonlinear_arith);
    if r == 0 {
        assert((q - 1) * b == q * b - b) by (nonlinear_arith);
        assert(ceil_div(a, b) == q);
    } else {
        assert((q + 1) * b == q * b + b) by (nonlinear_arith);
        assert(ceil_div(a, b) == q + 1);
        assert(q * b < a);
    }
}

proof fn lemma_ceil_div_non_increasing(a: nat, b1: nat, b2: nat)
    requires
        0 < b1 <= b2,
    ensures
        ceil_div(a, b2) <= ceil_div(a, b1),
{
    lemma_ceil_div_bounds(a, b1);
    lemma_ceil_div_bounds(a, b2);
    let c1 = ceil_div(a, b1);
    let c2 = ceil_div(a, b2);
    assert(c1 * b2 >= c1 * b1) by (nonlinear_arith)
        requires b1 <= b2;
    if c2 > c1 {
        assert((c2 - 1) * b2 >= c1 * b2) by (nonlinear_arith)
            requires c2 - 1 >= c1, b2 > 0;
    }
}

/// With no apples and the same speed, a universe with more circles asks for
/// no more ticks per frame.
pub proof fn lemma_steps_non_increasing_in_circles(fewer: Universe, more: Universe)
    requires
        fewer.config.speed == more.config.speed,
        fewer.apples@.len() == 0,
        more.apples@.len() == 0,
        fewer.circles@.len() <= more.circles@.len(),
    ensures
        more.spec_steps() <= fewer.spec_steps(),
{
    lemma_ceil_div_non_increasing(
        fewer.config.speed.frame_steps() as nat,
        max_of(1, fewer.circles@.len() as int) as nat,
        max_of(1, more.circles@.len() as int) as nat,
    );
}

/// Whatever the speed, a frame runs at least as many ticks as the
/// longest-lived apple has left, up to the cap.
pub proof fn lemma_steps_cover_apples(u: Universe)
    ensures
        u.spec_steps() >= min_of(APPLE_STEP_CAP as int, max_apple_steps(u.apples@) as int),
{
}

} // verus!
