use vstd::prelude::*;

verus! {

/// Downward speed gained on each physics tick, in tenths of a row per tick.
pub const GRAVITY_DECIS: i32 = 4;

/// Greatest downward speed, in tenths of a row per tick.
pub const MAX_SPEED_DECIS: i32 = 20;

/// Upward speed set by a flap, in tenths of a row per tick.
pub const FLAP_SPEED_DECIS: i32 = -30;

/// Column where every run begins.
pub const PLAYER_START_X: i32 = 5;

/// Row where every run begins.
pub const PLAYER_START_Y: i32 = 25;

/// The falling, flapping body. `x` counts columns travelled, `y` is the
/// screen row (0 is the top), and `velocity` is the vertical speed in
/// tenths of a row per tick, positive downward.
#[derive(Clone, Copy, Debug, PartialEq, Eq, Structural)]
pub struct Player {
    pub x: i32,
    pub y: i32,
    pub velocity: i32,
}

/// Rows moved in one tick at speed `v` (tenths of a row per tick),
/// with the fraction dropped toward zero.
pub open spec fn rows_of_speed(v: int) -> int {
    if v >= 0 {
        v / 10
    } else {
        -((-v) / 10)
    }
}

impl Player {
    /// Speeds stay between a full flap and the downward cap, the body never
    /// rises above the top row, and it never moves left of the start column.
    pub open spec fn wf(self) -> bool {
        &&& PLAYER_START_X <= self.x
        &&& 0 <= self.y
        &&& FLAP_SPEED_DECIS <= self.velocity <= MAX_SPEED_DECIS
    }

    /// The speed one gravity step later: faster by `GRAVITY_DECIS`, capped
    /// at `MAX_SPEED_DECIS`.
    pub open spec fn next_velocity(self) -> int {
        if self.velocity + GRAVITY_DECIS <= MAX_SPEED_DECIS {
            self.velocity + GRAVITY_DECIS
        } else {
            MAX_SPEED_DECIS as int
        }
    }

    /// One physics tick: accelerate downward, fall by the whole rows of the
    /// new speed but never above the top row, and scroll one column ahead.
    pub open spec fn grav_step(self) -> Player {
        let v2 = self.next_velocity();
        let y2 = self.y + rows_of_speed(v2);
        Player {
            x: (self.x + 1) as i32,
            y: if y2 < 0 { 0i32 } else { y2 as i32 },
            velocity: v2 as i32,
        }
    }

    /// A flap replaces the speed outright; nothing else moves.
    pub open spec fn flap_step(self) -> Player {
        Player { x: self.x, y: self.y, velocity: FLAP_SPEED_DECIS }
    }

    pub fn new(x: i32, y: i32) -> (p: Player)
        ensures
            p.x == x,
            p.y == y,
            p.velocity == 0,
    {
        Player { x, y, velocity: 0 }
    }

    pub fn apply_gravity(&mut self)
        requires
            old(self).wf(),
            old(self).x < i32::MAX,
            old(self).y <= i32::MAX - 2,
        ensures
            *final(self) == old(self).grav_step(),
            final(self).wf(),
            final(self).x == old(self).x + 1,
            final(self).velocity >= old(self).velocity,
    {
        if self.velocity < MAX_SPEED_DECIS {
            let bumped = self.velocity + GRAVITY_DECIS;
            self.velocity = if bumped > MAX_SPEED_DECIS {
                MAX_SPEED_DECIS
            } else {
                bumped
            };
        }
        let dy: i32 = if self.velocity >= 0 {
            self.velocity / 10
        } else {
            -((-self.velocity) / 10)
        };
        self.y = self.y + dy;
        self.x = self.x + 1;
        if self.y < 0 {
            self.y = 0;
        }
    }

    pub fn flap(&mut self)
        ensures
            *final(self) == old(self).flap_step(),
            final(self).velocity == FLAP_SPEED_DECIS,
            final(self).x == old(self).x,
            final(self).y == old(self).y,
            old(self).wf() ==> final(self).wf(),
    {
        self.velocity = FLAP_SPEED_DECIS;
    }
}

/// The body after `n` physics ticks with no flap in between.
pub open spec fn grav_iter(p: Player, n: nat) -> Player
    decreases n,
{
    if n == 0 {
        p
    } else {
        grav_iter(p, (n - 1) as nat).grav_step()
    }
}

/// Over any stretch of play without a flap, the speed never falls and never
/// passes the downward cap, and the body scrolls exactly one column per tick.
pub proof fn lemma_gravity_run(p: Player, n: nat)
    requires
        p.wf(),
        p.x + n <= i32::MAX,
        p.y + 2 * n <= i32::MAX,
    ensures
        grav_iter(p, n).wf(),
        grav_iter(p, n).x == p.x + n,
        grav_iter(p, n).y <= p.y + 2 * n,
        grav_iter(p, n).velocity <= MAX_SPEED_DECIS,
        n > 0 ==> grav_iter(p, n).velocity >= grav_iter(p, (n - 1) as nat).velocity,
    decreases n,
{
    if n > 0 {
        lemma_gravity_run(p, (n - 1) as nat);
    }
}

/// One tick never leaves the body above the top row, however large the
/// speed was, up or down.
pub proof fn lemma_floor_clamp(p: Player)
    requires
        p.y <= i32::MAX - 2,
    ensures
        p.grav_step().y >= 0,
{
}

} // verus!
