use vstd::prelude::*;
use bracket_random::prelude::RandomNumberGenerator;
use crate::player::Player;
use crate::rng::rand_range;

verus! {

/// Lowest row (inclusive) where a gap centre may be drawn at spawn.
pub const GAP_Y_MIN: i32 = 5;

/// Upper bound (exclusive) for a gap centre at spawn.
pub const GAP_Y_MAX: i32 = 40;

/// Gap height a fresh obstacle starts with.
pub const INITIAL_GAP_SIZE: i32 = 15;

/// The gap never shrinks below this height.
pub const MIN_GAP_SIZE: i32 = 3;

/// Once an obstacle's screen column falls below this, it is recycled.
pub const RECYCLE_THRESHOLD: i32 = -20;

/// How much the gap narrows at each recycle.
pub const RECYCLE_SHRINK: i32 = 2;

/// One scrolling barrier: a full-height wall at world column `x`, with a
/// passable gap of height `size` centred on row `gap_y`.
#[derive(Clone, Copy, Debug, PartialEq, Eq, Structural)]
pub struct Obstacle {
    pub x: i32,
    pub gap_y: i32,
    pub size: i32,
}

impl Obstacle {
    /// The gap keeps a lawful height, its centre stays where spawns put it,
    /// and the wall never stands left of the world origin.
    pub open spec fn wf(self) -> bool {
        &&& 0 <= self.x
        &&& GAP_Y_MIN <= self.gap_y < GAP_Y_MAX
        &&& MIN_GAP_SIZE <= self.size <= INITIAL_GAP_SIZE
    }

    /// Half the gap height, fraction dropped.
    pub open spec fn half_gap(self) -> int {
        self.size as int / 2
    }

    /// The player collides exactly when it stands in the obstacle's column
    /// and strictly outside the gap band.
    pub open spec fn hits(self, p: Player) -> bool {
        &&& p.x == self.x
        &&& (p.y < self.gap_y - self.half_gap() || p.y > self.gap_y + self.half_gap())
    }

    /// What recycling does once the wall has scrolled far enough past the
    /// left edge: it reappears one screen ahead of the player and its gap
    /// narrows, but never below the floor height.
    pub open spec fn recycle_step(self, player_x: int) -> Obstacle {
        if self.x - player_x < RECYCLE_THRESHOLD {
            Obstacle {
                x: (crate::SCREEN_WIDTH + player_x) as i32,
                gap_y: self.gap_y,
                size: if self.size - RECYCLE_SHRINK >= MIN_GAP_SIZE {
                    (self.size - RECYCLE_SHRINK) as i32
                } else {
                    MIN_GAP_SIZE
                },
            }
        } else {
            self
        }
    }

    /// A fresh obstacle at world column `x`: full starting gap height, gap
    /// centre drawn from `[GAP_Y_MIN, GAP_Y_MAX)`.
    pub fn new(x: i32, rng: &mut RandomNumberGenerator) -> (o: Obstacle)
        requires
            0 <= x,
        ensures
            o.x == x,
            GAP_Y_MIN <= o.gap_y < GAP_Y_MAX,
            o.size == INITIAL_GAP_SIZE,
            o.wf(),
    {
        Obstacle { x, gap_y: rand_range(rng, GAP_Y_MIN, GAP_Y_MAX), size: INITIAL_GAP_SIZE }
    }

    pub fn check_collision(&self, player: &Player) -> (r: bool)
        requires
            self.wf(),
        ensures
            r == self.hits(*player),
    {
        let half_size = self.size / 2;
        let does_x_match = player.x == self.x;
        let is_player_above_gap = player.y < self.gap_y - half_size;
        let is_player_below_gap = player.y > self.gap_y + half_size;
        does_x_match && (is_player_above_gap || is_player_below_gap)
    }

    /// Screen column of this obstacle when the player stands at `player_x`.
    pub fn screen_x(&self, player_x: i32) -> (r: i32)
        requires
            self.wf(),
            0 <= player_x,
        ensures
            r == self.x - player_x,
    {
        self.x - player_x
    }

    /// Whether the wall fills row `y`: every row outside the gap band,
    /// which is drawn from `gap_y - size / 2` up to but excluding
    /// `gap_y + size / 2`.
    pub fn covers_row(&self, y: i32) -> (r: bool)
        requires
            self.wf(),
        ensures
            r == (y < self.gap_y - self.half_gap() || y >= self.gap_y + self.half_gap()),
    {
        let half_size = self.size / 2;
        y < self.gap_y - half_size || y >= self.gap_y + half_size
    }

    /// Relocate and narrow the obstacle once it has scrolled off behind the
    /// player; otherwise leave it alone.
    pub fn recycle(&mut self, player_x: i32)
        requires
            old(self).wf(),
            0 <= player_x <= i32::MAX - crate::SCREEN_WIDTH,
        ensures
            *final(self) == old(self).recycle_step(player_x as int),
            final(self).wf(),
            final(self).gap_y == old(self).gap_y,
    {
        let screen_x = self.x - player_x;
        if screen_x < RECYCLE_THRESHOLD {
            self.x = crate::SCREEN_WIDTH + player_x;
            let shrunk = self.size - RECYCLE_SHRINK;
            self.size = if shrunk >= MIN_GAP_SIZE {
                shrunk
            } else {
                MIN_GAP_SIZE
            };
        }
    }
}

/// The obstacle after a run of recycle checks, one per entry of `player_xs`,
/// oldest first.
pub open spec fn recycle_iter(o: Obstacle, player_xs: Seq<int>) -> Obstacle
    decreases player_xs.len(),
{
    if player_xs.len() == 0 {
        o
    } else {
        recycle_iter(o, player_xs.drop_last()).recycle_step(player_xs.last())
    }
}

/// However many times an obstacle is recycled, its gap never shrinks below
/// the floor height.
pub proof fn lemma_gap_floor(o: Obstacle, player_xs: Seq<int>)
    requires
        o.size >= MIN_GAP_SIZE,
    ensures
        recycle_iter(o, player_xs).size >= MIN_GAP_SIZE,
    decreases player_xs.len(),
{
    if player_xs.len() > 0 {
        lemma_gap_floor(o, player_xs.drop_last());
    }
}

/// A player in another column never collides, whatever its row.
pub proof fn lemma_miss_when_columns_differ(o: Obstacle, p: Player)
    requires
        p.x != o.x,
    ensures
        !o.hits(p),
{
}

/// In the obstacle's own column, collision holds exactly when the player's
/// row lies strictly outside the gap band.
pub proof fn lemma_hit_outside_gap(o: Obstacle, p: Player)
    requires
        p.x == o.x,
    ensures
        o.hits(p) <==> (p.y < o.gap_y - o.size / 2 || p.y > o.gap_y + o.size / 2),
{
}

} // verus!
