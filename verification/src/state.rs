use vstd::prelude::*;
use bracket_random::prelude::RandomNumberGenerator;
use crate::obstacle::Obstacle;
use crate::obstacle::GAP_Y_MIN;
use crate::obstacle::GAP_Y_MAX;
use crate::obstacle::INITIAL_GAP_SIZE;
use crate::player::Player;
use crate::player::PLAYER_START_X;
use crate::player::PLAYER_START_Y;
use crate::SCREEN_HEIGHT;
use crate::SCREEN_WIDTH;

verus! {

/// Real time that must pass between two physics ticks, in tenths of a
/// millisecond.
pub const FRAME_DURATION_DECIMS: i32 = 750;

/// How many obstacles scroll past, recycled forever.
pub const OBSTACLE_COUNT: usize = 5;

/// Columns between two freshly spawned obstacles.
pub const OBSTACLE_SPACING: i32 = 20;

/// Which of the three screens the game is on.
#[derive(Clone, Copy, Debug, PartialEq, Eq, Structural)]
pub enum GameMode {
    Menu,
    Playing,
    GameOver,
}

/// The one keystroke a frame may carry, already narrowed to the keys the
/// game reacts to.
#[derive(Clone, Copy, Debug, PartialEq, Eq, Structural)]
pub enum Key {
    Space,
    Q,
    R,
}

/// The whole game: the player, the obstacle set, the accumulator that
/// paces physics ticks (tenths of a millisecond), and the current mode.
#[derive(Clone, Debug)]
pub struct State {
    pub player: Player,
    pub obstacles: Vec<Obstacle>,
    pub frame_time: i32,
    pub mode: GameMode,
}

/// Where the player stands at the start of every run: the fixed start
/// square, at rest.
pub open spec fn start_player() -> Player {
    Player { x: PLAYER_START_X, y: PLAYER_START_Y, velocity: 0 }
}

/// A fresh obstacle as `restart` spawns it at column `x`: full gap height,
/// centre somewhere lawful.
pub open spec fn spawned_at(o: Obstacle, x: int) -> bool {
    &&& o.x == x
    &&& GAP_Y_MIN <= o.gap_y < GAP_Y_MAX
    &&& o.size == INITIAL_GAP_SIZE
}

/// Everything a restart promises: the player back on the start square,
/// the clock and mode reset, and a full rank of fresh obstacles spaced
/// evenly past the right edge.
pub open spec fn restarted(s: State) -> bool {
    &&& s.player == start_player()
    &&& s.frame_time == 0
    &&& s.mode == GameMode::Playing
    &&& s.obstacles@.len() == OBSTACLE_COUNT
    &&& forall|i: int|
        0 <= i < s.obstacles@.len() ==> spawned_at(
            #[trigger] s.obstacles@[i],
            SCREEN_WIDTH + i * OBSTACLE_SPACING,
        )
}

/// The player after one playing tick's inputs: a physics step when the
/// accumulator spills over, then a flap if the frame carried one.
pub open spec fn play_tick_player(
    p: Player,
    frame_time: int,
    elapsed: int,
    key: Option<Key>,
) -> Player {
    let p1 = if frame_time + elapsed > FRAME_DURATION_DECIMS {
        p.grav_step()
    } else {
        p
    };
    if key == Some(Key::Space) {
        p1.flap_step()
    } else {
        p1
    }
}

/// The accumulator after one playing tick: grown by the elapsed time, or
/// emptied if that crossed the threshold.
pub open spec fn play_tick_frame_time(frame_time: int, elapsed: int) -> int {
    if frame_time + elapsed > FRAME_DURATION_DECIMS {
        0
    } else {
        frame_time + elapsed
    }
}

/// Death at the end of a playing tick: fallen past the bottom row, or
/// collided with some obstacle.
pub open spec fn play_died(p: Player, obs: Seq<Obstacle>) -> bool {
    ||| p.y > SCREEN_HEIGHT
    ||| exists|i: int| 0 <= i < obs.len() && (#[trigger] obs[i]).hits(p)
}

impl State {
    /// Every held value is lawful: the player and each obstacle are
    /// well formed and the accumulator sits inside one frame window.
    pub open spec fn wf(self) -> bool {
        &&& self.player.wf()
        &&& 0 <= self.frame_time <= FRAME_DURATION_DECIMS
        &&& forall|i: int| 0 <= i < self.obstacles@.len() ==> (#[trigger] self.obstacles@[i]).wf()
    }

    /// A new game sits on the menu screen with no obstacles yet.
    pub fn new() -> (s: State)
        ensures
            s.player == start_player(),
            s.obstacles@.len() == 0,
            s.frame_time == 0,
            s.mode == GameMode::Menu,
            s.wf(),
    {
        State {
            player: Player::new(PLAYER_START_X, PLAYER_START_Y),
            obstacles: Vec::new(),
            frame_time: 0,
            mode: GameMode::Menu,
        }
    }

    /// Begin a run afresh: the player on the start square, the clock at
    /// zero, Playing mode, and a new rank of evenly spaced obstacles.
    pub fn restart(&mut self, rng: &mut RandomNumberGenerator)
        ensures
            restarted(*final(self)),
            final(self).wf(),
    {
        self.player = Player::new(PLAYER_START_X, PLAYER_START_Y);
        self.frame_time = 0;
        self.mode = GameMode::Playing;
        self.obstacles.clear();
        for n in 0..OBSTACLE_COUNT
            invariant
                self.player == start_player(),
                self.frame_time == 0,
                self.mode == GameMode::Playing,
                self.obstacles@.len() == n,
                forall|i: int|
                    0 <= i < n ==> spawned_at(
                        #[trigger] self.obstacles@[i],
                        SCREEN_WIDTH + i * OBSTACLE_SPACING,
                    ),
        {
            let ob = Obstacle::new(SCREEN_WIDTH + (n as i32) * OBSTACLE_SPACING, rng);
            self.obstacles.push(ob);
        }
        assert forall|i: int| 0 <= i < self.obstacles@.len() implies
            (#[trigger] self.obstacles@[i]).wf() by {
            assert(spawned_at(self.obstacles@[i], SCREEN_WIDTH + i * OBSTACLE_SPACING));
        }
    }

    /// Distance survived this run, in columns.
    pub fn score(&self) -> (s: i32)
        requires
            self.player.wf(),
        ensures
            s == self.player.x - PLAYER_START_X,
    {
        self.player.x - PLAYER_START_X
    }

    /// The menu screen's share of a tick: the start key launches a run,
    /// the quit key asks the host to stop, anything else changes nothing.
    pub fn main_menu(&mut self, rng: &mut RandomNumberGenerator, key: Option<Key>) -> (quit: bool)
        ensures
            quit == (key == Some(Key::Q)),
            key == Some(Key::Space) ==> restarted(*final(self)) && final(self).wf(),
            key != Some(Key::Space) ==> *final(self) == *old(self),
    {
        match key {
            Some(Key::Space) => {
                self.restart(rng);
                false
            },
            Some(Key::Q) => true,
            _ => false,
        }
    }

    /// The game-over screen's share of a tick: the restart key launches a
    /// fresh run, the quit key asks the host to stop, anything else
    /// changes nothing.
    pub fn dead(&mut self, rng: &mut RandomNumberGenerator, key: Option<Key>) -> (quit: bool)
        ensures
            quit == (key == Some(Key::Q)),
            key == Some(Key::R) ==> restarted(*final(self)) && final(self).wf(),
            key != Some(Key::R) ==> *final(self) == *old(self),
    {
        match key {
            Some(Key::R) => {
                self.restart(rng);
                false
            },
            Some(Key::Q) => true,
            _ => false,
        }
    }

    /// One playing tick, the rendering left to the host: pace and run the
    /// physics, take a flap, recycle every obstacle against the player's
    /// new column, and fall into GameOver exactly when the player has died.
    pub fn play(&mut self, elapsed: i32, key: Option<Key>)
        requires
            old(self).wf(),
            old(self).mode == GameMode::Playing,
            0 <= elapsed <= i32::MAX - FRAME_DURATION_DECIMS,
            old(self).player.x + 1 <= i32::MAX - SCREEN_WIDTH,
            old(self).player.y <= i32::MAX - 2,
        ensures
            final(self).wf(),
            final(self).player == play_tick_player(
                old(self).player,
                old(self).frame_time as int,
                elapsed as int,
                key,
            ),
            final(self).frame_time == play_tick_frame_time(
                old(self).frame_time as int,
                elapsed as int,
            ),
            final(self).obstacles@.len() == old(self).obstacles@.len(),
            forall|i: int|
                0 <= i < old(self).obstacles@.len() ==> #[trigger] final(self).obstacles@[i]
                    == old(self).obstacles@[i].recycle_step(final(self).player.x as int),
            final(self).mode == if play_died(final(self).player, final(self).obstacles@) {
                GameMode::GameOver
            } else {
                GameMode::Playing
            },
    {
        self.frame_time = self.frame_time + elapsed;
        if self.frame_time > FRAME_DURATION_DECIMS {
            self.frame_time = 0;
            self.player.apply_gravity();
        }
        if let Some(Key::Space) = key {
            self.player.flap();
        }
        let px = self.player.x;
        let count = self.obstacles.len();
        for i in 0..count
            invariant
                self.obstacles@.len() == count,
                count == old(self).obstacles@.len(),
                0 <= px <= i32::MAX - SCREEN_WIDTH,
                self.player == play_tick_player(
                    old(self).player,
                    old(self).frame_time as int,
                    elapsed as int,
                    key,
                ),
                px == self.player.x,
                self.player.wf(),
                self.frame_time == play_tick_frame_time(
                    old(self).frame_time as int,
                    elapsed as int,
                ),
                self.mode == old(self).mode,
                forall|j: int|
                    0 <= j < i ==> #[trigger] self.obstacles@[j]
                        == old(self).obstacles@[j].recycle_step(px as int),
                forall|j: int|
                    i <= j < count ==> #[trigger] self.obstacles@[j] == old(self).obstacles@[j],
                forall|j: int| 0 <= j < count ==> (#[trigger] self.obstacles@[j]).wf(),
        {
            let mut ob = self.obstacles[i];
            ob.recycle(px);
            self.obstacles.set(i, ob);
        }
        let fell_out = self.player.y > SCREEN_HEIGHT;
        if fell_out || hits_any(&self.obstacles, &self.player) {
            self.mode = GameMode::GameOver;
        }
    }

    /// One tick of the whole machine: dispatch on the current mode and
    /// report whether the quit key was taken on a screen that honours it.
    pub fn tick(&mut self, rng: &mut RandomNumberGenerator, elapsed: i32, key: Option<Key>) -> (quit: bool)
        requires
            old(self).wf(),
            old(self).mode == GameMode::Playing ==> {
                &&& 0 <= elapsed <= i32::MAX - FRAME_DURATION_DECIMS
                &&& old(self).player.x + 1 <= i32::MAX - SCREEN_WIDTH
                &&& old(self).player.y <= i32::MAX - 2
            },
        ensures
            final(self).wf(),
            old(self).mode == GameMode::Menu ==> {
                &&& quit == (key == Some(Key::Q))
                &&& (key == Some(Key::Space) ==> restarted(*final(self)))
                &&& (key != Some(Key::Space) ==> *final(self) == *old(self))
            },
            old(self).mode == GameMode::GameOver ==> {
                &&& quit == (key == Some(Key::Q))
                &&& (key == Some(Key::R) ==> restarted(*final(self)))
                &&& (key != Some(Key::R) ==> *final(self) == *old(self))
            },
            old(self).mode == GameMode::Playing ==> {
                &&& !quit
                &&& final(self).player == play_tick_player(
                    old(self).player,
                    old(self).frame_time as int,
                    elapsed as int,
                    key,
                )
                &&& final(self).frame_time == play_tick_frame_time(
                    old(self).frame_time as int,
                    elapsed as int,
                )
                &&& final(self).obstacles@.len() == old(self).obstacles@.len()
                &&& forall|i: int|
                    0 <= i < old(self).obstacles@.len() ==> #[trigger] final(self).obstacles@[i]
                        == old(self).obstacles@[i].recycle_step(final(self).player.x as int)
                &&& final(self).mode == if play_died(final(self).player, final(self).obstacles@) {
                    GameMode::GameOver
                } else {
                    GameMode::Playing
                }
            },
    {
        match self.mode {
            GameMode::Menu => self.main_menu(rng, key),
            GameMode::Playing => {
                self.play(elapsed, key);
                false
            },
            GameMode::GameOver => self.dead(rng, key),
        }
    }

    /// Whether the held state is lawful, checked at run time; the host can
    /// test this before handing a tick in.
    pub fn check_wf(&self) -> (r: bool)
        ensures
            r == self.wf(),
    {
        let player_ok = self.player.x >= PLAYER_START_X && self.player.y >= 0
            && self.player.velocity >= crate::player::FLAP_SPEED_DECIS
            && self.player.velocity <= crate::player::MAX_SPEED_DECIS;
        let clock_ok = self.frame_time >= 0 && self.frame_time <= FRAME_DURATION_DECIMS;
        if !(player_ok && clock_ok) {
            return false;
        }
        let count = self.obstacles.len();
        for i in 0..count
            invariant
                count == self.obstacles@.len(),
                forall|j: int| 0 <= j < i ==> (#[trigger] self.obstacles@[j]).wf(),
        {
            let ob = &self.obstacles[i];
            let ob_ok = ob.x >= 0 && ob.gap_y >= GAP_Y_MIN && ob.gap_y < GAP_Y_MAX
                && ob.size >= crate::obstacle::MIN_GAP_SIZE
                && ob.size <= INITIAL_GAP_SIZE;
            if !ob_ok {
                return false;
            }
        }
        true
    }
}

/// Whether any obstacle of the rank collides with the player.
pub fn hits_any(obstacles: &Vec<Obstacle>, player: &Player) -> (r: bool)
    requires
        forall|i: int| 0 <= i < obstacles@.len() ==> (#[trigger] obstacles@[i]).wf(),
    ensures
        r == exists|i: int| 0 <= i < obstacles@.len() && (#[trigger] obstacles@[i]).hits(*player),
{
    let count = obstacles.len();
    for i in 0..count
        invariant
            count == obstacles@.len(),
            forall|j: int| 0 <= j < count ==> (#[trigger] obstacles@[j]).wf(),
            forall|j: int| 0 <= j < i ==> !(#[trigger] obstacles@[j]).hits(*player),
    {
        if obstacles[i].check_collision(player) {
            return true;
        }
    }
    false
}

} // verus!
