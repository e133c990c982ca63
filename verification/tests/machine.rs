use bracket_random::prelude::RandomNumberGenerator;
use flappy::obstacle::Obstacle;
use flappy::obstacle::GAP_Y_MAX;
use flappy::obstacle::GAP_Y_MIN;
use flappy::obstacle::INITIAL_GAP_SIZE;
use flappy::player::Player;
use flappy::state::hits_any;
use flappy::state::GameMode;
use flappy::state::Key;
use flappy::state::State;
use flappy::state::FRAME_DURATION_DECIMS;
use flappy::state::OBSTACLE_COUNT;
use flappy::SCREEN_HEIGHT;
use flappy::SCREEN_WIDTH;

fn assert_freshly_restarted(s: &State) {
    assert_eq!(s.mode, GameMode::Playing);
    assert_eq!((s.player.x, s.player.y), (5, 25));
    assert_eq!(s.player.velocity, 0);
    assert_eq!(s.frame_time, 0);
    assert_eq!(s.obstacles.len(), OBSTACLE_COUNT);
    for (n, o) in s.obstacles.iter().enumerate() {
        assert_eq!(o.x, SCREEN_WIDTH + n as i32 * 20);
        assert_eq!(o.size, INITIAL_GAP_SIZE);
        assert!(GAP_Y_MIN <= o.gap_y && o.gap_y < GAP_Y_MAX);
    }
}

#[test]
fn a_new_game_sits_on_the_menu() {
    let s = State::new();
    assert_eq!(s.mode, GameMode::Menu);
    assert_eq!((s.player.x, s.player.y, s.player.velocity), (5, 25, 0));
    assert_eq!(s.frame_time, 0);
    assert!(s.obstacles.is_empty());
    assert!(s.check_wf());
    assert_eq!(s.score(), 0);
}

#[test]
fn start_key_launches_a_run() {
    let mut rng = RandomNumberGenerator::seeded(42);
    let mut s = State::new();
    let quit = s.tick(&mut rng, 160, Some(Key::Space));
    assert!(!quit);
    assert_freshly_restarted(&s);
    assert_eq!(s.score(), 0);
}

#[test]
fn menu_ignores_unrecognised_keys() {
    let mut rng = RandomNumberGenerator::seeded(42);
    let mut s = State::new();
    assert!(!s.tick(&mut rng, 160, Some(Key::R)));
    assert_eq!(s.mode, GameMode::Menu);
    assert!(!s.tick(&mut rng, 160, None));
    assert_eq!(s.mode, GameMode::Menu);
    assert!(s.obstacles.is_empty());
}

#[test]
fn quit_key_is_honoured_on_menu_and_game_over() {
    let mut rng = RandomNumberGenerator::seeded(42);
    let mut s = State::new();
    assert!(s.tick(&mut rng, 160, Some(Key::Q)));
    assert_eq!(s.mode, GameMode::Menu);

    let mut dead = State::new();
    dead.tick(&mut rng, 160, Some(Key::Space));
    drive_to_game_over(&mut dead, &mut rng);
    assert!(dead.tick(&mut rng, 160, Some(Key::Q)));
    assert_eq!(dead.mode, GameMode::GameOver);
}

#[test]
fn playing_never_quits() {
    let mut rng = RandomNumberGenerator::seeded(42);
    let mut s = State::new();
    s.tick(&mut rng, 160, Some(Key::Space));
    assert!(!s.tick(&mut rng, 160, Some(Key::Q)));
    assert_eq!(s.mode, GameMode::Playing);
}

#[test]
fn the_accumulator_paces_physics_ticks() {
    let mut rng = RandomNumberGenerator::seeded(42);
    let mut s = State::new();
    s.tick(&mut rng, 0, Some(Key::Space));
    s.tick(&mut rng, 700, None);
    assert_eq!(s.frame_time, 700);
    assert_eq!((s.player.x, s.player.velocity), (5, 0));
    s.tick(&mut rng, 100, None);
    assert_eq!(s.frame_time, 0);
    assert_eq!((s.player.x, s.player.velocity), (6, 4));
    s.tick(&mut rng, FRAME_DURATION_DECIMS, None);
    assert_eq!(s.frame_time, FRAME_DURATION_DECIMS);
    assert_eq!(s.player.x, 6);
}

#[test]
fn flap_key_acts_only_while_playing() {
    let mut rng = RandomNumberGenerator::seeded(42);
    let mut s = State::new();
    s.tick(&mut rng, 0, Some(Key::Space));
    s.tick(&mut rng, 10, Some(Key::Space));
    assert_eq!(s.player.velocity, -30);
    assert_eq!(s.player.y, 25);
}

fn drive_to_game_over(s: &mut State, rng: &mut RandomNumberGenerator) {
    for _ in 0..100 {
        if s.mode == GameMode::GameOver {
            return;
        }
        s.tick(rng, FRAME_DURATION_DECIMS + 10, None);
    }
    panic!("the run should have ended");
}

#[test]
fn falling_out_ends_the_run_on_the_exact_tick() {
    let mut rng = RandomNumberGenerator::seeded(42);
    let mut s = State::new();
    s.tick(&mut rng, 0, Some(Key::Space));
    for tick in 1..=16 {
        assert_eq!(s.mode, GameMode::Playing, "tick {tick}");
        assert!(s.player.y <= SCREEN_HEIGHT);
        s.tick(&mut rng, FRAME_DURATION_DECIMS + 10, None);
    }
    assert_eq!(s.mode, GameMode::GameOver);
    assert_eq!(s.player.y, SCREEN_HEIGHT + 1);
    assert_eq!(s.player.x, 5 + 16);
}

#[test]
fn restart_after_death_matches_a_fresh_start() {
    let mut fresh_rng = RandomNumberGenerator::seeded(42);
    let mut fresh = State::new();
    fresh.tick(&mut fresh_rng, 160, Some(Key::Space));

    let mut drive_rng = RandomNumberGenerator::seeded(7);
    let mut s = State::new();
    s.tick(&mut drive_rng, 160, Some(Key::Space));
    drive_to_game_over(&mut s, &mut drive_rng);
    assert!(!s.tick(&mut RandomNumberGenerator::seeded(42), 160, Some(Key::R)));

    assert_freshly_restarted(&s);
    assert_eq!(s.score(), 0);
    assert_eq!(s.player, fresh.player);
    assert_eq!(s.frame_time, fresh.frame_time);
    assert_eq!(s.mode, fresh.mode);
    assert_eq!(s.obstacles, fresh.obstacles);
}

#[test]
fn game_over_ignores_unrecognised_keys() {
    let mut rng = RandomNumberGenerator::seeded(42);
    let mut s = State::new();
    s.tick(&mut rng, 160, Some(Key::Space));
    drive_to_game_over(&mut s, &mut rng);
    let before_y = s.player.y;
    assert!(!s.tick(&mut rng, 160, Some(Key::Space)));
    assert_eq!(s.mode, GameMode::GameOver);
    assert_eq!(s.player.y, before_y);
}

#[test]
fn collision_with_an_obstacle_ends_the_run() {
    let mut rng = RandomNumberGenerator::seeded(42);
    let mut s = State::new();
    s.tick(&mut rng, 0, Some(Key::Space));
    s.obstacles.clear();
    s.obstacles.push(Obstacle { x: 6, gap_y: 5, size: 15 });
    s.tick(&mut rng, FRAME_DURATION_DECIMS + 10, None);
    assert_eq!(s.player.x, 6);
    assert_eq!(s.player.y, 25);
    assert_eq!(s.mode, GameMode::GameOver);
}

#[test]
fn passing_through_the_gap_is_safe() {
    let mut rng = RandomNumberGenerator::seeded(42);
    let mut s = State::new();
    s.tick(&mut rng, 0, Some(Key::Space));
    s.obstacles.clear();
    s.obstacles.push(Obstacle { x: 6, gap_y: 25, size: 15 });
    s.tick(&mut rng, FRAME_DURATION_DECIMS + 10, None);
    assert_eq!((s.player.x, s.player.y), (6, 25));
    assert_eq!(s.mode, GameMode::Playing);
}

#[test]
fn scrolled_off_obstacles_recycle_during_play() {
    let mut rng = RandomNumberGenerator::seeded(42);
    let mut s = State::new();
    s.tick(&mut rng, 0, Some(Key::Space));
    s.obstacles.clear();
    s.obstacles.push(Obstacle { x: 0, gap_y: 25, size: 15 });
    s.player.y = 10;
    s.player.x = 26;
    s.tick(&mut rng, FRAME_DURATION_DECIMS + 10, None);
    assert_eq!(s.player.x, 27);
    let o = s.obstacles[0];
    assert_eq!(o.x, SCREEN_WIDTH + 27);
    assert_eq!(o.size, 13);
    assert_eq!(o.gap_y, 25);
}

#[test]
fn hits_any_reports_the_colliding_obstacle() {
    let p = Player { x: 100, y: 5, velocity: 0 };
    let empty: Vec<Obstacle> = Vec::new();
    assert!(!hits_any(&empty, &p));
    let rank = vec![
        Obstacle { x: 80, gap_y: 20, size: 15 },
        Obstacle { x: 100, gap_y: 20, size: 15 },
    ];
    assert!(hits_any(&rank, &p));
    let clear = vec![Obstacle { x: 80, gap_y: 20, size: 15 }];
    assert!(!hits_any(&clear, &p));
}

#[test]
fn score_counts_columns_survived() {
    let mut rng = RandomNumberGenerator::seeded(42);
    let mut s = State::new();
    s.tick(&mut rng, 0, Some(Key::Space));
    for _ in 0..3 {
        s.tick(&mut rng, FRAME_DURATION_DECIMS + 10, None);
    }
    assert_eq!(s.score(), 3);
}

#[test]
fn check_wf_spots_a_broken_state() {
    let mut rng = RandomNumberGenerator::seeded(42);
    let mut s = State::new();
    s.tick(&mut rng, 160, Some(Key::Space));
    assert!(s.check_wf());
    s.frame_time = FRAME_DURATION_DECIMS + 1;
    assert!(!s.check_wf());
    s.frame_time = 0;
    s.obstacles[0].size = 2;
    assert!(!s.check_wf());
}
