use jumping_jack::entities::{Physics, Position, WindowMeasurements};
use jumping_jack::mainstate::{
    level_design, random_spawn_draw, spawns_large_platform, spawns_mobile_platform, ControlKey,
    MainState, SpawnDraw,
};
use jumping_jack::platform::{
    broken_state_time_range, PlatformDesign, PlatformEntity, PlatformHorizontalMovementHandler,
    PlatformScoreHandler, PlatformSize, PlatformSprite, PlatformState,
};
use jumping_jack::player::{PlayerEntity, PlayerMovementHandler, PlayerState};

use rand::Rng;

const FULL_SPEED: i64 = PlayerMovementHandler::DEFAULT_SPEED_MULTIPLIER as i64;
const ONE_SECOND: u32 = Physics::TICKS_PER_SECOND;
const PLATFORM_WIDTH: i64 = 200_000;

fn draw_at(x: i64) -> SpawnDraw {
    SpawnDraw { x, small: false, goes_left_first: false }
}

/// A session with its first two platforms: the large one at the bottom and
/// a regular one worth 100 points at `x`.
fn session_with_two_platforms(x: i64) -> MainState {
    let mut state = MainState::new(false);
    state.generate_new_platform(draw_at(0));
    state.generate_new_platform(draw_at(x));
    for platform in state.platforms.iter_mut() {
        platform.update_bounding_rect_edges(PLATFORM_WIDTH);
    }
    state
}

/// Puts the player, falling, on the second platform of the session.
fn falling_onto_second_platform(state: &mut MainState) {
    let platform = state.platforms[1];
    state.player.position = Position { x: platform.position.x + 100_000, y: platform.position.y };
    state.player.state = PlayerState::Falling;
    state.player_movement.is_falling = true;
    state.player.update_bounding_rect_edges();
}

#[test]
fn player_doesnt_exceed_horizontal_limits() {
    let screen_midway_point = Position {
        x: WindowMeasurements::WINDOW_WIDTH / 2,
        y: WindowMeasurements::WINDOW_HEIGHT,
    };

    let mut player = PlayerEntity::new(screen_midway_point);
    player.update(-FULL_SPEED, ONE_SECOND);

    assert!(player.position.x >= 0);
    assert_eq!(player.position.x, PlayerEntity::LEFT_WINDOW_EDGE_IN_REGARDS_TO_PLAYERMODEL);

    player.update(FULL_SPEED, 2 * ONE_SECOND);

    assert!(player.position.x <= WindowMeasurements::WINDOW_WIDTH);
    assert_eq!(player.position.x, PlayerEntity::RIGHT_WINDOW_EDGE_IN_REGARDS_TO_PLAYERMODEL);
}

#[test]
fn mobile_platform_doesnt_exceed_horizontal_limits() {
    let mut rng = rand::thread_rng();

    let design = match rng.gen_range(0_u32..=4_u32) {
        0 => PlatformDesign::GrassDesign,
        1 => PlatformDesign::DesertDesign,
        2 => PlatformDesign::ForestDesign,
        3 => PlatformDesign::SnowDesign,
        4 => PlatformDesign::AutumnDesign,
        _ => PlatformDesign::GrassDesign,
    };

    let size = match rng.gen_range(0_u32..=1_u32) {
        0 => PlatformSize::Small,
        1 => PlatformSize::Regular,
        _ => PlatformSize::Regular,
    };

    let point = Position {
        x: rng.gen_range(
            MainState::HORIZONTAL_MOBILE_PLATFORM_MIN..=MainState::HORIZONTAL_MOBILE_PLATFORM_MAX,
        ),
        y: WindowMeasurements::WINDOW_HEIGHT / 2,
    };

    let mut platform = PlatformEntity::new(design, size, point, 0, true, rng.gen_bool(0.5));

    platform.update(false);
    assert!(platform.position.x >= 0);
    assert!(platform.position.x <= WindowMeasurements::WINDOW_WIDTH);
}

#[test]
fn player_doesnt_fall_below_bottom_screen_edge() {
    let mut state = MainState::new(false);

    while !state.platforms.is_empty() {
        state.platforms.remove(0);
    }

    state.player.position.y = WindowMeasurements::WINDOW_HEIGHT / 2;
    state.player.state = PlayerState::Falling;
    state.tick();

    assert!(state.player.position.y <= WindowMeasurements::WINDOW_HEIGHT);
}

#[test]
fn fall_without_platforms_ends_in_death() {
    let mut state = MainState::new(false);
    state.platforms_movement.distance_till_next_platform = -1;
    state.player.position.y = WindowMeasurements::WINDOW_HEIGHT / 2;
    state.player.state = PlayerState::Falling;

    for _ in 0..2 * ONE_SECOND {
        state.tick();
        assert!(
            state.player.state == PlayerState::Dead
                || state.player.position.y <= WindowMeasurements::WINDOW_HEIGHT
        );
    }
    assert_eq!(state.player.state, PlayerState::Dead);
    assert!(state.platforms.is_empty());
}

#[test]
fn player_doesnt_exceed_jump_crest() {
    let mut state = MainState::new(false);

    while !state.platforms.is_empty() {
        state.platforms.remove(0);
    }

    state.player_movement.can_jump = true;
    state.player_movement.is_jumping = true;

    state.tick();

    assert!(state.player.position.y >= state.player.max_jump_height);
    assert_eq!(state.player.state, PlayerState::Jumping);
}

#[test]
fn player_animation_works() {
    let mut state = MainState::new(false);

    state.player.update(FULL_SPEED, 60 * ONE_SECOND);
    let animation_changes = state.player_movement.distance_travelled_laterally / 20;

    if animation_changes == 0 {
        assert_eq!(state.player.state, PlayerState::Idle);
    } else if animation_changes == 1 {
        assert_eq!(state.player.state, PlayerState::RunningPhase0);
    } else if animation_changes == 2 {
        assert_eq!(state.player.state, PlayerState::RunningPhase1);
    } else if animation_changes == 3 {
        assert_eq!(state.player.state, PlayerState::RunningPhase2);
    }
}

#[test]
fn player_clamped_at_both_edges_in_one_tick_steps() {
    let mut player = PlayerEntity::new(Position { x: 512_000, y: 840_000 });
    for _ in 0..ONE_SECOND {
        player.update(-FULL_SPEED, 1);
    }
    assert_eq!(player.position.x, 50_000);
    for _ in 0..2 * ONE_SECOND {
        player.update(FULL_SPEED, 1);
    }
    assert_eq!(player.position.x, 974_000);
}

#[test]
fn run_speed_covers_two_and_a_half_pixels_a_tick() {
    let mut player = PlayerEntity::new(Position { x: 512_000, y: 840_000 });
    player.update(FULL_SPEED, 1);
    assert_eq!(player.position.x, 514_500);
    player.update(PlayerMovementHandler::SNOW_LEVEL_SPEED_MULTIPLIER as i64, 1);
    assert_eq!(player.position.x, 517_625);
    player.update(-(PlayerMovementHandler::AUTUMN_LEVEL_SPEED_MULTIPLIER as i64), 1);
    assert_eq!(player.position.x, 515_750);
}

#[test]
fn vertical_motion_follows_state() {
    let mut player = PlayerEntity::new(Position { x: 512_000, y: 500_000 });
    player.state = PlayerState::Jumping;
    player.update(0, 1);
    assert_eq!(player.position.y, 500_000 - Physics::GRAVITY);
    player.state = PlayerState::Falling;
    player.update(0, 1);
    assert_eq!(player.position.y, 500_000);
    player.state = PlayerState::Idle;
    player.update(0, 1);
    assert_eq!(player.position.y, 500_000);
}

#[test]
fn player_hitbox_follows_position() {
    let mut player = PlayerEntity::new(Position { x: 512_000, y: 840_000 });
    assert!(player.bounding_rect_edges.is_none());
    player.update_bounding_rect_edges();
    let edges = player.bounding_rect_edges.unwrap();
    assert_eq!((edges.left, edges.top, edges.right, edges.bottom), (472_000, 827_500, 552_000, 840_000));
}

#[test]
fn first_platform_of_fresh_session() {
    let mut state = MainState::new(false);
    state.generate_new_platform(draw_at(300_000));
    let platform = state.platforms[0];
    assert_eq!(platform.size, PlatformSize::Large);
    assert_eq!(platform.design, PlatformDesign::GrassDesign);
    assert_eq!(platform.position, Position { x: 0, y: WindowMeasurements::WINDOW_HEIGHT - 84_000 });
    assert!(!platform.movement.is_mobile);
    assert_eq!(state.platforms_movement.score_of_latest_platform, 100);
    assert_eq!(state.platforms_movement.distance_till_next_platform, 840_000 - 206_000);
}

#[test]
fn first_tick_spawns_first_platform() {
    let mut state = MainState::new(false);
    state.tick();
    assert_eq!(state.platforms.len(), 1);
    assert_eq!(state.platforms[0].size, PlatformSize::Large);
    assert_eq!(state.platforms[0].position, Position { x: 0, y: 840_000 });
}

#[test]
fn spawn_policy_by_score() {
    assert_eq!(level_design(0), PlatformDesign::GrassDesign);
    assert_eq!(level_design(900), PlatformDesign::GrassDesign);
    assert_eq!(level_design(1000), PlatformDesign::DesertDesign);
    assert_eq!(level_design(2500), PlatformDesign::ForestDesign);
    assert_eq!(level_design(3900), PlatformDesign::SnowDesign);
    assert_eq!(level_design(4000), PlatformDesign::AutumnDesign);
    assert_eq!(level_design(100_000), PlatformDesign::AutumnDesign);

    assert!(!spawns_mobile_platform(300));
    assert!(spawns_mobile_platform(400));
    assert!(spawns_mobile_platform(900));
    assert!(!spawns_mobile_platform(1000));
    assert!(spawns_mobile_platform(1400));
    assert!(!spawns_mobile_platform(4300));
    assert!(spawns_mobile_platform(4400));

    for score in [0, 1000, 2000, 3000, 4000] {
        assert!(spawns_large_platform(score));
    }
    assert!(!spawns_large_platform(5000));
    assert!(!spawns_large_platform(100));
}

#[test]
fn spawned_platforms_follow_counter() {
    let mut state = MainState::new(false);
    state.platforms_movement.score_of_latest_platform = 400;
    state.platforms_movement.distance_till_next_platform = 300_000;
    state.generate_new_platform(SpawnDraw { x: 200_000, small: true, goes_left_first: true });
    let p = state.platforms[0];
    assert_eq!(p.size, PlatformSize::Small);
    assert_eq!(p.position, Position { x: 200_000, y: 300_000 });
    assert!(p.movement.is_mobile);
    assert!(p.movement.can_go_left && !p.movement.can_go_right);
    assert_eq!(p.movement.leftmost_lateral_position, 59_000);
    assert_eq!(p.movement.rightmost_lateral_position, 341_000);
    assert_eq!(p.scoring.score, 400);

    state.platforms_movement.score_of_latest_platform = 1000;
    state.generate_new_platform(draw_at(250_000));
    let q = state.platforms[1];
    assert_eq!(q.size, PlatformSize::Large);
    assert_eq!(q.design, PlatformDesign::DesertDesign);
    assert_eq!(q.position, Position { x: 0, y: 300_000 - 206_000 });
    assert_eq!(state.platforms_movement.score_of_latest_platform, 1100);
}

#[test]
fn random_draws_stay_in_spawn_ranges() {
    let mut xs = Vec::new();
    for _ in 0..200 {
        let d = random_spawn_draw(500);
        assert!(d.x >= 141_000 && d.x <= 597_000);
        let e = random_spawn_draw(100);
        assert!(e.x >= 25_000 && e.x <= 619_000);
        xs.push(e.x);
    }
    assert!(xs.iter().any(|x| *x != xs[0]));
}

#[test]
fn mobile_platform_turns_at_its_bounds() {
    let mut platform = PlatformEntity::new(
        PlatformDesign::GrassDesign,
        PlatformSize::Regular,
        Position { x: 141_000, y: 400_000 },
        500,
        true,
        false,
    );
    let mut max_x = platform.position.x;
    let mut min_x = platform.position.x;
    for _ in 0..2_000 {
        platform.update(false);
        max_x = max_x.max(platform.position.x);
        min_x = min_x.min(platform.position.x);
        assert!(platform.position.x <= 141_000 + 141_000);
        assert!(platform.position.x >= 0);
    }
    assert_eq!(max_x, 282_000);
    assert_eq!(min_x, 0);
    platform.update(true);
    assert_eq!(platform.position.y, 400_000);
}

#[test]
fn stationary_platform_stays_put() {
    let mut platform = PlatformEntity::new(
        PlatformDesign::SnowDesign,
        PlatformSize::Small,
        Position { x: 300_000, y: 400_000 },
        3100,
        false,
        true,
    );
    platform.update(false);
    assert_eq!(platform.position, Position { x: 300_000, y: 400_000 });
    assert_eq!(platform.movement.leftmost_lateral_position, 300_000);
    assert_eq!(platform.movement.rightmost_lateral_position, 300_000);
    assert!(!platform.movement.can_go_left && !platform.movement.can_go_right);
}

#[test]
fn landing_collects_score_once() {
    let mut state = session_with_two_platforms(300_000);
    falling_onto_second_platform(&mut state);

    state.handle_collisions();
    assert_eq!(state.score, 100);
    assert_eq!(state.player.state, PlayerState::Idle);
    assert!(state.platforms[1].scoring.score_has_been_collected);
    assert!(state.platforms[1].interaction.player_is_on_platform);
    assert_eq!(state.player.max_jump_height, state.player.position.y - 200_000);
    assert_eq!(state.player_movement.jump_delay, PlayerMovementHandler::JUMP_DELAY);

    state.score = 7;
    state.handle_collisions();
    assert_eq!(state.score, 7);
}

#[test]
fn landing_on_mobile_platform_carries_player() {
    let mut state = MainState::new(false);
    state.platforms_movement.score_of_latest_platform = 1500;
    state.platforms_movement.distance_till_next_platform = 500_000;
    state.generate_new_platform(SpawnDraw { x: 300_000, small: false, goes_left_first: true });
    state.platforms[0].update_bounding_rect_edges(PLATFORM_WIDTH);
    state.player.position = Position { x: 400_000, y: 500_000 };
    state.player.update_bounding_rect_edges();
    state.handle_collisions();
    assert_eq!(state.player.position.x, 400_000 - 1_100);
    assert_eq!(state.score, 1500);
}

#[test]
fn platform_breaks_then_vanishes_then_leaves() {
    let mut state = session_with_two_platforms(300_000);
    falling_onto_second_platform(&mut state);
    let (start, end) = broken_state_time_range(PlatformDesign::GrassDesign);
    assert_eq!((start, end), (210, 270));

    state.platforms[1].interaction.time_spent_on_platform = start - 1;
    state.handle_collisions();
    assert_eq!(state.platforms[1].state, PlatformState::Intact);

    state.platforms[1].interaction.time_spent_on_platform = start;
    state.handle_collisions();
    assert_eq!(state.platforms[1].state, PlatformState::Broken);
    assert_eq!(
        state.platforms[1].sprite(),
        PlatformSprite::Cracked(PlatformDesign::GrassDesign, PlatformSize::Regular)
    );

    state.platforms[1].interaction.time_spent_on_platform = end;
    state.handle_collisions();
    assert_eq!(state.platforms[1].state, PlatformState::Nonexistent);
    assert_eq!(state.platforms[1].sprite(), PlatformSprite::Transparent(PlatformSize::Regular));

    state.drop_broken_platforms();
    assert_eq!(state.platforms.len(), 1);
    assert_eq!(state.platforms[0].size, PlatformSize::Large);
}

#[test]
fn only_first_vanished_platform_leaves() {
    let mut state = MainState::new(false);
    for x in [100_000, 200_000, 300_000, 400_000] {
        state.generate_new_platform(draw_at(x));
    }
    state.platforms[1].state = PlatformState::Nonexistent;
    state.platforms[3].state = PlatformState::Nonexistent;
    assert_eq!(state.first_vanished(), Some(1));
    state.drop_broken_platforms();
    assert_eq!(state.platforms.len(), 3);
    assert_eq!(state.platforms[1].scoring.score, 200);
    assert_eq!(state.platforms[2].state, PlatformState::Nonexistent);
}

#[test]
fn large_platform_never_breaks() {
    let mut state = session_with_two_platforms(300_000);
    state.player.position = Position { x: 100_000, y: 840_000 };
    state.player.update_bounding_rect_edges();
    state.platforms[0].interaction.time_spent_on_platform = 220;
    state.handle_collisions();
    assert_eq!(state.platforms[0].state, PlatformState::Intact);
    assert_eq!(
        state.platforms[0].sprite(),
        PlatformSprite::Whole(PlatformDesign::GrassDesign, PlatformSize::Large)
    );
}

#[test]
fn falling_back_to_an_old_large_platform_ends_game() {
    let mut state = session_with_two_platforms(300_000);
    state.score = 300;
    state.player.position = Position { x: 100_000, y: 840_000 };
    state.player.state = PlayerState::Falling;
    state.player.update_bounding_rect_edges();
    state.handle_collisions();
    assert!(state.game_over);

    let mut debug = session_with_two_platforms(300_000);
    debug.debug_mode = true;
    debug.score = 300;
    debug.player.position = Position { x: 100_000, y: 840_000 };
    debug.player.state = PlayerState::Falling;
    debug.player.update_bounding_rect_edges();
    debug.handle_collisions();
    assert!(!debug.game_over);
}

#[test]
fn no_support_starts_fall_or_death() {
    let mut state = MainState::new(false);
    state.player.position.y = 500_000;
    state.handle_collisions();
    assert_eq!(state.player.state, PlayerState::Falling);
    assert!(state.player_movement.is_falling && !state.player_movement.can_jump);

    state.player.position.y = WindowMeasurements::WINDOW_HEIGHT;
    state.handle_collisions();
    assert_eq!(state.player.state, PlayerState::Dead);

    let mut debug = MainState::new(true);
    debug.player.position.y = WindowMeasurements::WINDOW_HEIGHT;
    debug.player.state = PlayerState::Falling;
    debug.handle_collisions();
    assert_eq!(debug.player.state, PlayerState::Idle);
    assert_eq!(debug.player.position.y, WindowMeasurements::WINDOW_HEIGHT - 1_500);
}

#[test]
fn dead_player_ends_game_and_ticks_stop() {
    let mut state = MainState::new(false);
    state.platforms_movement.distance_till_next_platform = -1;
    state.player.state = PlayerState::Dead;
    state.tick();
    assert!(state.game_over);
    let before = (state.player, state.player_movement, state.platforms_movement, state.score);
    state.tick();
    assert_eq!(before, (state.player, state.player_movement, state.platforms_movement, state.score));
}

#[test]
fn contact_time_grows_while_resting() {
    let mut state = session_with_two_platforms(300_000);
    state.platforms_movement.distance_till_next_platform = -1;
    falling_onto_second_platform(&mut state);
    state.handle_collisions();
    state.platforms[1].update_bounding_rect_edges(PLATFORM_WIDTH);
    for _ in 0..10 {
        state.tick_with(draw_at(300_000));
    }
    assert_eq!(state.platforms[1].interaction.time_spent_on_platform, 10);
}

#[test]
fn keys_drive_movement_flags() {
    let mut state = MainState::new(false);
    state.key_down_event(ControlKey::Left, false);
    assert_eq!(state.player_movement.units_travelled_laterally, -1);
    state.key_down_event(ControlKey::Right, false);
    assert_eq!(state.player_movement.units_travelled_laterally, 1);
    state.key_down_event(ControlKey::Jump, true);
    assert!(!state.player_movement.is_jumping);
    state.key_down_event(ControlKey::Jump, false);
    assert!(state.player_movement.is_jumping);
    state.player_movement.distance_travelled_laterally = 13;
    state.key_up_event(ControlKey::Right);
    assert_eq!(state.player_movement.units_travelled_laterally, 0);
    assert_eq!(state.player_movement.distance_travelled_laterally, 0);
    state.key_up_event(ControlKey::Jump);
    assert!(!state.player_movement.can_jump);

    state.game_over = true;
    state.key_down_event(ControlKey::Left, false);
    assert_eq!(state.player_movement.units_travelled_laterally, 0);
}

#[test]
fn run_phases_cycle_with_distance() {
    let mut state = MainState::new(false);
    state.player_movement.units_travelled_laterally = 1;
    state.update_player_running_phase();
    assert_eq!(state.player_movement.distance_travelled_laterally, 1);
    assert_eq!(state.player.state, PlayerState::RunningPhase0);
    for _ in 0..20 {
        state.update_player_running_phase();
    }
    assert_eq!(state.player.state, PlayerState::RunningPhase1);
    for _ in 0..40 {
        state.update_player_running_phase();
    }
    assert_eq!(state.player_movement.running_phase_factor, 1);
    assert_eq!(state.player.state, PlayerState::RunningPhase0);
    for _ in 0..20 {
        state.update_player_running_phase();
    }
    assert_eq!(state.player.state, PlayerState::RunningPhase1);
}

#[test]
fn new_handlers_start_empty() {
    let score = PlatformScoreHandler::new(700);
    assert_eq!(score.score, 700);
    assert!(!score.score_has_been_collected);
    let h = PlatformHorizontalMovementHandler::new(Position { x: 200_000, y: 0 }, true, true);
    assert!(h.can_go_left && !h.can_go_right);
    assert_eq!(h.gravity, 0);
    let m = PlayerMovementHandler::new();
    assert!(m.can_jump && !m.is_jumping && !m.is_falling);
    assert_eq!(m.jump_delay, 53);
}

#[test]
fn fresh_state_is_within_limits() {
    let state = MainState::new(false);
    assert!(state.within_limits());
    let mut far = MainState::new(false);
    far.player.position.y = 600_000_000_000;
    assert!(!far.within_limits());
}

#[test]
fn jump_stays_near_apex_until_it_turns() {
    let mut state = MainState::new(false);
    state.platforms_movement.distance_till_next_platform = -1;
    state.key_down_event(ControlKey::Jump, false);
    let apex = state.player.max_jump_height;
    assert_eq!(apex, 640_000);

    let mut ticks = 0;
    state.tick();
    while state.player.state == PlayerState::Jumping {
        assert!(state.player.position.y >= apex);
        state.tick();
        ticks += 1;
        assert!(ticks < 1_000);
    }
    assert_eq!(state.player.state, PlayerState::Falling);
    assert!(state.player.position.y >= apex);
    assert!(ticks > 90 && ticks < 100);
}

#[test]
fn carried_player_stays_within_window() {
    let mut state = MainState::new(false);
    state.platforms_movement.score_of_latest_platform = 500;
    state.platforms_movement.distance_till_next_platform = 500_000;
    state.generate_new_platform(SpawnDraw { x: 597_000, small: false, goes_left_first: false });
    state.platforms[0].update_bounding_rect_edges(400_000);
    state.player.position = Position { x: 974_000, y: 500_000 };
    state.player.update_bounding_rect_edges();
    state.handle_collisions();
    assert!(state.platforms[0].interaction.player_is_on_platform);
    assert_eq!(state.player.position.x, 974_000);
}

#[test]
fn player_below_window_dies_instead_of_landing() {
    let mut state = MainState::new(false);
    state.platforms_movement.score_of_latest_platform = 100;
    state.platforms_movement.distance_till_next_platform = 923_000;
    state.generate_new_platform(draw_at(100_000));
    state.platforms[0].update_bounding_rect_edges(PLATFORM_WIDTH);
    state.player.position = Position { x: 150_000, y: 925_000 };
    state.player.state = PlayerState::Falling;
    state.player.update_bounding_rect_edges();
    assert_eq!(state.first_overlap(), Some(0));
    state.handle_collisions();
    assert_eq!(state.player.state, PlayerState::Dead);
}

#[test]
fn dead_player_stays_dead_after_jump_key() {
    let mut state = MainState::new(false);
    state.player.state = PlayerState::Dead;
    state.key_down_event(ControlKey::Jump, false);
    state.tick();
    assert!(state.game_over);
    assert_eq!(state.player.state, PlayerState::Dead);
}

#[test]
fn landing_marks_only_the_landed_platform() {
    let mut state = session_with_two_platforms(300_000);
    state.platforms[1].interaction.player_is_on_platform = true;
    let second = state.platforms[1];
    state.player.position = Position { x: 100_000, y: 840_000 };
    state.player.update_bounding_rect_edges();
    state.handle_collisions();
    assert!(state.platforms[0].interaction.player_is_on_platform);
    assert_eq!(state.platforms[1], second);
}

#[test]
fn tick_moves_support_mark() {
    let mut state = session_with_two_platforms(300_000);
    state.platforms_movement.distance_till_next_platform = -1;
    state.platforms[1].interaction.player_is_on_platform = true;
    state.player.position = Position { x: 100_000, y: 840_000 };
    state.player.update_bounding_rect_edges();
    state.tick_with(draw_at(300_000));
    assert!(state.platforms[0].interaction.player_is_on_platform);
    assert!(!state.platforms[1].interaction.player_is_on_platform);
}

#[test]
fn first_platform_sits_at_bottom_whatever_spawn_height() {
    let mut state = MainState::new(false);
    state.platforms_movement.distance_till_next_platform = 100_000;
    state.generate_new_platform(draw_at(300_000));
    assert_eq!(state.platforms[0].position, Position { x: 0, y: 840_000 });
    assert_eq!(state.platforms_movement.distance_till_next_platform, 100_000 - 206_000);
}

#[test]
fn one_gravity_step_per_tick() {
    let mut state = MainState::new(false);
    state.platforms_movement.distance_till_next_platform = -1;
    state.player.position.y = 400_000;
    state.player.state = PlayerState::Falling;
    state.player_movement.is_falling = true;
    state.tick();
    assert_eq!(state.player.position.y, 400_000 + Physics::GRAVITY);
}
