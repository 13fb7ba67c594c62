use rand::Rng;
use std::collections::VecDeque;
use vstd::prelude::*;

use crate::entities::{
    coord_ok, BoundableEntity, Physics, Position, WindowMeasurements, COORD_LIMIT, TICK_LIMIT,
};
use crate::platform::{
    broken_state_time_range, lateral_units_travelled, PlatformDesign, PlatformEntity,
    PlatformScoreHandler, PlatformSize, PlatformState, PlatformVerticalMovementHandler,
    PtoPInteractionHandler,
};
use crate::model::{
    contact_extended, design_for_score, lemma_collided_within, lemma_platform_stages_within,
    lemma_player_stages_within, lemma_spawn_within, lemma_within_mono, mobile_for_score,
    opens_band, platform_within, scroll_gravity_set, spawn_range, speed_multiplier,
    phase_frequency, stage_slack, MainStateView,
};
use crate::player::{PlayerDirection, PlayerEntity, PlayerMovementHandler, PlayerState};

verus! {

/// The keys the simulation reacts to.
#[derive(Debug, Clone, Copy, PartialEq, Eq, Structural)]
pub enum ControlKey {
    Jump,
    Left,
    Right,
}

/// What the random draws of one spawn came out as: the horizontal position,
/// whether a breakable platform is small (else regular), and whether a
/// mobile one first heads left.
#[derive(Debug, Clone, Copy, PartialEq, Eq, Structural)]
pub struct SpawnDraw {
    pub x: i64,
    pub small: bool,
    pub goes_left_first: bool,
}

/// The whole simulation: the player, the queue of platforms (oldest at the
/// front) and the spawn bookkeeping.
pub struct MainState {
    pub player: PlayerEntity,
    pub player_movement: PlayerMovementHandler,
    pub platforms: VecDeque<PlatformEntity>,
    pub platforms_movement: PlatformVerticalMovementHandler,
    pub score: u32,
    pub game_over: bool,
    /// Debug mode keeps the player alive at the bottom of the window.
    pub debug_mode: bool,
}

impl View for MainState {
    type V = MainStateView;

    open spec fn view(&self) -> MainStateView {
        MainStateView {
            player: self.player,
            player_movement: self.player_movement,
            platforms: self.platforms@,
            platforms_movement: self.platforms_movement,
            score: self.score,
            game_over: self.game_over,
            debug_mode: self.debug_mode,
        }
    }
}

/// The design of the score band that `score` lies in.
pub fn level_design(score: u32) -> (r: PlatformDesign)
    ensures
        r == design_for_score(score),
{
    if score <= 900 {
        PlatformDesign::GrassDesign
    } else if 1000 <= score && score <= 1900 {
        PlatformDesign::DesertDesign
    } else if 2000 <= score && score <= 2900 {
        PlatformDesign::ForestDesign
    } else if 3000 <= score && score <= 3900 {
        PlatformDesign::SnowDesign
    } else {
        PlatformDesign::AutumnDesign
    }
}

/// Whether the platform spawned at `score` oscillates.
pub fn spawns_mobile_platform(score: u32) -> (r: bool)
    ensures
        r == mobile_for_score(score),
{
    (400 <= score && score <= 900) || (1400 <= score && score <= 1900) || (2400 <= score && score
        <= 2900) || (3400 <= score && score <= 3900) || 4400 <= score
}

/// Whether the platform spawned at `score` is a large one.
pub fn spawns_large_platform(score: u32) -> (r: bool)
    ensures
        r == opens_band(score),
{
    score == 0 || score == 1000 || score == 2000 || score == 3000 || score == 4000
}

/// Relies on `rand::Rng::gen_range` over an inclusive integer range, drawn
/// from `rand::thread_rng`: the result lies within the range. It panics on an
/// empty range, which the precondition rules out.
#[verifier::external_body]
fn random_in_range(low: i64, high: i64) -> (r: i64)
    requires
        low <= high,
    ensures
        low <= r <= high,
{
    rand::thread_rng().gen_range(low..=high)
}

/// Draws for a spawn fit the policy when the horizontal position lies in the
/// range for the mobility of the next platform.
pub open spec fn draw_fits(d: SpawnDraw, score_of_latest_platform: u32) -> bool {
    let range = spawn_range(mobile_for_score(score_of_latest_platform));
    range.0 <= d.x <= range.1
}

/// Draws for the next spawn: the position uniformly within the range for its
/// mobility, and the size and the first heading each with equal chance.
pub fn random_spawn_draw(score_of_latest_platform: u32) -> (r: SpawnDraw)
    ensures
        draw_fits(r, score_of_latest_platform),
{
    let (low, high) = if spawns_mobile_platform(score_of_latest_platform) {
        (MainState::HORIZONTAL_MOBILE_PLATFORM_MIN, MainState::HORIZONTAL_MOBILE_PLATFORM_MAX)
    } else {
        (
            MainState::HORIZONTAL_STATIONARY_PLATFORM_MIN,
            MainState::HORIZONTAL_STATIONARY_PLATFORM_MAX,
        )
    };
    let x = random_in_range(low, high);
    let small = random_in_range(0, 1) == 0;
    let goes_left_first = random_in_range(0, 1) == 0;
    SpawnDraw { x, small, goes_left_first }
}

impl MainState {
    /// Half the window width.
    pub const STARTING_PLAYER_X: i64 = 512_000;

    pub const STARTING_PLAYER_Y: i64 = WindowMeasurements::WINDOW_HEIGHT - 84_000;

    pub const HORIZONTAL_STATIONARY_PLATFORM_MIN: i64 = 25_000;

    pub const HORIZONTAL_STATIONARY_PLATFORM_MAX: i64 = 619_000;

    pub const HORIZONTAL_MOBILE_PLATFORM_MIN: i64 = 141_000;

    pub const HORIZONTAL_MOBILE_PLATFORM_MAX: i64 = 597_000;

    pub const DEAD_PLAYER_IMAGE_OFFSET: i64 = 1_500;

    /// A fresh session: the player stands at the bottom centre, no platform
    /// exists yet and the score is zero.
    pub fn new(debug_mode: bool) -> (r: Self)
        ensures
            r.player == (PlayerEntity {
                state: PlayerState::Idle,
                direction: PlayerDirection::Right,
                position: Position { x: Self::STARTING_PLAYER_X, y: Self::STARTING_PLAYER_Y },
                bounding_rect_edges: None,
                max_jump_height: (Self::STARTING_PLAYER_Y - PlayerEntity::JUMP_AMPLITUDE) as i64,
            }),
            r.player_movement == PlayerMovementHandler::new_spec(),
            r.platforms@ == Seq::<PlatformEntity>::empty(),
            r.platforms_movement == (PlatformVerticalMovementHandler {
                platform_update_timer: PlatformVerticalMovementHandler::PLATFORM_UPDATE_DURATION,
                distance_till_next_platform: PlatformVerticalMovementHandler::FIRST_PLATFORM_HEIGHT,
                score_of_latest_platform: 0,
            }),
            r.score == 0,
            !r.game_over,
            r.debug_mode == debug_mode,
    {
        MainState {
            player: PlayerEntity::new(
                Position { x: Self::STARTING_PLAYER_X, y: Self::STARTING_PLAYER_Y },
            ),
            player_movement: PlayerMovementHandler::new(),
            platforms: VecDeque::new(),
            platforms_movement: PlatformVerticalMovementHandler::new(),
            score: 0,
            game_over: false,
            debug_mode,
        }
    }

    /// Appends the platform that the spawn policy gives for the latest score
    /// and the draws, then advances the score counter and the spawn height.
    pub fn generate_new_platform(&mut self, draw: SpawnDraw)
        requires
            !opens_band(old(self).platforms_movement.score_of_latest_platform) ==> draw_fits(
                draw,
                old(self).platforms_movement.score_of_latest_platform,
            ),
            coord_ok(old(self).platforms_movement.distance_till_next_platform as int),
            old(self).platforms_movement.score_of_latest_platform <= u32::MAX
                - PlatformScoreHandler::POINTS,
        ensures
            final(self)@ == old(self)@.spawned(draw),
    {
        let sc = self.platforms_movement.score_of_latest_platform;
        let large = spawns_large_platform(sc);
        let position = if sc == 0 {
            Position { x: 0, y: PlatformVerticalMovementHandler::FIRST_PLATFORM_HEIGHT }
        } else if large {
            Position { x: 0, y: self.platforms_movement.distance_till_next_platform }
        } else {
            Position { x: draw.x, y: self.platforms_movement.distance_till_next_platform }
        };
        let size = if large {
            PlatformSize::Large
        } else if draw.small {
            PlatformSize::Small
        } else {
            PlatformSize::Regular
        };
        let platform = PlatformEntity::new(
            level_design(sc),
            size,
            position,
            sc,
            spawns_mobile_platform(sc),
            draw.goes_left_first,
        );
        self.platforms_movement.score_of_latest_platform = sc + PlatformScoreHandler::POINTS;
        self.platforms_movement.distance_till_next_platform =
            self.platforms_movement.distance_till_next_platform
            - PlatformEntity::VERTICAL_PLATFORM_OFFSET;
        self.platforms.push_back(platform);
    }

    /// Puts `p` in place of the platform at `i`.
    fn replace_platform(&mut self, i: usize, p: PlatformEntity)
        requires
            i < old(self).platforms.len(),
        ensures
            final(self)@ == (MainStateView {
                platforms: old(self)@.platforms.update(i as int, p),
                ..old(self)@
            }),
    {
        let ghost before = self@.platforms;
        self.platforms.remove(i);
        self.platforms.insert(i, p);
        assert(self@.platforms =~= before.update(i as int, p));
    }

    /// Index of the first platform, in queue order, whose box meets the
    /// player's box.
    pub fn first_overlap(&self) -> (r: Option<usize>)
        ensures
            match r {
                Some(i) => self@.is_first_overlap(i as int),
                None => self@.no_overlap(),
            },
    {
        let player_rect = self.player.bounding_rect();
        let mut i: usize = 0;
        while i < self.platforms.len()
            invariant
                i <= self.platforms.len(),
                player_rect == self.player.bounding_rect_spec(),
                forall|j: int| 0 <= j < i ==> !self@.overlaps_player(j),
            decreases self.platforms.len() - i,
        {
            if self.platforms[i].bounding_rect().overlaps(&player_rect) {
                return Some(i);
            }
            i = i + 1;
        }
        None
    }

    fn worn_platform_state(p: &PlatformEntity) -> (r: PlatformState)
        ensures
            r == MainStateView::worn_state(*p),
    {
        if p.size == PlatformSize::Large {
            return p.state;
        }
        let (start, end) = broken_state_time_range(p.design);
        let t = p.interaction.time_spent_on_platform;
        if start <= t && t < end {
            PlatformState::Broken
        } else if p.state == PlatformState::Broken {
            PlatformState::Nonexistent
        } else {
            p.state
        }
    }

    fn carried_x(x: i64, p: &PlatformEntity) -> (r: i64)
        requires
            coord_ok(x as int),
        ensures
            r == MainStateView::carried_x(x as int, *p),
    {
        let moved = if p.movement.is_mobile && p.movement.can_go_right {
            x + lateral_units_travelled(p.design)
        } else if p.movement.is_mobile && p.movement.can_go_left {
            x - lateral_units_travelled(p.design)
        } else {
            x
        };
        let left = PlayerEntity::LEFT_WINDOW_EDGE_IN_REGARDS_TO_PLAYERMODEL;
        let right = PlayerEntity::RIGHT_WINDOW_EDGE_IN_REGARDS_TO_PLAYERMODEL;
        if moved < left {
            left
        } else if moved > right {
            right
        } else {
            moved
        }
    }

    fn land_on_platform(&mut self, i: usize)
        requires
            i < old(self).platforms.len(),
            coord_ok(old(self).player.position.x as int),
            coord_ok(old(self).player.position.y as int),
        ensures
            final(self)@ == old(self)@.landed(i as int),
    {
        let p = self.platforms[i];
        let falling = self.player.state == PlayerState::Falling;
        let backwards = falling && p.size == PlatformSize::Large && p.scoring.score < self.score
            && self.platforms.len() < 5 && !self.debug_mode;
        let delay = if falling {
            PlayerMovementHandler::JUMP_DELAY
        } else {
            self.player_movement.jump_delay
        };
        let collect = !p.scoring.score_has_been_collected;
        let landed_on = PlatformEntity {
            state: Self::worn_platform_state(&p),
            scoring: PlatformScoreHandler { score_has_been_collected: true, ..p.scoring },
            interaction: PtoPInteractionHandler { player_is_on_platform: true, ..p.interaction },
            ..p
        };
        let pl = self.player;
        let m = self.player_movement;
        self.player = PlayerEntity {
            state: if falling {
                PlayerState::Idle
            } else {
                pl.state
            },
            position: Position { x: Self::carried_x(pl.position.x, &p), ..pl.position },
            max_jump_height: pl.position.y - PlayerEntity::JUMP_AMPLITUDE,
            ..pl
        };
        self.player_movement = PlayerMovementHandler {
            jump_delay: delay,
            is_jumping: false,
            is_falling: false,
            can_jump: if delay == 0 {
                true
            } else {
                m.can_jump
            },
            ..m
        };
        self.replace_platform(i, landed_on);
        if collect {
            self.score = p.scoring.score;
        }
        if backwards {
            self.game_over = true;
        }
        assert(self@.platforms =~= old(self)@.landed(i as int).platforms);
    }

    fn lose_support(&mut self)
        ensures
            final(self)@ == old(self)@.unsupported(),
    {
        let floor = WindowMeasurements::WINDOW_HEIGHT - Self::DEAD_PLAYER_IMAGE_OFFSET;
        if self.player.position.y < floor {
            self.player.state = PlayerState::Falling;
            self.player_movement.is_jumping = false;
            self.player_movement.is_falling = true;
            self.player_movement.can_jump = false;
        } else if self.debug_mode {
            self.player.position.y = floor;
            self.player_movement.is_falling = false;
            self.player_movement.can_jump = true;
            if self.player.state == PlayerState::Falling {
                self.player.state = PlayerState::Idle;
            }
        } else {
            self.player.state = PlayerState::Dead;
            self.player_movement.is_falling = false;
        }
    }

    /// Resolves at most one contact between the player and the platforms:
    /// the first platform in queue order whose box meets the player's.
    pub fn handle_collisions(&mut self)
        requires
            coord_ok(old(self).player.position.x as int),
            coord_ok(old(self).player.position.y as int),
        ensures
            final(self)@ == old(self)@.collided(),
    {
        if self.player.state == PlayerState::Jumping {
            return ;
        }
        if self.player.position.y > WindowMeasurements::WINDOW_HEIGHT {
            self.lose_support();
            return ;
        }
        match self.first_overlap() {
            Some(i) => {
                proof {
                    let c = choose|k: int| self@.is_first_overlap(k);
                    assert(self@.is_first_overlap(c));
                    if c < i {
                        assert(!self@.overlaps_player(c));
                    } else if c > i {
                        assert(!self@.overlaps_player(i as int));
                    }
                }
                self.land_on_platform(i);
            },
            None => {
                self.lose_support();
            },
        }
    }

    fn speed_multiplier(score: u32) -> (r: i64)
        ensures
            r == speed_multiplier(score),
    {
        if 3000 <= score && score <= 3900 {
            PlayerMovementHandler::SNOW_LEVEL_SPEED_MULTIPLIER as i64
        } else if 4000 <= score {
            PlayerMovementHandler::AUTUMN_LEVEL_SPEED_MULTIPLIER as i64
        } else {
            PlayerMovementHandler::DEFAULT_SPEED_MULTIPLIER as i64
        }
    }

    fn phase_frequency(score: u32) -> (r: i64)
        ensures
            r == phase_frequency(score),
    {
        if 3000 <= score && score <= 3900 {
            PlayerMovementHandler::SNOW_LEVEL_RUNNING_PHASE_CHANGE_FREQUENCY
        } else if 4000 <= score {
            PlayerMovementHandler::AUTUMN_LEVEL_RUNNING_PHASE_CHANGE_FREQUENCY
        } else {
            PlayerMovementHandler::DEFAULT_FREQUENCY
        }
    }

    fn move_player(&mut self)
        requires
            coord_ok(old(self).player.position.y as int),
            -1 <= old(self).player_movement.units_travelled_laterally <= 1,
        ensures
            final(self)@ == old(self)@.player_moved(),
    {
        let units = self.player_movement.units_travelled_laterally as i64;
        let multiplier = Self::speed_multiplier(self.score);
        proof {
            assert(-5 <= units * multiplier <= 5) by (nonlinear_arith)
                requires
                    -1 <= units <= 1,
                    3 <= multiplier <= 5,
            ;
        }
        let lateral = units * multiplier;
        self.player.change_player_position_along_x_axis(lateral, 1);
    }

    pub fn update_player_running_phase(&mut self)
        requires
            coord_ok(old(self).player_movement.distance_travelled_laterally as int),
            -1 <= old(self).player_movement.units_travelled_laterally <= 1,
        ensures
            final(self)@ == old(self)@.running_phase_updated(),
    {
        let frequency = Self::phase_frequency(self.score);
        let d = self.player_movement.distance_travelled_laterally
            + self.player_movement.units_travelled_laterally as i64;
        self.player_movement.distance_travelled_laterally = d;
        let magnitude: i64 = if d < 0 {
            -d
        } else {
            d
        };
        if (magnitude as u64) % (frequency as u64) == 1 {
            self.player_movement.running_phase_factor = self.player_movement.running_phase_factor.saturating_add(1);
        }
        match self.player.state {
            PlayerState::Jumping | PlayerState::Falling | PlayerState::Dead => {},
            _ => {
                let f = self.player_movement.running_phase_factor;
                if f == 0 {
                    self.player.state = PlayerState::Idle;
                } else if f == 1 {
                    self.player.state = PlayerState::RunningPhase0;
                } else if f == 2 {
                    self.player.state = PlayerState::RunningPhase1;
                } else if f == 3 {
                    self.player.state = PlayerState::RunningPhase2;
                } else {
                    self.player_movement.running_phase_factor = 1;
                    self.player.state = PlayerState::RunningPhase0;
                }
            },
        }
    }

    fn update_player_jumping_motion(&mut self, ticks: u32)
        requires
            coord_ok(old(self).player.position.y as int),
        ensures
            final(self)@ == old(self)@.jump_motion_updated(ticks),
    {
        self.player_movement.jump_delay = self.player_movement.jump_delay.saturating_sub(ticks);
        if self.player_movement.is_jumping {
            if self.player.position.y - Physics::GRAVITY >= self.player.max_jump_height {
                self.player.state = PlayerState::Jumping;
                self.player.position.y = self.player.position.y - Physics::GRAVITY;
            } else {
                self.player.state = PlayerState::Falling;
                self.player_movement.is_jumping = false;
                self.player_movement.is_falling = true;
            }
        } else if self.player_movement.is_falling {
            if self.player.position.y <= WindowMeasurements::WINDOW_HEIGHT {
                self.player.position.y = self.player.position.y + Physics::GRAVITY;
            } else if !self.debug_mode {
                self.player.state = PlayerState::Dead;
                self.player_movement.is_falling = false;
            }
        }
    }

    fn update_platforms(&mut self, player_is_in_jumping_state: bool)
        requires
            forall|j: int|
                0 <= j < old(self).platforms.len() ==> platform_within(
                    #[trigger] old(self).platforms@[j],
                    COORD_LIMIT as int,
                ),
        ensures
            final(self)@ == old(self)@.platforms_updated(player_is_in_jumping_state),
    {
        let ghost start = self@;
        let mut i: usize = 0;
        while i < self.platforms.len()
            invariant
                i <= self.platforms.len() == start.platforms.len(),
                self@ == (MainStateView { platforms: self@.platforms, ..start }),
                forall|j: int|
                    0 <= j < start.platforms.len() ==> platform_within(
                        #[trigger] start.platforms[j],
                        COORD_LIMIT as int,
                    ),
                forall|j: int|
                    0 <= j < i ==> self.platforms@[j] == #[trigger] start.platforms[j].updated(
                        player_is_in_jumping_state,
                    ),
                forall|j: int| i <= j < self.platforms.len() ==> self.platforms@[j] == start.platforms[j],
            decreases self.platforms.len() - i,
        {
            let mut p = self.platforms[i];
            assert(platform_within(start.platforms[i as int], COORD_LIMIT as int));
            p.update(player_is_in_jumping_state);
            self.replace_platform(i, p);
            i = i + 1;
        }
        assert(self@.platforms =~= start.platforms_updated(player_is_in_jumping_state).platforms);
    }

    fn clear_old_interaction_data(&mut self)
        ensures
            final(self)@ == old(self)@.interactions_cleared(),
    {
        let ghost start = self@;
        let mut i: usize = 0;
        while i < self.platforms.len()
            invariant
                i <= self.platforms.len() == start.platforms.len(),
                self@ == (MainStateView { platforms: self@.platforms, ..start }),
                forall|j: int|
                    0 <= j < i ==> self.platforms@[j] == #[trigger] start.interactions_cleared().platforms[j],
                forall|j: int| i <= j < self.platforms.len() ==> self.platforms@[j] == start.platforms[j],
            decreases self.platforms.len() - i,
        {
            let mut p = self.platforms[i];
            p.interaction.player_is_on_platform = false;
            self.replace_platform(i, p);
            i = i + 1;
        }
        assert(self@.platforms =~= start.interactions_cleared().platforms);
    }

    fn update_time_spent_on_platform(&mut self, ticks: u32)
        ensures
            final(self)@ == old(self)@.contact_timed(ticks),
    {
        let ghost start = self@;
        let mut i: usize = 0;
        while i < self.platforms.len()
            invariant
                i <= self.platforms.len() == start.platforms.len(),
                self@ == (MainStateView { platforms: self@.platforms, ..start }),
                forall|j: int|
                    0 <= j < i ==> self.platforms@[j] == #[trigger] contact_extended(start.platforms[j], ticks),
                forall|j: int| i <= j < self.platforms.len() ==> self.platforms@[j] == start.platforms[j],
            decreases self.platforms.len() - i,
        {
            let mut p = self.platforms[i];
            if p.interaction.player_is_on_platform {
                p.interaction.time_spent_on_platform = p.interaction.time_spent_on_platform.saturating_add(ticks);
            }
            self.replace_platform(i, p);
            i = i + 1;
        }
        assert(self@.platforms =~= start.contact_timed(ticks).platforms);
    }

    fn readjust_platforms_vertically(&mut self)
        requires
            forall|j: int|
                0 <= j < old(self).platforms.len() ==> platform_within(
                    #[trigger] old(self).platforms@[j],
                    COORD_LIMIT - 10_000,
                ),
            coord_ok(old(self).platforms_movement.platform_update_timer as int),
        ensures
            final(self)@ == old(self)@.readjusted(),
    {
        let ghost start = self@;
        let mut i: usize = 0;
        while i < self.platforms.len()
            invariant
                i <= self.platforms.len() == start.platforms.len(),
                self@ == (MainStateView { platforms: self@.platforms, ..start }),
                forall|j: int|
                    0 <= j < start.platforms.len() ==> platform_within(
                        #[trigger] start.platforms[j],
                        COORD_LIMIT - 10_000,
                    ),
                forall|j: int|
                    0 <= j < i ==> self.platforms@[j] == #[trigger] scroll_gravity_set(
                        start.platforms[j],
                    ).updated(true),
                forall|j: int| i <= j < self.platforms.len() ==> self.platforms@[j] == start.platforms[j],
            decreases self.platforms.len() - i,
        {
            let mut p = self.platforms[i];
            assert(platform_within(start.platforms[i as int], COORD_LIMIT - 10_000));
            p.movement.gravity = Physics::GRAVITY
                * PlatformVerticalMovementHandler::DEFAULT_GRAVITY_MULTIPLIER;
            p.update(true);
            self.replace_platform(i, p);
            i = i + 1;
        }
        self.platforms_movement.platform_update_timer =
        self.platforms_movement.platform_update_timer - 1;
        assert(self@.platforms =~= start.readjusted().platforms);
    }

    fn update_distance_till_next_platform(&mut self)
        requires
            old(self).platforms.len() > 0 ==> coord_ok(old(self).platforms@.last().position.y as int),
        ensures
            final(self)@ == old(self)@.spawn_height_updated(),
    {
        let n = self.platforms.len();
        if self.platforms_movement.distance_till_next_platform <= 0 && n > 0 {
            self.platforms_movement.distance_till_next_platform = self.platforms[n - 1].position.y
                - PlatformEntity::VERTICAL_PLATFORM_OFFSET;
        }
    }

    fn reset_platform_update_timer(&mut self)
        ensures
            final(self)@ == old(self)@.timer_reset(),
    {
        if self.platforms_movement.platform_update_timer <= 0 {
            self.platforms_movement.platform_update_timer =
            PlatformVerticalMovementHandler::PLATFORM_UPDATE_DURATION;
        }
    }

    pub fn drop_platforms_out_of_reach(&mut self)
        ensures
            final(self)@ == old(self)@.dropped_out_of_reach(),
    {
        if self.platforms.len() > 0 && self.platforms[0].position.y
            >= WindowMeasurements::WINDOW_HEIGHT {
            self.platforms.pop_front();
            assert(self@.platforms =~= old(self)@.platforms.drop_first());
        }
    }

    /// Index of the first vanished platform in queue order.
    pub fn first_vanished(&self) -> (r: Option<usize>)
        ensures
            match r {
                Some(i) => self@.is_first_vanished(i as int),
                None => forall|j: int|
                    0 <= j < self.platforms.len() ==> self.platforms@[j].state
                        != PlatformState::Nonexistent,
            },
    {
        let mut i: usize = 0;
        while i < self.platforms.len()
            invariant
                i <= self.platforms.len(),
                forall|j: int| 0 <= j < i ==> self.platforms@[j].state != PlatformState::Nonexistent,
            decreases self.platforms.len() - i,
        {
            if self.platforms[i].state == PlatformState::Nonexistent {
                return Some(i);
            }
            i = i + 1;
        }
        None
    }

    pub fn drop_broken_platforms(&mut self)
        ensures
            final(self)@ == old(self)@.dropped_broken(),
    {
        match self.first_vanished() {
            Some(i) => {
                proof {
                    let c = choose|k: int| self@.is_first_vanished(k);
                    assert(self@.is_first_vanished(c));
                    if c < i {
                        assert(self@.platforms[c].state != PlatformState::Nonexistent);
                    } else if c > i {
                        assert(self@.platforms[i as int].state != PlatformState::Nonexistent);
                    }
                }
                self.platforms.remove(i);
            },
            None => {
                assert(!exists|k: int| self@.is_first_vanished(k));
            },
        }
    }

    fn advance_player(&mut self)
        requires
            old(self)@.within(TICK_LIMIT as int),
        ensures
            final(self)@ == old(self)@.player_advanced(),
            final(self)@.within(TICK_LIMIT + 3 * stage_slack()),
            final(self).platforms_movement == old(self).platforms_movement,
    {
        let ghost s0 = self@;
        let ghost b0 = TICK_LIMIT as int;
        let ghost sl = stage_slack();
        proof {
            lemma_player_stages_within(s0, b0);
        }
        self.move_player();
        let ghost s2 = self@;
        proof {
            lemma_player_stages_within(s2, b0 + sl);
        }
        self.update_player_running_phase();
        let ghost s3 = self@;
        proof {
            lemma_player_stages_within(s3, b0 + 2 * sl);
        }
        self.update_player_jumping_motion(1);
    }

    fn advance_platforms(&mut self)
        requires
            old(self)@.within(TICK_LIMIT + 3 * stage_slack()),
        ensures
            final(self)@ == old(self)@.platforms_advanced(),
            final(self)@.within(TICK_LIMIT + 6 * stage_slack()),
            final(self).platforms_movement.score_of_latest_platform
                == old(self).platforms_movement.score_of_latest_platform,
    {
        let ghost b0 = TICK_LIMIT as int;
        let ghost sl = stage_slack();
        let ghost s4 = self@;
        proof {
            lemma_within_mono(s4, b0 + 3 * sl, COORD_LIMIT as int);
            lemma_platform_stages_within(s4, b0 + 3 * sl);
        }
        self.update_platforms(false);
        let ghost s5 = self@;
        proof {
            lemma_platform_stages_within(s5, b0 + 4 * sl);
        }
        if self.player.state == PlayerState::Jumping {
            self.clear_old_interaction_data();
            let ghost c = self@;
            proof {
                lemma_platform_stages_within(c, b0 + 5 * sl);
                lemma_within_mono(c, b0 + 5 * sl, COORD_LIMIT - 10_000);
            }
            if self.platforms_movement.platform_update_timer > 0 && self.player.position.y
                < PlatformVerticalMovementHandler::MAX_PLAYER_HEIGHT_FOR_PLATFORM_UPDATE {
                self.readjust_platforms_vertically();
                proof {
                    let n = c.platforms.len();
                    if n > 0 {
                        assert(platform_within(c.readjusted().platforms[n - 1], b0 + 6 * sl));
                    }
                }
                self.update_distance_till_next_platform();
                self.reset_platform_update_timer();
            } else {
                proof {
                    lemma_within_mono(c, b0 + 5 * sl, b0 + 6 * sl);
                }
            }
        } else {
            if self.player.state == PlayerState::Falling {
                self.clear_old_interaction_data();
                proof {
                    lemma_platform_stages_within(s5.interactions_cleared(), b0 + 5 * sl);
                }
            }
            self.update_time_spent_on_platform(1);
        }
    }

    fn settle(&mut self, draw: SpawnDraw)
        requires
            old(self)@.within(TICK_LIMIT + 6 * stage_slack()),
            old(self).platforms_movement.score_of_latest_platform <= u32::MAX
                - PlatformScoreHandler::POINTS,
            draw_fits(draw, old(self).platforms_movement.score_of_latest_platform),
        ensures
            final(self)@ == old(self)@.settled(draw),
    {
        let ghost s6 = self@;
        proof {
            lemma_spawn_within(s6, draw, TICK_LIMIT + 6 * stage_slack());
        }
        if self.platforms_movement.distance_till_next_platform >= 0 {
            self.generate_new_platform(draw);
        }
        let ghost s7 = self@;
        proof {
            lemma_platform_stages_within(s7, TICK_LIMIT + 7 * stage_slack());
        }
        self.clear_old_interaction_data();
        let ghost s8 = self@;
        proof {
            lemma_collided_within(s8, TICK_LIMIT + 8 * stage_slack());
        }
        self.handle_collisions();
        self.drop_platforms_out_of_reach();
        self.drop_broken_platforms();
    }

    /// One fixed step of the simulation, with the draws for a spawn that the
    /// step may make. Once the game is over it does nothing, and a dead
    /// player ends the game and the step, unless debug mode is on. The state must
    /// lie within the bounds that `within_limits` tests, which exclude only
    /// values far beyond the window.
    pub fn tick_with(&mut self, draw: SpawnDraw)
        requires
            old(self)@.ready_for_tick(),
            draw_fits(draw, old(self).platforms_movement.score_of_latest_platform),
        ensures
            final(self)@ == old(self)@.ticked(draw),
    {
        if self.game_over {
            return ;
        }
        if self.player.state == PlayerState::Dead && !self.debug_mode {
            self.game_over = true;
            return ;
        }
        self.advance_player();
        self.advance_platforms();
        self.settle(draw);
    }

    /// One fixed step of the simulation, with fresh random draws for a spawn
    /// that the step may make.
    pub fn tick(&mut self)
        requires
            old(self)@.ready_for_tick(),
        ensures
            exists|d: SpawnDraw|
                draw_fits(d, old(self).platforms_movement.score_of_latest_platform)
                    && final(self)@ == old(self)@.ticked(d),
    {
        let draw = random_spawn_draw(self.platforms_movement.score_of_latest_platform);
        self.tick_with(draw);
    }

    /// Whether the state lies within the bounds that a tick accepts.
    pub fn within_limits(&self) -> (r: bool)
        ensures
            r == self@.ready_for_tick(),
    {
        let b = TICK_LIMIT;
        let p = self.player;
        let m = self.player_movement;
        let pm = self.platforms_movement;
        if !(-b <= p.position.x && p.position.x <= b && -b <= p.position.y && p.position.y <= b
            && -b <= p.max_jump_height && p.max_jump_height <= b
            && -1 <= m.units_travelled_laterally && m.units_travelled_laterally <= 1
            && -b <= m.distance_travelled_laterally && m.distance_travelled_laterally <= b
            && -b <= pm.distance_till_next_platform && pm.distance_till_next_platform <= b
            && -b <= pm.platform_update_timer && pm.platform_update_timer <= b
            && self.platforms.len() as u64 <= b as u64 && pm.score_of_latest_platform <= u32::MAX
            - PlatformScoreHandler::POINTS) {
            return false;
        }
        let mut i: usize = 0;
        while i < self.platforms.len()
            invariant
                b == TICK_LIMIT,
                i <= self.platforms.len(),
                forall|j: int| 0 <= j < i ==> platform_within(#[trigger] self.platforms@[j], b as int),
            decreases self.platforms.len() - i,
        {
            let q = self.platforms[i];
            if !(-b <= q.position.x && q.position.x <= b && -b <= q.position.y && q.position.y <= b
                && -b <= q.movement.leftmost_lateral_position
                && q.movement.leftmost_lateral_position <= b
                && -b <= q.movement.rightmost_lateral_position
                && q.movement.rightmost_lateral_position <= b && 0 <= q.movement.gravity
                && q.movement.gravity <= b) {
                assert(!platform_within(self@.platforms[i as int], b as int));
                return false;
            }
            i = i + 1;
        }
        true
    }

    pub fn key_down_event(&mut self, key: ControlKey, repeated: bool)
        ensures
            final(self)@ == old(self)@.key_pressed(key, repeated),
    {
        match key {
            ControlKey::Jump => {
                if !repeated && self.player_movement.can_jump {
                    self.player_movement.is_jumping = true;
                }
            },
            ControlKey::Left => {
                if !self.game_over {
                    self.player_movement.units_travelled_laterally =
                    -PlayerMovementHandler::PLAYER_UNITS_TRAVELLED;
                    self.player.direction = PlayerDirection::Left;
                }
            },
            ControlKey::Right => {
                if !self.game_over {
                    self.player_movement.units_travelled_laterally =
                    PlayerMovementHandler::PLAYER_UNITS_TRAVELLED;
                    self.player.direction = PlayerDirection::Right;
                }
            },
        }
    }

    pub fn key_up_event(&mut self, key: ControlKey)
        ensures
            final(self)@ == old(self)@.key_released(key),
    {
        match key {
            ControlKey::Jump => {
                self.player_movement.can_jump = false;
            },
            _ => {
                if !self.game_over {
                    self.player_movement.units_travelled_laterally = 0;
                    self.player_movement.running_phase_factor = 0;
                    self.player_movement.distance_travelled_laterally = 0;
                }
            },
        }
    }
}

} // verus!
