use vstd::prelude::*;

use crate::entities::{
    clamp, coord_ok, BoundableEntity, BoundingRectEdges, Physics, Position,
};

verus! {

#[derive(Debug, Clone, Copy, PartialEq, Eq, Structural)]
pub enum PlayerState {
    Idle,
    RunningPhase0,
    RunningPhase1,
    RunningPhase2,
    Jumping,
    Falling,
    Dead,
}

#[derive(Debug, Clone, Copy, PartialEq, Eq, Structural)]
pub enum PlayerDirection {
    Right,
    Left,
}

/// Timers and flags that drive the player's state machine. Durations are in
/// ticks.
#[derive(Debug, Clone, Copy, PartialEq, Eq, Structural)]
pub struct PlayerMovementHandler {
    /// Held direction: -1 (left), 0 or +1 (right).
    pub units_travelled_laterally: i32,
    /// Sum of the held direction over the ticks since the last key release.
    pub distance_travelled_laterally: i64,
    pub running_phase_factor: u32,
    pub can_jump: bool,
    /// Ticks left before a landed player may jump again.
    pub jump_delay: u32,
    pub is_jumping: bool,
    pub is_falling: bool,
}

impl PlayerMovementHandler {
    /// The post-landing cooldown of 0.175 s, rounded up to whole ticks.
    pub const JUMP_DELAY: u32 = 53;

    pub const PLAYER_UNITS_TRAVELLED: i32 = 1;

    /// Lateral distance between two run phases, by score band.
    pub const DEFAULT_FREQUENCY: i64 = 20;

    pub const SNOW_LEVEL_RUNNING_PHASE_CHANGE_FREQUENCY: i64 = 10;

    pub const AUTUMN_LEVEL_RUNNING_PHASE_CHANGE_FREQUENCY: i64 = 40;

    /// Lateral speed multipliers, in quarters: 4 is the plain run speed.
    pub const DEFAULT_SPEED_MULTIPLIER: i32 = 4;

    pub const SNOW_LEVEL_SPEED_MULTIPLIER: i32 = 5;

    pub const AUTUMN_LEVEL_SPEED_MULTIPLIER: i32 = 3;

    pub open spec fn new_spec() -> Self {
        PlayerMovementHandler {
            units_travelled_laterally: 0,
            distance_travelled_laterally: 0,
            jump_delay: Self::JUMP_DELAY,
            running_phase_factor: 0,
            can_jump: true,
            is_jumping: false,
            is_falling: false,
        }
    }

    pub fn new() -> (r: Self)
        ensures
            r == Self::new_spec(),
            r.units_travelled_laterally == 0,
            r.distance_travelled_laterally == 0,
            r.jump_delay == Self::JUMP_DELAY,
            r.running_phase_factor == 0,
            r.can_jump,
            !r.is_jumping,
            !r.is_falling,
    {
        PlayerMovementHandler {
            units_travelled_laterally: 0,
            distance_travelled_laterally: 0,
            jump_delay: Self::JUMP_DELAY,
            running_phase_factor: 0,
            can_jump: true,
            is_jumping: false,
            is_falling: false,
        }
    }
}

#[derive(Debug, Clone, Copy, PartialEq, Eq, Structural)]
pub struct PlayerEntity {
    pub state: PlayerState,
    pub direction: PlayerDirection,
    pub position: Position,
    pub bounding_rect_edges: Option<BoundingRectEdges>,
    pub max_jump_height: i64,
}

/// Vertical displacement of the player in one tick of its own motion.
pub open spec fn vertical_step(state: PlayerState, y: int) -> int {
    match state {
        PlayerState::Jumping => y - Physics::GRAVITY,
        PlayerState::Falling => y + Physics::GRAVITY,
        _ => y,
    }
}

/// Lateral displacement for a speed given in quarters of the run speed,
/// held for a number of ticks.
pub open spec fn run_offset(lateral: int, ticks: int) -> int {
    PlayerEntity::RUN_SPEED_PER_QUARTER * ticks * lateral
}

impl PlayerEntity {
    pub const RIGHT_WINDOW_EDGE_IN_REGARDS_TO_PLAYERMODEL: i64 = 974_000;

    pub const LEFT_WINDOW_EDGE_IN_REGARDS_TO_PLAYERMODEL: i64 = 50_000;

    /// The run speed of 750 px/s is 2.5 px a tick; this is a quarter of it.
    pub const RUN_SPEED_PER_QUARTER: i64 = 625;

    pub const JUMP_AMPLITUDE: i64 = 200_000;

    pub const LEFT_HITBOX_EDGE_OFFSET: i64 = 40_000;

    pub const RIGHT_HITBOX_EDGE_OFFSET: i64 = 40_000;

    pub const TOP_HITBOX_EDGE_OFFSET: i64 = 12_500;

    /// The box that `update_bounding_rect_edges` computes for a position.
    pub open spec fn hitbox(p: Position) -> BoundingRectEdges {
        BoundingRectEdges {
            left: (p.x - Self::LEFT_HITBOX_EDGE_OFFSET) as i64,
            top: (p.y - Self::TOP_HITBOX_EDGE_OFFSET) as i64,
            right: (p.x + Self::RIGHT_HITBOX_EDGE_OFFSET) as i64,
            bottom: p.y,
        }
    }

    pub open spec fn x_after_run(x: int, lateral: int, ticks: int) -> int {
        clamp(
            x + run_offset(lateral, ticks),
            Self::LEFT_WINDOW_EDGE_IN_REGARDS_TO_PLAYERMODEL as int,
            Self::RIGHT_WINDOW_EDGE_IN_REGARDS_TO_PLAYERMODEL as int,
        )
    }

    /// The player after one call of `update`.
    pub open spec fn updated(self, lateral: int, ticks: int) -> PlayerEntity {
        PlayerEntity {
            position: Position {
                x: Self::x_after_run(self.position.x as int, lateral, ticks) as i64,
                y: vertical_step(self.state, self.position.y as int) as i64,
            },
            ..self
        }
    }

    /// The player after a sequence of `update` calls, each given as its
    /// lateral speed and its number of ticks.
    pub open spec fn after_updates(self, inputs: Seq<(i64, u32)>) -> PlayerEntity
        decreases inputs.len(),
    {
        if inputs.len() == 0 {
            self
        } else {
            self.after_updates(inputs.drop_last()).updated(
                inputs.last().0 as int,
                inputs.last().1 as int,
            )
        }
    }

    pub fn new(position: Position) -> (r: Self)
        requires
            coord_ok(position.y as int),
        ensures
            r.state == PlayerState::Idle,
            r.direction == PlayerDirection::Right,
            r.position == position,
            r.bounding_rect_edges.is_none(),
            r.max_jump_height == position.y - Self::JUMP_AMPLITUDE,
    {
        PlayerEntity {
            state: PlayerState::Idle,
            direction: PlayerDirection::Right,
            position,
            bounding_rect_edges: None,
            max_jump_height: position.y - Self::JUMP_AMPLITUDE,
        }
    }

    pub fn change_player_position_along_x_axis(&mut self, lateral: i64, ticks: u32)
        ensures
            final(self).position.x == Self::x_after_run(
                old(self).position.x as int,
                lateral as int,
                ticks as int,
            ),
            final(self).position.y == old(self).position.y,
            final(self).state == old(self).state,
            final(self).direction == old(self).direction,
            final(self).bounding_rect_edges == old(self).bounding_rect_edges,
            final(self).max_jump_height == old(self).max_jump_height,
    {
        let speed: i128 = Self::RUN_SPEED_PER_QUARTER as i128;
        assert(speed == 625);
        let step: i128 = speed * (ticks as i128);
        let l: i128 = lateral as i128;
        proof {
            assert(-100_000_000_000_000_000_000_000_000_000_000 <= step * l
                <= 100_000_000_000_000_000_000_000_000_000_000) by (nonlinear_arith)
                requires
                    0 <= step <= 3_000_000_000_000,
                    -9_223_372_036_854_775_808 <= l <= 9_223_372_036_854_775_808,
            ;
        }
        let offset: i128 = step * l;
        let new_x: i128 = self.position.x as i128 + offset;
        let left = Self::LEFT_WINDOW_EDGE_IN_REGARDS_TO_PLAYERMODEL;
        let right = Self::RIGHT_WINDOW_EDGE_IN_REGARDS_TO_PLAYERMODEL;
        self.position.x = if new_x < left as i128 {
            left
        } else if new_x > right as i128 {
            right
        } else {
            new_x as i64
        };
    }

    fn change_player_position_along_y_axis(&mut self)
        requires
            coord_ok(old(self).position.y as int),
        ensures
            final(self).position.y == vertical_step(old(self).state, old(self).position.y as int),
            final(self).position.x == old(self).position.x,
            final(self).state == old(self).state,
            final(self).direction == old(self).direction,
            final(self).bounding_rect_edges == old(self).bounding_rect_edges,
            final(self).max_jump_height == old(self).max_jump_height,
    {
        match self.state {
            PlayerState::Jumping => self.position.y = self.position.y - Physics::GRAVITY,
            PlayerState::Falling => self.position.y = self.position.y + Physics::GRAVITY,
            _ => {},
        }
    }

    /// Moves the player sideways by `lateral` quarters of the run speed for
    /// `ticks` ticks, clamped to the window, and one tick vertically as its
    /// state dictates.
    pub fn update(&mut self, lateral: i64, ticks: u32)
        requires
            coord_ok(old(self).position.y as int),
        ensures
            final(self).position.x == Self::x_after_run(
                old(self).position.x as int,
                lateral as int,
                ticks as int,
            ),
            final(self).position.y == vertical_step(old(self).state, old(self).position.y as int),
            final(self).state == old(self).state,
            final(self).direction == old(self).direction,
            final(self).bounding_rect_edges == old(self).bounding_rect_edges,
            final(self).max_jump_height == old(self).max_jump_height,
            *final(self) == old(self).updated(lateral as int, ticks as int),
    {
        self.change_player_position_along_x_axis(lateral, ticks);
        self.change_player_position_along_y_axis();
    }

    /// Recomputes the hitbox from the current position.
    pub fn update_bounding_rect_edges(&mut self)
        requires
            coord_ok(old(self).position.x as int),
            coord_ok(old(self).position.y as int),
        ensures
            final(self).bounding_rect_edges == Some(Self::hitbox(old(self).position)),
            final(self).position == old(self).position,
            final(self).state == old(self).state,
            final(self).direction == old(self).direction,
            final(self).max_jump_height == old(self).max_jump_height,
    {
        let left = self.position.x - Self::LEFT_HITBOX_EDGE_OFFSET;
        let top = self.position.y - Self::TOP_HITBOX_EDGE_OFFSET;
        let right = self.position.x + Self::RIGHT_HITBOX_EDGE_OFFSET;
        let bottom = self.position.y;
        self.bounding_rect_edges = Some(BoundingRectEdges::new(left, top, right, bottom));
    }
}

/// Whatever the lateral speeds and durations, a player that starts between
/// the window edges stays between them after any number of updates.
pub proof fn lemma_player_stays_within_window(p: PlayerEntity, inputs: Seq<(i64, u32)>)
    requires
        PlayerEntity::LEFT_WINDOW_EDGE_IN_REGARDS_TO_PLAYERMODEL <= p.position.x
            <= PlayerEntity::RIGHT_WINDOW_EDGE_IN_REGARDS_TO_PLAYERMODEL,
    ensures
        PlayerEntity::LEFT_WINDOW_EDGE_IN_REGARDS_TO_PLAYERMODEL <= p.after_updates(inputs).position.x
            <= PlayerEntity::RIGHT_WINDOW_EDGE_IN_REGARDS_TO_PLAYERMODEL,
    decreases inputs.len(),
{
    if inputs.len() > 0 {
        lemma_player_stays_within_window(p, inputs.drop_last());
    }
}

impl BoundableEntity for PlayerEntity {
    open spec fn bounding_rect_spec(&self) -> BoundingRectEdges {
        match self.bounding_rect_edges {
            None => BoundingRectEdges { left: 0, top: 0, right: 0, bottom: 0 },
            Some(e) => e,
        }
    }

    fn bounding_rect(&self) -> (r: BoundingRectEdges) {
        match self.bounding_rect_edges {
            None => BoundingRectEdges::zero(),
            Some(e) => e,
        }
    }
}

} // verus!
