use vstd::prelude::*;

use crate::entities::{coord_ok, BoundableEntity, BoundingRectEdges, Position, COORD_LIMIT};

verus! {

#[derive(Debug, Clone, Copy, PartialEq, Eq, Structural)]
pub enum PlatformDesign {
    GrassDesign,
    DesertDesign,
    ForestDesign,
    SnowDesign,
    AutumnDesign,
}

#[derive(Debug, Clone, Copy, PartialEq, Eq, Structural)]
pub enum PlatformSize {
    Small,
    Regular,
    Large,
}

#[derive(Debug, Clone, Copy, PartialEq, Eq, Structural)]
pub enum PlatformState {
    Intact,
    Broken,
    Nonexistent,
}

/// Which picture shows a platform.
#[derive(Debug, Clone, Copy, PartialEq, Eq, Structural)]
pub enum PlatformSprite {
    Whole(PlatformDesign, PlatformSize),
    Cracked(PlatformDesign, PlatformSize),
    Transparent(PlatformSize),
}

/// Lateral distance a mobile platform covers in one tick, by design.
pub open spec fn lateral_units_spec(design: PlatformDesign) -> int {
    match design {
        PlatformDesign::GrassDesign => 1000,
        PlatformDesign::DesertDesign => 1100,
        PlatformDesign::ForestDesign => 1200,
        PlatformDesign::SnowDesign => 1300,
        PlatformDesign::AutumnDesign => 1400,
    }
}

pub fn lateral_units_travelled(design: PlatformDesign) -> (r: i64)
    ensures
        r == lateral_units_spec(design),
{
    match design {
        PlatformDesign::GrassDesign => 1000,
        PlatformDesign::DesertDesign => 1100,
        PlatformDesign::ForestDesign => 1200,
        PlatformDesign::SnowDesign => 1300,
        PlatformDesign::AutumnDesign => 1400,
    }
}

/// Contact durations, in ticks, from which a breakable platform of a design
/// is broken: the start is included and the end excluded.
pub open spec fn broken_window_spec(design: PlatformDesign) -> (u32, u32) {
    match design {
        PlatformDesign::GrassDesign => (210, 270),
        PlatformDesign::DesertDesign => (180, 240),
        PlatformDesign::ForestDesign => (150, 210),
        PlatformDesign::SnowDesign => (120, 180),
        PlatformDesign::AutumnDesign => (90, 150),
    }
}

pub fn broken_state_time_range(design: PlatformDesign) -> (r: (u32, u32))
    ensures
        r == broken_window_spec(design),
{
    match design {
        PlatformDesign::GrassDesign => (210, 270),
        PlatformDesign::DesertDesign => (180, 240),
        PlatformDesign::ForestDesign => (150, 210),
        PlatformDesign::SnowDesign => (120, 180),
        PlatformDesign::AutumnDesign => (90, 150),
    }
}

/// Sideways oscillation of a platform between two bounds.
#[derive(Debug, Clone, Copy, PartialEq, Eq, Structural)]
pub struct PlatformHorizontalMovementHandler {
    pub is_mobile: bool,
    pub can_go_left: bool,
    pub leftmost_lateral_position: i64,
    pub can_go_right: bool,
    pub rightmost_lateral_position: i64,
    /// Vertical distance the platform moves on a scroll update.
    pub gravity: i64,
}

impl PlatformHorizontalMovementHandler {
    pub const HORIZONTAL_MOVEMENT_OFFSET: i64 = 141_000;

    pub open spec fn new_spec(position: Position, is_mobile: bool, goes_left_first: bool) -> Self {
        PlatformHorizontalMovementHandler {
            is_mobile,
            can_go_left: is_mobile && goes_left_first,
            leftmost_lateral_position: if is_mobile {
                (position.x - Self::HORIZONTAL_MOVEMENT_OFFSET) as i64
            } else {
                position.x
            },
            can_go_right: is_mobile && !goes_left_first,
            rightmost_lateral_position: if is_mobile {
                (position.x + Self::HORIZONTAL_MOVEMENT_OFFSET) as i64
            } else {
                position.x
            },
            gravity: 0,
        }
    }

    /// A mobile platform oscillates within the offset around its spawn
    /// position and first heads left when `goes_left_first` holds; a
    /// stationary one has both bounds at its position and does not move.
    pub fn new(position: Position, is_mobile: bool, goes_left_first: bool) -> (r: Self)
        requires
            coord_ok(position.x as int),
        ensures
            r == Self::new_spec(position, is_mobile, goes_left_first),
            r.is_mobile == is_mobile,
            r.can_go_left == (is_mobile && goes_left_first),
            r.can_go_right == (is_mobile && !goes_left_first),
            r.leftmost_lateral_position == if is_mobile {
                position.x - Self::HORIZONTAL_MOVEMENT_OFFSET
            } else {
                position.x as int
            },
            r.rightmost_lateral_position == if is_mobile {
                position.x + Self::HORIZONTAL_MOVEMENT_OFFSET
            } else {
                position.x as int
            },
            r.gravity == 0,
    {
        let (can_go_left, can_go_right) = if is_mobile {
            if goes_left_first {
                (true, false)
            } else {
                (false, true)
            }
        } else {
            (false, false)
        };
        let (leftmost_lateral_position, rightmost_lateral_position) = if is_mobile {
            (
                position.x - Self::HORIZONTAL_MOVEMENT_OFFSET,
                position.x + Self::HORIZONTAL_MOVEMENT_OFFSET,
            )
        } else {
            (position.x, position.x)
        };
        PlatformHorizontalMovementHandler {
            is_mobile,
            can_go_left,
            leftmost_lateral_position,
            can_go_right,
            rightmost_lateral_position,
            gravity: 0,
        }
    }
}

/// Spawn bookkeeping of the platform queue. Durations are in ticks.
#[derive(Debug, Clone, Copy, PartialEq, Eq, Structural)]
pub struct PlatformVerticalMovementHandler {
    /// Runs down during scroll updates, which happen only while it is
    /// positive, and restarts once used up.
    pub platform_update_timer: i64,
    /// Height at which the next platform is placed; platforms are spawned
    /// while it is not negative.
    pub distance_till_next_platform: i64,
    /// Score of the next platform to spawn.
    pub score_of_latest_platform: u32,
}

impl PlatformVerticalMovementHandler {
    /// Half a second.
    pub const PLATFORM_UPDATE_DURATION: i64 = 150;

    pub const MAX_PLAYER_HEIGHT_FOR_PLATFORM_UPDATE: i64 = 641_000;

    pub const DEFAULT_GRAVITY_MULTIPLIER: i64 = 2;

    /// Height of the first platform: 84 px above the bottom of the window.
    pub const FIRST_PLATFORM_HEIGHT: i64 = 840_000;

    pub fn new() -> (r: Self)
        ensures
            r.platform_update_timer == Self::PLATFORM_UPDATE_DURATION,
            r.distance_till_next_platform == Self::FIRST_PLATFORM_HEIGHT,
            r.score_of_latest_platform == 0,
    {
        PlatformVerticalMovementHandler {
            platform_update_timer: Self::PLATFORM_UPDATE_DURATION,
            distance_till_next_platform: Self::FIRST_PLATFORM_HEIGHT,
            score_of_latest_platform: 0,
        }
    }
}

#[derive(Debug, Clone, Copy, PartialEq, Eq, Structural)]
pub struct PlatformScoreHandler {
    pub score: u32,
    pub score_has_been_collected: bool,
}

impl PlatformScoreHandler {
    pub const POINTS: u32 = 100;

    pub fn new(score: u32) -> (r: Self)
        ensures
            r.score == score,
            !r.score_has_been_collected,
    {
        PlatformScoreHandler { score, score_has_been_collected: false }
    }
}

/// Contact between the player and a platform.
#[derive(Debug, Clone, Copy, PartialEq, Eq, Structural)]
pub struct PtoPInteractionHandler {
    pub player_is_on_platform: bool,
    /// Ticks of contact; the count stops at `u32::MAX`.
    pub time_spent_on_platform: u32,
}

impl PtoPInteractionHandler {
    pub fn new() -> (r: Self)
        ensures
            !r.player_is_on_platform,
            r.time_spent_on_platform == 0,
    {
        PtoPInteractionHandler { player_is_on_platform: false, time_spent_on_platform: 0 }
    }
}

#[derive(Debug, Clone, Copy, PartialEq, Eq, Structural)]
pub struct PlatformEntity {
    pub design: PlatformDesign,
    pub size: PlatformSize,
    pub state: PlatformState,
    pub position: Position,
    pub bounding_rect_edges: Option<BoundingRectEdges>,
    pub movement: PlatformHorizontalMovementHandler,
    pub scoring: PlatformScoreHandler,
    pub interaction: PtoPInteractionHandler,
}

impl PlatformEntity {
    pub const VERTICAL_PLATFORM_OFFSET: i64 = 206_000;

    pub const LEFT_HITBOX_EDGE_OFFSET: i64 = 7_500;

    pub const RIGHT_HITBOX_EDGE_OFFSET: i64 = 7_500;

    /// The platform after one tick of sideways oscillation: where one more
    /// step would take it past the bound ahead, it turns round without
    /// moving, else it moves one step its way.
    pub open spec fn oscillated(self) -> PlatformEntity {
        let m = self.movement;
        let x = self.position.x;
        let speed = lateral_units_spec(self.design);
        if m.can_go_right {
            if x + speed > m.rightmost_lateral_position {
                PlatformEntity {
                    movement: PlatformHorizontalMovementHandler {
                        can_go_right: false,
                        can_go_left: true,
                        ..m
                    },
                    ..self
                }
            } else {
                PlatformEntity { position: Position { x: (x + speed) as i64, ..self.position }, ..self }
            }
        } else if m.can_go_left {
            if x - speed < m.leftmost_lateral_position {
                PlatformEntity {
                    movement: PlatformHorizontalMovementHandler {
                        can_go_left: false,
                        can_go_right: true,
                        ..m
                    },
                    ..self
                }
            } else {
                PlatformEntity { position: Position { x: (x - speed) as i64, ..self.position }, ..self }
            }
        } else {
            self
        }
    }

    /// The platform after one update: a mobile one oscillates while the
    /// player is not jumping; while the player jumps it moves down by its
    /// gravity.
    pub open spec fn updated(self, player_is_in_jumping_state: bool) -> PlatformEntity {
        if player_is_in_jumping_state {
            PlatformEntity {
                position: Position {
                    y: (self.position.y + self.movement.gravity) as i64,
                    ..self.position
                },
                ..self
            }
        } else if self.movement.is_mobile {
            self.oscillated()
        } else {
            self
        }
    }

    /// The picture that shows the platform: a large platform never breaks,
    /// and a vanished one is transparent.
    pub open spec fn sprite_spec(self) -> PlatformSprite {
        match self.size {
            PlatformSize::Large => PlatformSprite::Whole(self.design, PlatformSize::Large),
            _ => match self.state {
                PlatformState::Intact => PlatformSprite::Whole(self.design, self.size),
                PlatformState::Broken => PlatformSprite::Cracked(self.design, self.size),
                PlatformState::Nonexistent => PlatformSprite::Transparent(self.size),
            },
        }
    }

    pub open spec fn new_spec(
        design: PlatformDesign,
        size: PlatformSize,
        position: Position,
        score: u32,
        is_mobile: bool,
        goes_left_first: bool,
    ) -> PlatformEntity {
        PlatformEntity {
            design,
            size,
            state: PlatformState::Intact,
            position,
            bounding_rect_edges: None,
            movement: PlatformHorizontalMovementHandler::new_spec(position, is_mobile, goes_left_first),
            scoring: PlatformScoreHandler { score, score_has_been_collected: false },
            interaction: PtoPInteractionHandler {
                player_is_on_platform: false,
                time_spent_on_platform: 0,
            },
        }
    }

    /// The platform after a sequence of `update` calls, each given as
    /// whether the player was jumping.
    pub open spec fn after_updates(self, jumping: Seq<bool>) -> PlatformEntity
        decreases jumping.len(),
    {
        if jumping.len() == 0 {
            self
        } else {
            self.after_updates(jumping.drop_last()).updated(jumping.last())
        }
    }

    pub fn new(
        design: PlatformDesign,
        size: PlatformSize,
        position: Position,
        score: u32,
        is_mobile: bool,
        goes_left_first: bool,
    ) -> (r: Self)
        requires
            coord_ok(position.x as int),
        ensures
            r == Self::new_spec(design, size, position, score, is_mobile, goes_left_first),
            r.design == design,
            r.size == size,
            r.state == PlatformState::Intact,
            r.position == position,
            r.bounding_rect_edges.is_none(),
            r.movement == PlatformHorizontalMovementHandler::new_spec(position, is_mobile, goes_left_first),
            r.scoring == (PlatformScoreHandler { score, score_has_been_collected: false }),
            r.interaction == (PtoPInteractionHandler {
                player_is_on_platform: false,
                time_spent_on_platform: 0,
            }),
    {
        PlatformEntity {
            design,
            size,
            state: PlatformState::Intact,
            position,
            bounding_rect_edges: None,
            movement: PlatformHorizontalMovementHandler::new(position, is_mobile, goes_left_first),
            scoring: PlatformScoreHandler::new(score),
            interaction: PtoPInteractionHandler::new(),
        }
    }

    fn move_right(&mut self)
        requires
            coord_ok(old(self).position.x as int),
        ensures
            *final(self) == (PlatformEntity {
                position: Position {
                    x: (old(self).position.x + lateral_units_spec(old(self).design)) as i64,
                    ..old(self).position
                },
                ..*old(self)
            }),
    {
        self.position.x = self.position.x + lateral_units_travelled(self.design);
    }

    fn move_left(&mut self)
        requires
            coord_ok(old(self).position.x as int),
        ensures
            *final(self) == (PlatformEntity {
                position: Position {
                    x: (old(self).position.x - lateral_units_spec(old(self).design)) as i64,
                    ..old(self).position
                },
                ..*old(self)
            }),
    {
        self.position.x = self.position.x - lateral_units_travelled(self.design);
    }

    fn move_right_to_left(&mut self)
        requires
            coord_ok(old(self).position.x as int),
        ensures
            *final(self) == old(self).oscillated(),
    {
        let speed = lateral_units_travelled(self.design);
        if self.movement.can_go_right {
            if self.position.x + speed > self.movement.rightmost_lateral_position {
                self.movement.can_go_right = false;
                self.movement.can_go_left = true;
            } else {
                self.move_right();
            }
        } else if self.movement.can_go_left {
            if self.position.x - speed < self.movement.leftmost_lateral_position {
                self.movement.can_go_left = false;
                self.movement.can_go_right = true;
            } else {
                self.move_left();
            }
        }
    }

    fn change_platform_position_along_x_axis(&mut self, player_is_in_jumping_state: bool)
        requires
            coord_ok(old(self).position.x as int),
        ensures
            *final(self) == if !player_is_in_jumping_state && old(self).movement.is_mobile {
                old(self).oscillated()
            } else {
                *old(self)
            },
    {
        if !player_is_in_jumping_state {
            if self.movement.is_mobile {
                self.move_right_to_left();
            }
        }
    }

    fn change_platform_position_along_y_axis(&mut self, player_is_in_jumping_state: bool)
        requires
            coord_ok(old(self).position.y as int),
            coord_ok(old(self).movement.gravity as int),
        ensures
            *final(self) == if player_is_in_jumping_state {
                old(self).updated(true)
            } else {
                *old(self)
            },
    {
        if player_is_in_jumping_state {
            self.position.y = self.position.y + self.movement.gravity;
        }
    }

    pub fn update(&mut self, player_is_in_jumping_state: bool)
        requires
            coord_ok(old(self).position.x as int),
            coord_ok(old(self).position.y as int),
            coord_ok(old(self).movement.gravity as int),
        ensures
            *final(self) == old(self).updated(player_is_in_jumping_state),
    {
        self.change_platform_position_along_x_axis(player_is_in_jumping_state);
        self.change_platform_position_along_y_axis(player_is_in_jumping_state);
    }

    /// The box of a platform whose picture is `image_width` wide.
    pub open spec fn hitbox(p: Position, image_width: int) -> BoundingRectEdges {
        BoundingRectEdges {
            left: (p.x + Self::LEFT_HITBOX_EDGE_OFFSET) as i64,
            top: p.y,
            right: (p.x + image_width - Self::RIGHT_HITBOX_EDGE_OFFSET) as i64,
            bottom: p.y,
        }
    }

    /// Recomputes the hitbox from the current position and the width of the
    /// picture that shows the platform.
    pub fn update_bounding_rect_edges(&mut self, image_width: i64)
        requires
            coord_ok(old(self).position.x as int),
            0 <= image_width <= COORD_LIMIT,
        ensures
            *final(self) == (PlatformEntity {
                bounding_rect_edges: Some(Self::hitbox(old(self).position, image_width as int)),
                ..*old(self)
            }),
    {
        let left = self.position.x + Self::LEFT_HITBOX_EDGE_OFFSET;
        let top = self.position.y;
        let right = self.position.x + image_width - Self::RIGHT_HITBOX_EDGE_OFFSET;
        let bottom = self.position.y;
        self.bounding_rect_edges = Some(BoundingRectEdges::new(left, top, right, bottom));
    }

    pub fn sprite(&self) -> (r: PlatformSprite)
        ensures
            r == self.sprite_spec(),
    {
        match self.size {
            PlatformSize::Large => PlatformSprite::Whole(self.design, PlatformSize::Large),
            _ => match self.state {
                PlatformState::Intact => PlatformSprite::Whole(self.design, self.size),
                PlatformState::Broken => PlatformSprite::Cracked(self.design, self.size),
                PlatformState::Nonexistent => PlatformSprite::Transparent(self.size),
            },
        }
    }
}

/// Updates keep a platform's design, mobility and oscillation bounds, and a
/// mobile platform between its bounds stays there.
pub proof fn lemma_oscillation_bounded(p: PlatformEntity, jumping: Seq<bool>)
    requires
        p.movement.is_mobile,
        -COORD_LIMIT <= p.movement.leftmost_lateral_position,
        p.movement.rightmost_lateral_position <= COORD_LIMIT,
        p.movement.leftmost_lateral_position <= p.position.x
            <= p.movement.rightmost_lateral_position,
    ensures
        ({
            let q = p.after_updates(jumping);
            &&& q.design == p.design
            &&& q.movement.is_mobile
            &&& q.movement.leftmost_lateral_position == p.movement.leftmost_lateral_position
            &&& q.movement.rightmost_lateral_position == p.movement.rightmost_lateral_position
            &&& p.movement.leftmost_lateral_position <= q.position.x
                <= p.movement.rightmost_lateral_position
        }),
    decreases jumping.len(),
{
    if jumping.len() > 0 {
        lemma_oscillation_bounded(p, jumping.drop_last());
    }
}

/// A mobile platform never strays from its spawn position by more than the
/// oscillation offset, however many updates it goes through.
pub proof fn lemma_mobile_platform_stays_near_spawn(
    design: PlatformDesign,
    size: PlatformSize,
    position: Position,
    score: u32,
    goes_left_first: bool,
    jumping: Seq<bool>,
)
    requires
        -COORD_LIMIT + 200_000 <= position.x <= COORD_LIMIT - 200_000,
    ensures
        ({
            let q = PlatformEntity::new_spec(
                design,
                size,
                position,
                score,
                true,
                goes_left_first,
            ).after_updates(jumping);
            let reach = PlatformHorizontalMovementHandler::HORIZONTAL_MOVEMENT_OFFSET;
            position.x - reach <= q.position.x <= position.x + reach
        }),
{
    let p = PlatformEntity::new_spec(design, size, position, score, true, goes_left_first);
    lemma_oscillation_bounded(p, jumping);
}

impl BoundableEntity for PlatformEntity {
    open spec fn bounding_rect_spec(&self) -> BoundingRectEdges {
        match self.bounding_rect_edges {
            None => BoundingRectEdges { left: 0, top: 0, right: 0, bottom: 0 },
            Some(e) => e,
        }
    }

    fn bounding_rect(&self) -> (r: BoundingRectEdges) {
        match self.bounding_rect_edges {
            None => BoundingRectEdges::zero(),
            Some(e) => e,
        }
    }
}

} // verus!
