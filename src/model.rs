use vstd::prelude::*;

use crate::entities::{
    clamp, BoundableEntity, Physics, Position, WindowMeasurements, COORD_LIMIT, TICK_LIMIT,
};
use crate::mainstate::{ControlKey, MainState, SpawnDraw};
use crate::platform::{
    broken_window_spec, lateral_units_spec, PlatformDesign, PlatformEntity,
    PlatformHorizontalMovementHandler, PlatformScoreHandler, PlatformSize, PlatformState,
    PlatformVerticalMovementHandler, PtoPInteractionHandler,
};
use crate::player::{
    PlayerDirection, PlayerEntity, PlayerMovementHandler, PlayerState,
};

verus! {

/// The simulation as a mathematical value: the platform queue is a sequence.
pub ghost struct MainStateView {
    pub player: PlayerEntity,
    pub player_movement: PlayerMovementHandler,
    pub platforms: Seq<PlatformEntity>,
    pub platforms_movement: PlatformVerticalMovementHandler,
    pub score: u32,
    pub game_over: bool,
    pub debug_mode: bool,
}

/// Score bands: each design covers a thousand points, the last one open.
pub open spec fn design_for_score(score: u32) -> PlatformDesign {
    if score <= 900 {
        PlatformDesign::GrassDesign
    } else if 1000 <= score <= 1900 {
        PlatformDesign::DesertDesign
    } else if 2000 <= score <= 2900 {
        PlatformDesign::ForestDesign
    } else if 3000 <= score <= 3900 {
        PlatformDesign::SnowDesign
    } else {
        PlatformDesign::AutumnDesign
    }
}

/// The second half of each band spawns mobile platforms.
pub open spec fn mobile_for_score(score: u32) -> bool {
    ||| 400 <= score <= 900
    ||| 1400 <= score <= 1900
    ||| 2400 <= score <= 2900
    ||| 3400 <= score <= 3900
    ||| 4400 <= score
}

/// The score that opens a band spawns a large platform.
pub open spec fn opens_band(score: u32) -> bool {
    score == 0 || score == 1000 || score == 2000 || score == 3000 || score == 4000
}

/// Range of the horizontal spawn position, by mobility.
pub open spec fn spawn_range(mobile: bool) -> (i64, i64) {
    if mobile {
        (MainState::HORIZONTAL_MOBILE_PLATFORM_MIN, MainState::HORIZONTAL_MOBILE_PLATFORM_MAX)
    } else {
        (
            MainState::HORIZONTAL_STATIONARY_PLATFORM_MIN,
            MainState::HORIZONTAL_STATIONARY_PLATFORM_MAX,
        )
    }
}

/// Lateral speed of the player, in quarters of the run speed, by score.
pub open spec fn speed_multiplier(score: u32) -> int {
    if 3000 <= score <= 3900 {
        PlayerMovementHandler::SNOW_LEVEL_SPEED_MULTIPLIER as int
    } else if 4000 <= score {
        PlayerMovementHandler::AUTUMN_LEVEL_SPEED_MULTIPLIER as int
    } else {
        PlayerMovementHandler::DEFAULT_SPEED_MULTIPLIER as int
    }
}

/// Lateral distance between two run phases, by score.
pub open spec fn phase_frequency(score: u32) -> int {
    if 3000 <= score <= 3900 {
        PlayerMovementHandler::SNOW_LEVEL_RUNNING_PHASE_CHANGE_FREQUENCY as int
    } else if 4000 <= score {
        PlayerMovementHandler::AUTUMN_LEVEL_RUNNING_PHASE_CHANGE_FREQUENCY as int
    } else {
        PlayerMovementHandler::DEFAULT_FREQUENCY as int
    }
}

pub open spec fn platform_within(p: PlatformEntity, b: int) -> bool {
    &&& -b <= p.position.x <= b
    &&& -b <= p.position.y <= b
    &&& -b <= p.movement.leftmost_lateral_position <= b
    &&& -b <= p.movement.rightmost_lateral_position <= b
    &&& 0 <= p.movement.gravity <= b
}

pub open spec fn saturating_inc(v: u32) -> u32 {
    if v < u32::MAX {
        (v + 1) as u32
    } else {
        v
    }
}

pub open spec fn run_phase_state(f: u32) -> PlayerState {
    if f == 0 {
        PlayerState::Idle
    } else if f == 1 {
        PlayerState::RunningPhase0
    } else if f == 2 {
        PlayerState::RunningPhase1
    } else {
        PlayerState::RunningPhase2
    }
}

pub open spec fn scroll_gravity_set(p: PlatformEntity) -> PlatformEntity {
    PlatformEntity {
        movement: PlatformHorizontalMovementHandler {
            gravity: (Physics::GRAVITY * PlatformVerticalMovementHandler::DEFAULT_GRAVITY_MULTIPLIER) as i64,
            ..p.movement
        },
        ..p
    }
}

/// A platform that supports the player adds the elapsed time to its contact
/// time, which stops at `u32::MAX`.
pub open spec fn contact_extended(p: PlatformEntity, ticks: u32) -> PlatformEntity {
    if p.interaction.player_is_on_platform {
        PlatformEntity {
            interaction: PtoPInteractionHandler {
                time_spent_on_platform: if p.interaction.time_spent_on_platform + ticks <= u32::MAX {
                    (p.interaction.time_spent_on_platform + ticks) as u32
                } else {
                    u32::MAX
                },
                ..p.interaction
            },
            ..p
        }
    } else {
        p
    }
}

impl MainStateView {

    /// Every coordinate, timer and counter lies within `b`, the held
    /// direction is -1, 0 or +1, and the queue holds at most `b` platforms.
    pub open spec fn within(self, b: int) -> bool {
        &&& -b <= self.player.position.x <= b
        &&& -b <= self.player.position.y <= b
        &&& -b <= self.player.max_jump_height <= b
        &&& -1 <= self.player_movement.units_travelled_laterally <= 1
        &&& -b <= self.player_movement.distance_travelled_laterally <= b
        &&& -b <= self.platforms_movement.distance_till_next_platform <= b
        &&& -b <= self.platforms_movement.platform_update_timer <= b
        &&& self.platforms.len() <= b
        &&& forall|j: int| 0 <= j < self.platforms.len() ==> platform_within(#[trigger] self.platforms[j], b)
    }

    /// Whether the state lies within the bounds that `tick_with` accepts.
    pub open spec fn ready_for_tick(self) -> bool {
        &&& self.within(TICK_LIMIT as int)
        &&& self.platforms_movement.score_of_latest_platform <= u32::MAX
            - PlatformScoreHandler::POINTS
    }

    pub open spec fn death_checked(self) -> MainStateView {
        if self.player.state == PlayerState::Dead && !self.debug_mode {
            MainStateView { game_over: true, ..self }
        } else {
            self
        }
    }

    /// One tick of the player's sideways run, at the lateral speed of the
    /// current score band; the vertical motion is the jump stage's.
    pub open spec fn player_moved(self) -> MainStateView {
        let pl = self.player;
        let lateral = self.player_movement.units_travelled_laterally * speed_multiplier(self.score);
        MainStateView {
            player: PlayerEntity {
                position: Position {
                    x: PlayerEntity::x_after_run(pl.position.x as int, lateral, 1) as i64,
                    ..pl.position
                },
                ..pl
            },
            ..self
        }
    }

    /// The run animation: the lateral distance grows by the held direction,
    /// the phase advances each time it passes one more than a multiple of the
    /// band's frequency, and a grounded player shows the phase, wrapping from
    /// the last back to the first.
    pub open spec fn running_phase_updated(self) -> MainStateView {
        let m = self.player_movement;
        let d = m.distance_travelled_laterally + m.units_travelled_laterally;
        let magnitude = if d < 0 {
            -d
        } else {
            d
        };
        let f = if magnitude % phase_frequency(self.score) == 1 {
            saturating_inc(m.running_phase_factor)
        } else {
            m.running_phase_factor
        };
        let moved = PlayerMovementHandler {
            distance_travelled_laterally: d as i64,
            running_phase_factor: f,
            ..m
        };
        let st = self.player.state;
        if st == PlayerState::Jumping || st == PlayerState::Falling || st == PlayerState::Dead {
            MainStateView { player_movement: moved, ..self }
        } else if f <= 3 {
            MainStateView {
                player_movement: moved,
                player: PlayerEntity { state: run_phase_state(f), ..self.player },
                ..self
            }
        } else {
            MainStateView {
                player_movement: PlayerMovementHandler { running_phase_factor: 1, ..moved },
                player: PlayerEntity { state: PlayerState::RunningPhase0, ..self.player },
                ..self
            }
        }
    }

    /// The jump and fall timers: the cooldown runs down; a jump rises by one
    /// gravity step while that step does not pass the apex, and then turns
    /// into a fall; a fall goes on while the player
    /// is not below the window, and below it the player dies unless debug
    /// mode is on.
    pub open spec fn jump_motion_updated(self, ticks: u32) -> MainStateView {
        let m = self.player_movement;
        let pl = self.player;
        let m1 = PlayerMovementHandler {
            jump_delay: if m.jump_delay > ticks {
                (m.jump_delay - ticks) as u32
            } else {
                0
            },
            ..m
        };
        if m.is_jumping {
            if pl.position.y - Physics::GRAVITY >= pl.max_jump_height {
                MainStateView {
                    player: PlayerEntity {
                        state: PlayerState::Jumping,
                        position: Position {
                            y: (pl.position.y - Physics::GRAVITY) as i64,
                            ..pl.position
                        },
                        ..pl
                    },
                    player_movement: m1,
                    ..self
                }
            } else {
                MainStateView {
                    player: PlayerEntity { state: PlayerState::Falling, ..pl },
                    player_movement: PlayerMovementHandler {
                        is_jumping: false,
                        is_falling: true,
                        ..m1
                    },
                    ..self
                }
            }
        } else if m.is_falling {
            if pl.position.y <= WindowMeasurements::WINDOW_HEIGHT {
                MainStateView {
                    player: PlayerEntity {
                        position: Position {
                            y: (pl.position.y + Physics::GRAVITY) as i64,
                            ..pl.position
                        },
                        ..pl
                    },
                    player_movement: m1,
                    ..self
                }
            } else if self.debug_mode {
                MainStateView { player_movement: m1, ..self }
            } else {
                MainStateView {
                    player: PlayerEntity { state: PlayerState::Dead, ..pl },
                    player_movement: PlayerMovementHandler { is_falling: false, ..m1 },
                    ..self
                }
            }
        } else {
            MainStateView { player_movement: m1, ..self }
        }
    }

    pub open spec fn platforms_updated(self, jumping: bool) -> MainStateView {
        MainStateView {
            platforms: self.platforms.map_values(|p: PlatformEntity| p.updated(jumping)),
            ..self
        }
    }

    pub open spec fn interactions_cleared(self) -> MainStateView {
        MainStateView {
            platforms: self.platforms.map_values(
                |p: PlatformEntity|
                    PlatformEntity {
                        interaction: PtoPInteractionHandler {
                            player_is_on_platform: false,
                            ..p.interaction
                        },
                        ..p
                    },
            ),
            ..self
        }
    }

    /// The scroll: every platform moves down by twice the gravity, and the
    /// update timer runs down by one tick.
    pub open spec fn readjusted(self) -> MainStateView {
        let pm = self.platforms_movement;
        MainStateView {
            platforms: self.platforms.map_values(
                |p: PlatformEntity| scroll_gravity_set(p).updated(true),
            ),
            platforms_movement: PlatformVerticalMovementHandler {
                platform_update_timer: (pm.platform_update_timer - 1) as i64,
                ..pm
            },
            ..self
        }
    }

    /// Once the spawn height is used up, it restarts one spacing above the
    /// newest platform.
    pub open spec fn spawn_height_updated(self) -> MainStateView {
        let pm = self.platforms_movement;
        if pm.distance_till_next_platform <= 0 && self.platforms.len() > 0 {
            MainStateView {
                platforms_movement: PlatformVerticalMovementHandler {
                    distance_till_next_platform: (self.platforms.last().position.y
                        - PlatformEntity::VERTICAL_PLATFORM_OFFSET) as i64,
                    ..pm
                },
                ..self
            }
        } else {
            self
        }
    }

    pub open spec fn timer_reset(self) -> MainStateView {
        let pm = self.platforms_movement;
        if pm.platform_update_timer <= 0 {
            MainStateView {
                platforms_movement: PlatformVerticalMovementHandler {
                    platform_update_timer: PlatformVerticalMovementHandler::PLATFORM_UPDATE_DURATION,
                    ..pm
                },
                ..self
            }
        } else {
            self
        }
    }

    pub open spec fn contact_timed(self, ticks: u32) -> MainStateView {
        MainStateView {
            platforms: self.platforms.map_values(|p: PlatformEntity| contact_extended(p, ticks)),
            ..self
        }
    }

    /// The oldest platform leaves once it reaches the bottom of the window.
    pub open spec fn dropped_out_of_reach(self) -> MainStateView {
        if self.platforms.len() > 0 && self.platforms[0].position.y
            >= WindowMeasurements::WINDOW_HEIGHT {
            MainStateView { platforms: self.platforms.drop_first(), ..self }
        } else {
            self
        }
    }

    pub open spec fn is_first_vanished(self, i: int) -> bool {
        &&& 0 <= i < self.platforms.len()
        &&& self.platforms[i].state == PlatformState::Nonexistent
        &&& forall|j: int| 0 <= j < i ==> self.platforms[j].state != PlatformState::Nonexistent
    }

    /// The first vanished platform in queue order, if any, leaves.
    pub open spec fn dropped_broken(self) -> MainStateView {
        if exists|i: int| self.is_first_vanished(i) {
            MainStateView {
                platforms: self.platforms.remove(choose|i: int| self.is_first_vanished(i)),
                ..self
            }
        } else {
            self
        }
    }

    /// The platform stage of a tick, after the player has moved.
    pub open spec fn platforms_advanced(self) -> MainStateView {
        let s = self.platforms_updated(false);
        if s.player.state == PlayerState::Jumping {
            let c = s.interactions_cleared();
            if c.platforms_movement.platform_update_timer > 0 && c.player.position.y
                < PlatformVerticalMovementHandler::MAX_PLAYER_HEIGHT_FOR_PLATFORM_UPDATE {
                c.readjusted().spawn_height_updated().timer_reset()
            } else {
                c
            }
        } else {
            let c = if s.player.state == PlayerState::Falling {
                s.interactions_cleared()
            } else {
                s
            };
            c.contact_timed(1)
        }
    }

    pub open spec fn spawn_checked(self, d: SpawnDraw) -> MainStateView {
        if self.platforms_movement.distance_till_next_platform >= 0 {
            self.spawned(d)
        } else {
            self
        }
    }

    /// The player stage of a tick: the player's run, run animation and jump
    /// timers.
    pub open spec fn player_advanced(self) -> MainStateView {
        self.player_moved().running_phase_updated().jump_motion_updated(1)
    }

    /// The last stage of a tick: a spawn if the spawn height allows it, the
    /// release of the previous tick's support marks, the collision pass, and
    /// the removal of platforms out of reach or vanished.
    pub open spec fn settled(self, d: SpawnDraw) -> MainStateView {
        self.spawn_checked(d).interactions_cleared().collided().dropped_out_of_reach().dropped_broken()
    }

    /// One fixed step of the simulation; a finished game stays as it is,
    /// and a dead player ends the game, unless debug mode is on.
    pub open spec fn ticked(self, d: SpawnDraw) -> MainStateView {
        if self.game_over {
            self
        } else if self.player.state == PlayerState::Dead && !self.debug_mode {
            self.death_checked()
        } else {
            self.player_advanced().platforms_advanced().settled(d)
        }
    }

    /// The state after one tick for each of the draws, in order.
    pub open spec fn after_ticks(self, draws: Seq<SpawnDraw>) -> MainStateView
        decreases draws.len(),
    {
        if draws.len() == 0 {
            self
        } else {
            self.after_ticks(draws.drop_last()).ticked(draws.last())
        }
    }

    /// Whether the box of the platform at `i` meets the player's box.
    pub open spec fn overlaps_player(self, i: int) -> bool {
        self.platforms[i].bounding_rect_spec().overlaps_spec(self.player.bounding_rect_spec())
    }

    /// `i` is the first platform in queue order that meets the player.
    pub open spec fn is_first_overlap(self, i: int) -> bool {
        &&& 0 <= i < self.platforms.len()
        &&& self.overlaps_player(i)
        &&& forall|j: int| 0 <= j < i ==> !self.overlaps_player(j)
    }

    pub open spec fn no_overlap(self) -> bool {
        forall|j: int| 0 <= j < self.platforms.len() ==> !self.overlaps_player(j)
    }

    /// The player after being carried one step by the platform it rests on,
    /// kept between the window edges.
    pub open spec fn carried_x(x: int, p: PlatformEntity) -> int {
        let moved = if p.movement.is_mobile && p.movement.can_go_right {
            x + lateral_units_spec(p.design)
        } else if p.movement.is_mobile && p.movement.can_go_left {
            x - lateral_units_spec(p.design)
        } else {
            x
        };
        clamp(
            moved,
            PlayerEntity::LEFT_WINDOW_EDGE_IN_REGARDS_TO_PLAYERMODEL as int,
            PlayerEntity::RIGHT_WINDOW_EDGE_IN_REGARDS_TO_PLAYERMODEL as int,
        )
    }

    /// The state of a platform after a tick of contact: a breakable one is
    /// broken while the contact time lies in its design's window, and
    /// vanishes once broken and out of it.
    pub open spec fn worn_state(p: PlatformEntity) -> PlatformState {
        let window = broken_window_spec(p.design);
        let t = p.interaction.time_spent_on_platform;
        if p.size == PlatformSize::Large {
            p.state
        } else if window.0 <= t < window.1 {
            PlatformState::Broken
        } else if p.state == PlatformState::Broken {
            PlatformState::Nonexistent
        } else {
            p.state
        }
    }

    /// Resolution of the player resting on the platform at `i`. A falling
    /// player lands (and may jump again once the cooldown has run out);
    /// the apex of the next jump is taken from the resting height; the
    /// platform's score becomes the player's the first time; a mobile
    /// platform carries the player one step its way; a breakable one wears.
    /// Falling back onto a large platform worth less than the score while
    /// fewer than five platforms are left puts the player behind its own
    /// progress, which ends the game unless debug mode is on.
    pub open spec fn landed(self, i: int) -> MainStateView {
        let p = self.platforms[i];
        let pl = self.player;
        let m = self.player_movement;
        let falling = pl.state == PlayerState::Falling;
        let backwards = falling && p.size == PlatformSize::Large && p.scoring.score < self.score
            && self.platforms.len() < 5 && !self.debug_mode;
        let delay = if falling {
            PlayerMovementHandler::JUMP_DELAY
        } else {
            m.jump_delay
        };
        let collect = !p.scoring.score_has_been_collected;
        let landed_on = PlatformEntity {
            state: Self::worn_state(p),
            scoring: PlatformScoreHandler { score_has_been_collected: true, ..p.scoring },
            interaction: PtoPInteractionHandler { player_is_on_platform: true, ..p.interaction },
            ..p
        };
        MainStateView {
            player: PlayerEntity {
                state: if falling {
                    PlayerState::Idle
                } else {
                    pl.state
                },
                position: Position {
                    x: Self::carried_x(pl.position.x as int, p) as i64,
                    ..pl.position
                },
                max_jump_height: (pl.position.y - PlayerEntity::JUMP_AMPLITUDE) as i64,
                ..pl
            },
            player_movement: PlayerMovementHandler {
                jump_delay: delay,
                is_jumping: false,
                is_falling: false,
                can_jump: if delay == 0 {
                    true
                } else {
                    m.can_jump
                },
                ..m
            },
            platforms: self.platforms.update(i, landed_on),
            score: if collect {
                p.scoring.score
            } else {
                self.score
            },
            game_over: self.game_over || backwards,
            ..self
        }
    }

    /// Resolution when no platform meets the player: it falls while above
    /// the floor line, and at the floor it dies, unless debug mode holds it
    /// there.
    pub open spec fn unsupported(self) -> MainStateView {
        let pl = self.player;
        let m = self.player_movement;
        let floor = WindowMeasurements::WINDOW_HEIGHT - MainState::DEAD_PLAYER_IMAGE_OFFSET;
        if pl.position.y < floor {
            MainStateView {
                player: PlayerEntity { state: PlayerState::Falling, ..pl },
                player_movement: PlayerMovementHandler {
                    is_jumping: false,
                    is_falling: true,
                    can_jump: false,
                    ..m
                },
                ..self
            }
        } else if self.debug_mode {
            MainStateView {
                player: PlayerEntity {
                    state: if pl.state == PlayerState::Falling {
                        PlayerState::Idle
                    } else {
                        pl.state
                    },
                    position: Position { y: floor as i64, ..pl.position },
                    ..pl
                },
                player_movement: PlayerMovementHandler {
                    is_falling: false,
                    can_jump: true,
                    ..m
                },
                ..self
            }
        } else {
            MainStateView {
                player: PlayerEntity { state: PlayerState::Dead, ..pl },
                player_movement: PlayerMovementHandler { is_falling: false, ..m },
                ..self
            }
        }
    }

    /// One collision pass: nothing happens to a jumping player; a player
    /// below the window is not supported; otherwise the first platform in
    /// queue order that meets the player supports it.
    pub open spec fn collided(self) -> MainStateView {
        if self.player.state == PlayerState::Jumping {
            self
        } else if self.no_overlap() || self.player.position.y > WindowMeasurements::WINDOW_HEIGHT {
            self.unsupported()
        } else {
            self.landed(choose|i: int| self.is_first_overlap(i))
        }
    }
    /// The platform that the spawn policy adds next, for the given draws.
    pub open spec fn next_platform(self, d: SpawnDraw) -> PlatformEntity {
        let sc = self.platforms_movement.score_of_latest_platform;
        let position = if sc == 0 {
            Position { x: 0, y: PlatformVerticalMovementHandler::FIRST_PLATFORM_HEIGHT }
        } else if opens_band(sc) {
            Position { x: 0, y: self.platforms_movement.distance_till_next_platform }
        } else {
            Position { x: d.x, y: self.platforms_movement.distance_till_next_platform }
        };
        let size = if opens_band(sc) {
            PlatformSize::Large
        } else if d.small {
            PlatformSize::Small
        } else {
            PlatformSize::Regular
        };
        let mobile = mobile_for_score(sc);
        PlatformEntity {
            design: design_for_score(sc),
            size,
            state: PlatformState::Intact,
            position,
            bounding_rect_edges: None,
            movement: PlatformHorizontalMovementHandler::new_spec(
                position,
                mobile,
                d.goes_left_first,
            ),
            scoring: PlatformScoreHandler { score: sc, score_has_been_collected: false },
            interaction: PtoPInteractionHandler {
                player_is_on_platform: false,
                time_spent_on_platform: 0,
            },
        }
    }

    pub open spec fn spawned(self, d: SpawnDraw) -> MainStateView {
        let m = self.platforms_movement;
        MainStateView {
            platforms: self.platforms.push(self.next_platform(d)),
            platforms_movement: PlatformVerticalMovementHandler {
                score_of_latest_platform: (m.score_of_latest_platform
                    + PlatformScoreHandler::POINTS) as u32,
                distance_till_next_platform: (m.distance_till_next_platform
                    - PlatformEntity::VERTICAL_PLATFORM_OFFSET) as i64,
                ..m
            },
            ..self
        }
    }

    pub open spec fn key_pressed(self, key: ControlKey, repeated: bool) -> MainStateView {
        let m = self.player_movement;
        match key {
            ControlKey::Jump => if !repeated && m.can_jump {
                MainStateView {
                    player_movement: PlayerMovementHandler { is_jumping: true, ..m },
                    ..self
                }
            } else {
                self
            },
            ControlKey::Left => if self.game_over {
                self
            } else {
                MainStateView {
                    player_movement: PlayerMovementHandler {
                        units_travelled_laterally: (-PlayerMovementHandler::PLAYER_UNITS_TRAVELLED) as i32,
                        ..m
                    },
                    player: PlayerEntity { direction: PlayerDirection::Left, ..self.player },
                    ..self
                }
            },
            ControlKey::Right => if self.game_over {
                self
            } else {
                MainStateView {
                    player_movement: PlayerMovementHandler {
                        units_travelled_laterally: PlayerMovementHandler::PLAYER_UNITS_TRAVELLED,
                        ..m
                    },
                    player: PlayerEntity { direction: PlayerDirection::Right, ..self.player },
                    ..self
                }
            },
        }
    }

    pub open spec fn key_released(self, key: ControlKey) -> MainStateView {
        let m = self.player_movement;
        match key {
            ControlKey::Jump => MainStateView {
                player_movement: PlayerMovementHandler { can_jump: false, ..m },
                ..self
            },
            _ => if self.game_over {
                self
            } else {
                MainStateView {
                    player_movement: PlayerMovementHandler {
                        units_travelled_laterally: 0,
                        running_phase_factor: 0,
                        distance_travelled_laterally: 0,
                        ..m
                    },
                    ..self
                }
            },
        }
    }
}

/// Growth of the bound that one stage of a tick may cause.
pub open spec fn stage_slack() -> int {
    250_000
}

pub proof fn lemma_within_mono(s: MainStateView, b1: int, b2: int)
    requires
        s.within(b1),
        b1 <= b2,
    ensures
        s.within(b2),
{
    assert forall|j: int| 0 <= j < s.platforms.len() implies platform_within(
        #[trigger] s.platforms[j],
        b2,
    ) by {
        assert(platform_within(s.platforms[j], b1));
    }
}

pub(crate) proof fn lemma_player_stages_within(s: MainStateView, b: int)
    requires
        s.within(b),
        1_000_000 <= b <= COORD_LIMIT,
    ensures
        s.death_checked().within(b),
        s.player_moved().within(b + stage_slack()),
        s.running_phase_updated().within(b + stage_slack()),
        s.jump_motion_updated(1).within(b + stage_slack()),
{
    assert(s.death_checked().platforms == s.platforms);
    assert(s.player_moved().platforms == s.platforms);
    assert(s.running_phase_updated().platforms == s.platforms);
    assert(s.jump_motion_updated(1).platforms == s.platforms);
    lemma_within_mono(s, b, b + stage_slack());
}

pub(crate) proof fn lemma_platform_stages_within(s: MainStateView, b: int)
    requires
        s.within(b),
        1_000_000 <= b <= COORD_LIMIT,
    ensures
        s.platforms_updated(false).within(b + stage_slack()),
        s.interactions_cleared().within(b + stage_slack()),
        s.platforms_movement.platform_update_timer > 0 ==> s.readjusted().spawn_height_updated().timer_reset().within(b + stage_slack()),
        forall|j: int|
            0 <= j < s.platforms.len() ==> platform_within(
                #[trigger] s.readjusted().platforms[j],
                b + stage_slack(),
            ),
        s.contact_timed(1).within(b + stage_slack()),
        s.dropped_out_of_reach().within(b + stage_slack()),
        s.dropped_broken().within(b + stage_slack()),
{
    let b2 = b + stage_slack();
    lemma_within_mono(s, b, b2);
    let n = s.platforms.len();
    assert forall|j: int| 0 <= j < n implies platform_within(
        #[trigger] s.platforms_updated(false).platforms[j],
        b2,
    ) by {
        assert(platform_within(s.platforms[j], b));
    }
    assert forall|j: int| 0 <= j < n implies platform_within(
        #[trigger] s.interactions_cleared().platforms[j],
        b2,
    ) by {
        assert(platform_within(s.platforms[j], b));
    }
    assert forall|j: int| 0 <= j < n implies platform_within(
        #[trigger] s.readjusted().platforms[j],
        b2,
    ) by {
        assert(platform_within(s.platforms[j], b));
    }
    assert forall|j: int| 0 <= j < n implies platform_within(
        #[trigger] s.contact_timed(1).platforms[j],
        b2,
    ) by {
        assert(platform_within(s.platforms[j], b));
    }
    if n > 0 {
        assert(platform_within(s.platforms[n - 1], b));
    }
    let d = s.dropped_out_of_reach();
    assert forall|j: int| 0 <= j < d.platforms.len() implies platform_within(
        #[trigger] d.platforms[j],
        b2,
    ) by {
        if d.platforms.len() < n {
            assert(d.platforms[j] == s.platforms[j + 1]);
        }
    }
    if exists|i: int| s.is_first_vanished(i) {
        let i = choose|i: int| s.is_first_vanished(i);
        let r = s.dropped_broken();
        assert forall|j: int| 0 <= j < r.platforms.len() implies platform_within(
            #[trigger] r.platforms[j],
            b2,
        ) by {
            if j < i {
                assert(r.platforms[j] == s.platforms[j]);
            } else {
                assert(r.platforms[j] == s.platforms[j + 1]);
            }
        }
    }
}

pub(crate) proof fn lemma_spawn_within(s: MainStateView, d: SpawnDraw, b: int)
    requires
        s.within(b),
        -b <= d.x <= b,
        1_000_000 <= b <= COORD_LIMIT,
    ensures
        s.spawn_checked(d).within(b + stage_slack()),
{
    let b2 = b + stage_slack();
    lemma_within_mono(s, b, b2);
    if s.platforms_movement.distance_till_next_platform >= 0 {
        let t = s.spawned(d);
        assert forall|j: int| 0 <= j < t.platforms.len() implies platform_within(
            #[trigger] t.platforms[j],
            b2,
        ) by {
            if j < s.platforms.len() {
                assert(t.platforms[j] == s.platforms[j]);
            } else {
                assert(t.platforms[j] == s.next_platform(d));
            }
        }
    }
}

pub(crate) proof fn lemma_collided_within(s: MainStateView, b: int)
    requires
        s.within(b),
        1_000_000 <= b <= COORD_LIMIT,
    ensures
        s.collided().within(b + stage_slack()),
{
    let b2 = b + stage_slack();
    lemma_within_mono(s, b, b2);
    if s.player.state != PlayerState::Jumping && !s.no_overlap() {
        let i = choose|i: int| s.is_first_overlap(i);
        assert(s.is_first_overlap(i)) by {
            let k = choose|k: int| 0 <= k < s.platforms.len() && !!s.overlaps_player(k);
            lemma_first_overlap_exists(s, k);
        }
        let t = s.landed(i);
        assert forall|j: int| 0 <= j < t.platforms.len() implies platform_within(
            #[trigger] t.platforms[j],
            b2,
        ) by {
            assert(platform_within(s.platforms[j], b));
        }
    }
}

/// Some platform meets the player, so a first one does.
pub proof fn lemma_first_overlap_exists(s: MainStateView, k: int)
    requires
        0 <= k < s.platforms.len(),
        s.overlaps_player(k),
    ensures
        exists|i: int| s.is_first_overlap(i),
    decreases k,
{
    if forall|j: int| 0 <= j < k ==> !s.overlaps_player(j) {
        assert(s.is_first_overlap(k));
    } else {
        let j = choose|j: int| 0 <= j < k && s.overlaps_player(j);
        lemma_first_overlap_exists(s, j);
    }
}

} // verus!
