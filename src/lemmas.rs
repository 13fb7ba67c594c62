use vstd::prelude::*;

use crate::entities::{WindowMeasurements, COORD_LIMIT};
use crate::mainstate::SpawnDraw;
use crate::model::{lemma_first_overlap_exists, MainStateView};
use crate::platform::{broken_window_spec, PlatformSize, PlatformState};
use crate::player::PlayerState;

verus! {

proof fn lemma_first_overlap_unique(s: MainStateView, i: int, k: int)
    requires
        s.is_first_overlap(i),
        s.is_first_overlap(k),
    ensures
        i == k,
{
    if i < k {
        assert(!s.overlaps_player(i));
    } else if k < i {
        assert(!s.overlaps_player(k));
    }
}

/// The collision pass resolves the first platform that meets the player.
pub proof fn lemma_collided_lands_on_first(s: MainStateView, i: int)
    requires
        s.is_first_overlap(i),
        s.player.state != PlayerState::Jumping,
        s.player.position.y <= WindowMeasurements::WINDOW_HEIGHT,
    ensures
        s.collided() == s.landed(i),
{
    assert(!s.no_overlap());
    let k = choose|k: int| s.is_first_overlap(k);
    lemma_first_overlap_unique(s, i, k);
}

/// Landing on a platform whose score is not collected yet makes that score
/// the player's; a second pass while the player still rests there changes
/// the score no more.
pub proof fn lemma_score_collected_once(s: MainStateView, i: int)
    requires
        s.is_first_overlap(i),
        s.player.state != PlayerState::Jumping,
        s.player.position.y <= WindowMeasurements::WINDOW_HEIGHT,
        !s.platforms[i].scoring.score_has_been_collected,
    ensures
        s.collided().score == s.platforms[i].scoring.score,
        s.collided().platforms[i].scoring.score_has_been_collected,
        s.collided().collided().score == s.collided().score,
{
    lemma_collided_lands_on_first(s, i);
    let t = s.landed(i);
    assert forall|j: int| 0 <= j < t.platforms.len() implies t.overlaps_player(j)
        == s.overlaps_player(j) by {
        assert(t.platforms[j].bounding_rect_edges == s.platforms[j].bounding_rect_edges);
    }
    assert(t.is_first_overlap(i));
    lemma_collided_lands_on_first(t, i);
}

/// A breakable platform under the player breaks while its contact time lies
/// in its design's window, and a broken one whose contact time has passed
/// the window vanishes.
pub proof fn lemma_platform_wears_out(s: MainStateView, i: int)
    requires
        s.is_first_overlap(i),
        s.player.state != PlayerState::Jumping,
        s.player.position.y <= WindowMeasurements::WINDOW_HEIGHT,
        s.platforms[i].size != PlatformSize::Large,
    ensures
        ({
            let p = s.platforms[i];
            let window = broken_window_spec(p.design);
            let t = p.interaction.time_spent_on_platform;
            &&& window.0 <= t < window.1 ==> s.collided().platforms[i].state == PlatformState::Broken
            &&& t >= window.1 && p.state == PlatformState::Broken ==> s.collided().platforms[i].state
                == PlatformState::Nonexistent
        }),
{
    lemma_collided_lands_on_first(s, i);
}

/// A vanished platform with no vanished platform before it in the queue is
/// the one that leaves, and the others keep their order.
pub proof fn lemma_vanished_platform_purged(s: MainStateView, i: int)
    requires
        0 <= i < s.platforms.len(),
        s.platforms[i].state == PlatformState::Nonexistent,
        forall|j: int| 0 <= j < i ==> s.platforms[j].state != PlatformState::Nonexistent,
    ensures
        s.dropped_broken().platforms == s.platforms.remove(i),
{
    assert(s.is_first_vanished(i));
    let k = choose|k: int| s.is_first_vanished(k);
    if k < i {
        assert(s.platforms[k].state != PlatformState::Nonexistent);
    } else if i < k {
        assert(s.platforms[i].state != PlatformState::Nonexistent);
    }
}

/// The platform stage of a tick leaves the player and the flags alone.
proof fn lemma_platform_stage_keeps_player(s: MainStateView)
    ensures
        s.platforms_advanced().player == s.player,
        s.platforms_advanced().player_movement == s.player_movement,
        s.platforms_advanced().game_over == s.game_over,
        s.platforms_advanced().debug_mode == s.debug_mode,
        s.platforms_advanced().score == s.score,
{
}

/// The last stage of a tick changes the player only in its collision pass.
proof fn lemma_settle_player(s: MainStateView, d: SpawnDraw)
    ensures
        s.settled(d).player == s.spawn_checked(d).interactions_cleared().collided().player,
        s.settled(d).player_movement == s.spawn_checked(d).interactions_cleared().collided().player_movement,
        s.settled(d).game_over == s.spawn_checked(d).interactions_cleared().collided().game_over,
        s.spawn_checked(d).player == s.player,
        s.spawn_checked(d).player_movement == s.player_movement,
        s.spawn_checked(d).debug_mode == s.debug_mode,
        s.spawn_checked(d).game_over == s.game_over,
{
}

/// A jump in progress, at or below its apex.
pub open spec fn rising(s: MainStateView, apex: int) -> bool {
    &&& !s.game_over
    &&& s.player.state == PlayerState::Jumping
    &&& s.player_movement.is_jumping
    &&& s.player.max_jump_height == apex
    &&& apex <= s.player.position.y <= COORD_LIMIT
    &&& -COORD_LIMIT <= apex
}

proof fn lemma_rising_tick(s: MainStateView, d: SpawnDraw, apex: int)
    requires
        rising(s, apex),
    ensures
        s.ticked(d).player.state == PlayerState::Jumping ==> rising(s.ticked(d), apex),
{
    let a = s.player_advanced();
    lemma_platform_stage_keeps_player(a);
    let b = a.platforms_advanced();
    lemma_settle_player(b, d);
}

/// A jump never takes the player past its apex for as long as the player
/// keeps jumping, whatever the draws.
pub proof fn lemma_jump_stays_below_apex(s: MainStateView, draws: Seq<SpawnDraw>)
    requires
        rising(s, s.player.max_jump_height as int),
    ensures
        (forall|k: int|
            1 <= k <= draws.len() ==> #[trigger] s.after_ticks(draws.take(k)).player.state
                == PlayerState::Jumping) ==> s.after_ticks(draws).player.position.y
            >= s.player.max_jump_height,
{
    let apex = s.player.max_jump_height as int;
    if draws.len() > 0 && forall|k: int|
        1 <= k <= draws.len() ==> #[trigger] s.after_ticks(draws.take(k)).player.state
            == PlayerState::Jumping {
        lemma_rising_run(s, draws, apex);
    }
}

proof fn lemma_rising_run(s: MainStateView, draws: Seq<SpawnDraw>, apex: int)
    requires
        rising(s, apex),
        forall|k: int|
            1 <= k <= draws.len() ==> #[trigger] s.after_ticks(draws.take(k)).player.state
                == PlayerState::Jumping,
    ensures
        rising(s.after_ticks(draws), apex),
    decreases draws.len(),
{
    if draws.len() > 0 {
        let front = draws.drop_last();
        assert forall|k: int| 1 <= k <= front.len() implies #[trigger] s.after_ticks(
            front.take(k),
        ).player.state == PlayerState::Jumping by {
            assert(front.take(k) =~= draws.take(k));
            assert(s.after_ticks(draws.take(k)).player.state == PlayerState::Jumping);
        }
        lemma_rising_run(s, front, apex);
        assert(draws.take(draws.len() as int) =~= draws);
        assert(s.after_ticks(draws.take(draws.len() as int)).player.state == PlayerState::Jumping);
        lemma_rising_tick(s.after_ticks(front), draws.last(), apex);
    }
}

/// A live player not below the bottom of the window; a jumping one is
/// still rising.
pub open spec fn above_floor(s: MainStateView) -> bool {
    &&& s.player.state != PlayerState::Dead
    &&& s.player.position.y <= WindowMeasurements::WINDOW_HEIGHT
    &&& s.player.state == PlayerState::Jumping ==> s.player_movement.is_jumping
}

proof fn lemma_above_floor_tick(s: MainStateView, d: SpawnDraw)
    requires
        s.ready_for_tick(),
        above_floor(s),
    ensures
        s.ticked(d).player.state == PlayerState::Dead || above_floor(s.ticked(d)),
{
    if !s.game_over {
        let a = s.player_advanced();
        lemma_platform_stage_keeps_player(a);
        let b = a.platforms_advanced();
        lemma_settle_player(b, d);
        let c = b.spawn_checked(d).interactions_cleared();
        if c.player.state != PlayerState::Jumping && !c.no_overlap() && c.player.position.y
            <= WindowMeasurements::WINDOW_HEIGHT {
            let i = choose|i: int| c.is_first_overlap(i);
            assert(c.collided() == c.landed(i));
        }
    }
}

/// A live player above the bottom of the window does not go below it before
/// it dies, whatever the draws, while the state stays within the bounds a
/// tick accepts.
pub proof fn lemma_fall_stays_in_window(s: MainStateView, draws: Seq<SpawnDraw>)
    requires
        above_floor(s),
    ensures
        (forall|k: int|
            0 <= k < draws.len() ==> #[trigger] s.after_ticks(draws.take(k)).ready_for_tick()) && (
        forall|k: int|
            1 <= k < draws.len() ==> #[trigger] s.after_ticks(draws.take(k)).player.state
                != PlayerState::Dead) ==> s.after_ticks(draws).player.state == PlayerState::Dead
            || s.after_ticks(draws).player.position.y <= WindowMeasurements::WINDOW_HEIGHT,
{
    if (forall|k: int|
        0 <= k < draws.len() ==> #[trigger] s.after_ticks(draws.take(k)).ready_for_tick()) && (
    forall|k: int|
        1 <= k < draws.len() ==> #[trigger] s.after_ticks(draws.take(k)).player.state
            != PlayerState::Dead) {
        lemma_above_floor_run(s, draws);
    }
}

proof fn lemma_above_floor_run(s: MainStateView, draws: Seq<SpawnDraw>)
    requires
        above_floor(s),
        forall|k: int|
            0 <= k < draws.len() ==> #[trigger] s.after_ticks(draws.take(k)).ready_for_tick(),
        forall|k: int|
            1 <= k < draws.len() ==> #[trigger] s.after_ticks(draws.take(k)).player.state
                != PlayerState::Dead,
    ensures
        s.after_ticks(draws).player.state == PlayerState::Dead || above_floor(s.after_ticks(draws)),
    decreases draws.len(),
{
    if draws.len() > 0 {
        let front = draws.drop_last();
        assert forall|k: int| 0 <= k < front.len() implies #[trigger] s.after_ticks(
            front.take(k),
        ).ready_for_tick() by {
            assert(front.take(k) =~= draws.take(k));
            assert(s.after_ticks(draws.take(k)).ready_for_tick());
        }
        assert forall|k: int| 1 <= k < front.len() implies #[trigger] s.after_ticks(
            front.take(k),
        ).player.state != PlayerState::Dead by {
            assert(front.take(k) =~= draws.take(k));
            assert(s.after_ticks(draws.take(k)).player.state != PlayerState::Dead);
        }
        lemma_above_floor_run(s, front);
        let n = front.len() as int;
        assert(draws.take(n) =~= front);
        assert(s.after_ticks(draws.take(n)).ready_for_tick());
        if n > 0 {
            assert(s.after_ticks(draws.take(n)).player.state != PlayerState::Dead);
        } else {
            assert(front =~= Seq::<SpawnDraw>::empty());
        }
        lemma_above_floor_tick(s.after_ticks(front), draws.last());
    }
}

/// The platform at `i` marks the player as resting on it.
pub open spec fn supports(s: MainStateView, i: int) -> bool {
    s.platforms[i].interaction.player_is_on_platform
}

/// At most one platform marks the player as resting on it.
pub open spec fn single_support(s: MainStateView) -> bool {
    forall|i: int, j: int|
        0 <= i < s.platforms.len() && 0 <= j < s.platforms.len() && #[trigger] supports(s, i)
            && #[trigger] supports(s, j) ==> i == j
}

/// A queue whose marks are a subset of another's, platform by platform,
/// through an order-keeping choice of indices, keeps a single mark.
proof fn lemma_single_support_from(s: MainStateView, t: MainStateView, shift: int)
    requires
        single_support(s),
        0 <= shift,
        t.platforms.len() <= s.platforms.len(),
        t.platforms.len() > shift ==> t.platforms.len() < s.platforms.len(),
        forall|j: int|
            0 <= j < t.platforms.len() && j < shift && #[trigger] supports(t, j) ==> supports(s, j),
        forall|j: int|
            0 <= j < t.platforms.len() && j >= shift && #[trigger] supports(t, j) ==> supports(
                s,
                j + 1,
            ),
    ensures
        single_support(t),
{
    assert forall|i: int, j: int|
        0 <= i < t.platforms.len() && 0 <= j < t.platforms.len() && #[trigger] supports(t, i)
            && #[trigger] supports(t, j) implies i == j by {
        let si = if i < shift {
            i
        } else {
            i + 1
        };
        let sj = if j < shift {
            j
        } else {
            j + 1
        };
        assert(supports(s, si));
        assert(supports(s, sj));
    }
}

/// Every tick leaves at most one platform marked as carrying the player.
pub proof fn lemma_tick_keeps_single_support(s: MainStateView, d: SpawnDraw)
    requires
        single_support(s),
    ensures
        single_support(s.ticked(d)),
{
    if !s.game_over && !(s.player.state == PlayerState::Dead && !s.debug_mode) {
        let e = s.player_advanced().platforms_advanced().spawn_checked(d);
        let ec = e.interactions_cleared();
        assert forall|k: int| 0 <= k < ec.platforms.len() implies !supports(ec, k) by {}
        let f = ec.collided();
        if ec.player.state != PlayerState::Jumping && !(ec.no_overlap() || ec.player.position.y
            > WindowMeasurements::WINDOW_HEIGHT) {
            let w = choose|w: int| 0 <= w < ec.platforms.len() && !!ec.overlaps_player(w);
            lemma_first_overlap_exists(ec, w);
            let i = choose|i: int| ec.is_first_overlap(i);
            assert forall|k: int, j: int|
                0 <= k < f.platforms.len() && 0 <= j < f.platforms.len() && #[trigger] supports(
                    f,
                    k,
                ) && #[trigger] supports(f, j) implies k == j by {
                if k != i {
                    assert(!supports(ec, k));
                }
                if j != i {
                    assert(!supports(ec, j));
                }
            }
        } else {
            assert(f.platforms == ec.platforms);
            assert forall|k: int, j: int|
                0 <= k < f.platforms.len() && 0 <= j < f.platforms.len() && #[trigger] supports(
                    f,
                    k,
                ) && #[trigger] supports(f, j) implies k == j by {
                assert(!supports(ec, k));
            }
        }
        assert(single_support(f));
        let g = f.dropped_out_of_reach();
        if g.platforms.len() < f.platforms.len() {
            assert forall|j: int|
                0 <= j < g.platforms.len() && #[trigger] supports(g, j) implies supports(f, j + 1) by {
                assert(g.platforms[j] == f.platforms[j + 1]);
            }
            lemma_single_support_from(f, g, 0);
        }
        assert(single_support(g));
        let h = g.dropped_broken();
        if exists|k: int| g.is_first_vanished(k) {
            let k = choose|k: int| g.is_first_vanished(k);
            assert forall|j: int|
                0 <= j < h.platforms.len() && j < k && #[trigger] supports(h, j) implies supports(
                    g,
                    j,
                ) by {
                assert(h.platforms[j] == g.platforms[j]);
            }
            assert forall|j: int|
                0 <= j < h.platforms.len() && j >= k && #[trigger] supports(h, j) implies supports(
                    g,
                    j + 1,
                ) by {
                assert(h.platforms[j] == g.platforms[j + 1]);
            }
            lemma_single_support_from(g, h, k);
        }
        assert(single_support(h));
        assert(s.ticked(d) == h);
    } else {
        let t = s.ticked(d);
        assert(t.platforms == s.platforms);
        assert forall|j: int| 0 <= j < t.platforms.len() && #[trigger] supports(t, j) implies supports(
            s,
            j,
        ) by {}
        lemma_single_support_from(s, t, t.platforms.len() as int);
    }
}

} // verus!
