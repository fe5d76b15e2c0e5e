use vstd::prelude::*;
use crate::geometry::{
    spec_ball_hits_left_wall, spec_ball_hits_right_wall, spec_ball_hits_top_or_bottom,
    spec_ball_in_paddle_band, spec_ball_reaches_opponent_paddle, spec_ball_reaches_player_paddle,
};
use crate::state::{Event, Mode, StateModel};
use crate::tick::{spec_move, spec_tick};

verus! {

/// A tick preserves the session invariant: valid configuration, clamped
/// paddles, velocity components of the configured magnitude, non-negative
/// scores. The configuration itself never changes.
pub proof fn lemma_tick_preserves_wf(s: StateModel, pointer_y: int)
    requires
        s.wf(),
    ensures
        spec_tick(s, pointer_y).0.wf(),
        spec_tick(s, pointer_y).0.cfg == s.cfg,
{
}

/// Clamp invariant: whatever the pointer does, after any tick each paddle's
/// top edge lies within `[0, height - paddle_height]`.
pub proof fn lemma_paddles_stay_clamped(s: StateModel, pointer_y: int)
    requires
        s.wf(),
    ensures
        0 <= spec_tick(s, pointer_y).0.pos_y
            <= s.cfg.height - s.cfg.paddle_height,
        0 <= spec_tick(s, pointer_y).0.opp_y
            <= s.cfg.height - s.cfg.paddle_height,
{
}

/// Ball speed is invariant: a tick never rescales a velocity component, it
/// either keeps it or flips its sign, so each component's magnitude — and
/// with it the speed `sqrt(vx^2 + vy^2)` — is the same after every tick.
pub proof fn lemma_ball_speed_invariant(s: StateModel, pointer_y: int)
    ensures
        spec_tick(s, pointer_y).0.ball_x_vel == s.ball_x_vel
            || spec_tick(s, pointer_y).0.ball_x_vel == -s.ball_x_vel,
        spec_tick(s, pointer_y).0.ball_y_vel == s.ball_y_vel
            || spec_tick(s, pointer_y).0.ball_y_vel == -s.ball_y_vel,
{
}

/// A left-wall crossing scores for the opponent: when the ball already
/// overlaps the left wall as the tick starts and still does once it has
/// moved, the tick flips the horizontal velocity, raises the opponent score
/// by exactly one, leaves the player score alone, and reports it. (When the
/// tick's own motion carries the ball back past the wall before the check,
/// no crossing is seen; such starts are excluded here.)
pub proof fn lemma_left_crossing_scores_opponent(s: StateModel, pointer_y: int)
    requires
        s.wf(),
        s.mode == Mode::Play,
        spec_ball_hits_left_wall(s.ball_x_pos, s.cfg.ball_radius),
        spec_ball_hits_left_wall(s.ball_x_pos - s.ball_x_vel, s.cfg.ball_radius),
    ensures
        spec_tick(s, pointer_y).0.ball_x_vel == -s.ball_x_vel,
        spec_tick(s, pointer_y).0.ai_score == s.ai_score + 1,
        spec_tick(s, pointer_y).0.player_score == s.player_score,
        spec_tick(s, pointer_y).1 == Some(Event::AiScored),
{
}

/// A right-wall crossing scores for the player: when the ball overlaps the
/// right wall as the tick starts and still does once it has moved, the tick
/// flips the horizontal velocity, raises the player score by exactly one,
/// leaves the opponent score alone, and reports it. (Starts whose own
/// motion pulls the ball back inside before the check are excluded, as for
/// the left wall.)
pub proof fn lemma_right_crossing_scores_player(s: StateModel, pointer_y: int)
    requires
        s.wf(),
        s.mode == Mode::Play,
        spec_ball_hits_right_wall(s.ball_x_pos, s.cfg.ball_radius, s.cfg.width),
        spec_ball_hits_right_wall(s.ball_x_pos - s.ball_x_vel, s.cfg.ball_radius, s.cfg.width),
    ensures
        spec_tick(s, pointer_y).0.ball_x_vel == -s.ball_x_vel,
        spec_tick(s, pointer_y).0.player_score == s.player_score + 1,
        spec_tick(s, pointer_y).0.ai_score == s.ai_score,
        spec_tick(s, pointer_y).1 == Some(Event::PlayerScored),
{
}

/// A top- or bottom-wall hit flips the vertical velocity and scores for
/// nobody: when the moved ball overlaps the top or bottom wall and neither
/// side wall, the tick flips the vertical component only and both scores
/// stay as they were.
pub proof fn lemma_wall_bounce_keeps_scores(s: StateModel, pointer_y: int)
    requires
        s.wf(),
        s.mode == Mode::Play,
        !spec_ball_hits_left_wall(spec_move(s, pointer_y).ball_x_pos, s.cfg.ball_radius),
        !spec_ball_hits_right_wall(
            spec_move(s, pointer_y).ball_x_pos,
            s.cfg.ball_radius,
            s.cfg.width,
        ),
        spec_ball_hits_top_or_bottom(
            spec_move(s, pointer_y).ball_y_pos,
            s.cfg.ball_radius,
            s.cfg.height,
        ),
    ensures
        spec_tick(s, pointer_y).0.ball_y_vel == -s.ball_y_vel,
        spec_tick(s, pointer_y).0.ball_x_vel == s.ball_x_vel,
        spec_tick(s, pointer_y).0.player_score == s.player_score,
        spec_tick(s, pointer_y).0.ai_score == s.ai_score,
        spec_tick(s, pointer_y).1 == Some(Event::WallBounce),
{
}

/// Priority order: when a top- or bottom-wall bounce and a paddle bounce
/// are due in the same tick (and no side wall is crossed), the wall bounce
/// alone is applied — the vertical velocity flips, the horizontal velocity
/// is untouched, and the reported event is the wall bounce.
pub proof fn lemma_wall_bounce_beats_paddle_bounce(s: StateModel, pointer_y: int)
    requires
        s.wf(),
        s.mode == Mode::Play,
        !spec_ball_hits_left_wall(spec_move(s, pointer_y).ball_x_pos, s.cfg.ball_radius),
        !spec_ball_hits_right_wall(
            spec_move(s, pointer_y).ball_x_pos,
            s.cfg.ball_radius,
            s.cfg.width,
        ),
        spec_ball_hits_top_or_bottom(
            spec_move(s, pointer_y).ball_y_pos,
            s.cfg.ball_radius,
            s.cfg.height,
        ),
        (spec_ball_in_paddle_band(
            spec_move(s, pointer_y).ball_y_pos,
            spec_move(s, pointer_y).pos_y,
            s.cfg.paddle_height,
        ) && spec_ball_reaches_player_paddle(
            spec_move(s, pointer_y).ball_x_pos,
            s.cfg.ball_radius,
            s.cfg.paddle_width,
        )) || (spec_ball_in_paddle_band(
            spec_move(s, pointer_y).ball_y_pos,
            spec_move(s, pointer_y).opp_y,
            s.cfg.paddle_height,
        ) && spec_ball_reaches_opponent_paddle(
            spec_move(s, pointer_y).ball_x_pos,
            s.cfg.ball_radius,
            s.cfg.paddle_width,
            s.cfg.width,
        )),
    ensures
        spec_tick(s, pointer_y).0.ball_y_vel == -s.ball_y_vel,
        spec_tick(s, pointer_y).0.ball_x_vel == s.ball_x_vel,
        spec_tick(s, pointer_y).1 == Some(Event::WallBounce),
{
}

/// Opponent drift: while the ball sits at or above the opponent paddle's
/// top, each tick moves the opponent top upward by exactly `difficulty`,
/// stopping at the arena edge `0`.
pub proof fn lemma_opponent_drifts_up(s: StateModel, pointer_y: int)
    requires
        s.wf(),
        s.mode == Mode::Play,
        s.ball_y_pos <= s.opp_y,
    ensures
        spec_tick(s, pointer_y).0.opp_y == if s.opp_y - s.cfg.difficulty >= 0 {
            s.opp_y - s.cfg.difficulty
        } else {
            0
        },
{
}

/// The state after a whole run of ticks, one per entry of `pointers`: the
/// pointer position each tick saw, in order.
pub open spec fn spec_run(s: StateModel, pointers: Seq<int>) -> StateModel
    decreases pointers.len(),
{
    if pointers.len() == 0 {
        s
    } else {
        spec_tick(spec_run(s, pointers.drop_last()), pointers.last()).0
    }
}

/// The session invariant holds after every run of ticks, however long and
/// whatever the pointer did; the configuration and the screen mode are
/// never touched by ticking.
pub proof fn lemma_run_preserves_wf(s: StateModel, pointers: Seq<int>)
    requires
        s.wf(),
    ensures
        spec_run(s, pointers).wf(),
        spec_run(s, pointers).cfg == s.cfg,
        spec_run(s, pointers).mode == s.mode,
    decreases pointers.len(),
{
    if pointers.len() != 0 {
        lemma_run_preserves_wf(s, pointers.drop_last());
        lemma_tick_preserves_wf(spec_run(s, pointers.drop_last()), pointers.last());
    }
}

/// Clamp invariant over whole runs: each paddle's top edge lies within
/// `[0, height - paddle_height]` after every tick of every run.
pub proof fn lemma_paddles_clamped_all_ticks(s: StateModel, pointers: Seq<int>)
    requires
        s.wf(),
    ensures
        0 <= spec_run(s, pointers).pos_y <= s.cfg.height - s.cfg.paddle_height,
        0 <= spec_run(s, pointers).opp_y <= s.cfg.height - s.cfg.paddle_height,
{
    lemma_run_preserves_wf(s, pointers);
}

/// Speed invariance over whole runs: after any number of ticks each
/// velocity component still has the configured magnitude, so the speed
/// `sqrt(vx^2 + vy^2)` of the start state is never lost or gained.
pub proof fn lemma_speed_invariant_all_ticks(s: StateModel, pointers: Seq<int>)
    requires
        s.wf(),
    ensures
        spec_run(s, pointers).ball_x_vel == s.cfg.ball_speed
            || spec_run(s, pointers).ball_x_vel == -s.cfg.ball_speed,
        spec_run(s, pointers).ball_y_vel == s.cfg.ball_speed
            || spec_run(s, pointers).ball_y_vel == -s.cfg.ball_speed,
{
    lemma_run_preserves_wf(s, pointers);
}

/// Opponent drift over a whole run: while the ball stays at or above the
/// opponent paddle's top, the paddle moves upward by exactly `difficulty`
/// per tick until the arena edge `0` holds it.
pub proof fn lemma_opponent_drift_run(s: StateModel, pointers: Seq<int>)
    requires
        s.wf(),
        s.mode == Mode::Play,
        forall|i: int|
            0 <= i < pointers.len() ==> (#[trigger] spec_run(s, pointers.take(i))).ball_y_pos
                <= spec_run(s, pointers.take(i)).opp_y,
    ensures
        spec_run(s, pointers).opp_y == if s.opp_y - pointers.len() * s.cfg.difficulty >= 0 {
            s.opp_y - pointers.len() * s.cfg.difficulty
        } else {
            0
        },
    decreases pointers.len(),
{
    let n = pointers.len() as int;
    if n == 0 {
    } else {
        let shorter = pointers.drop_last();
        assert forall|i: int|
            0 <= i < shorter.len() implies (#[trigger] spec_run(s, shorter.take(i))).ball_y_pos
                <= spec_run(s, shorter.take(i)).opp_y by {
            assert(shorter.take(i) =~= pointers.take(i));
        }
        lemma_opponent_drift_run(s, shorter);
        lemma_run_preserves_wf(s, shorter);
        assert(pointers.take(n - 1) =~= shorter);
        lemma_opponent_drifts_up(spec_run(s, shorter), pointers.last());
        assert(n * s.cfg.difficulty == (n - 1) * s.cfg.difficulty + s.cfg.difficulty)
            by (nonlinear_arith);
    }
}

/// Mode gating: in `TitleScreen` or `Settings` a tick is a no-op — no ball,
/// paddle or score state changes, whatever the input, and no event fires.
pub proof fn lemma_frozen_outside_play(s: StateModel, pointer_y: int)
    requires
        s.mode == Mode::TitleScreen || s.mode == Mode::Settings,
    ensures
        spec_tick(s, pointer_y).0 == s,
        spec_tick(s, pointer_y).1 == None::<Event>,
{
}

} // verus!
