use vstd::prelude::*;
use crate::config::{ConfigModel, DEADBAND, DIM_LIMIT, POS_LIMIT};
use crate::geometry;
use crate::state::{Event, GameState, Mode, StateModel, spec_clamp};

verus! {

/// Player paddle control, pointer-chasing with a jitter deadband: aim the
/// paddle centre at the pointer, step by `player_speed` only when the target
/// top is more than `DEADBAND` away from the current top, then clamp to the
/// arena.
pub open spec fn spec_player_step(cfg: ConfigModel, pos_y: int, pointer_y: int) -> int {
    let target = pointer_y - cfg.paddle_height / 2;
    let moved = if target > pos_y + DEADBAND {
        pos_y + cfg.player_speed
    } else if target < pos_y - DEADBAND {
        pos_y - cfg.player_speed
    } else {
        pos_y
    };
    spec_clamp(moved, 0, cfg.height - cfg.paddle_height)
}

/// Opponent paddle heuristic, reactive only: step down by `difficulty` when
/// the ball is at or below the paddle band, up when at or above it, hold
/// while the ball is inside the band, then clamp to the arena.
pub open spec fn spec_opponent_step(cfg: ConfigModel, opp_y: int, ball_y: int) -> int {
    let moved = if ball_y >= opp_y + cfg.paddle_height {
        opp_y + cfg.difficulty
    } else if ball_y <= opp_y {
        opp_y - cfg.difficulty
    } else {
        opp_y
    };
    spec_clamp(moved, 0, cfg.height - cfg.paddle_height)
}

/// Paddle motion and ball motion of one tick, before collisions are
/// resolved. The ball moves by the negated velocity vector; the opponent
/// heuristic reads the ball position of the tick start.
pub open spec fn spec_move(s: StateModel, pointer_y: int) -> StateModel {
    StateModel {
        pos_y: spec_player_step(s.cfg, s.pos_y, pointer_y),
        opp_y: spec_opponent_step(s.cfg, s.opp_y, s.ball_y_pos),
        ball_x_pos: s.ball_x_pos - s.ball_x_vel,
        ball_y_pos: s.ball_y_pos - s.ball_y_vel,
        ..s
    }
}

/// Collision and scoring of one tick, on the already-moved state. The five
/// conditions are tried in a fixed priority order and the first match wins:
/// left wall (opponent scores), right wall (player scores), top or bottom
/// wall, player paddle, opponent paddle. A side-wall crossing flips the
/// horizontal velocity without repositioning the ball, so the ball carries
/// on from its out-of-bounds position.
pub open spec fn spec_resolve(s: StateModel) -> (StateModel, Option<Event>) {
    let c = s.cfg;
    if geometry::spec_ball_hits_left_wall(s.ball_x_pos, c.ball_radius) {
        (
            StateModel { ball_x_vel: -s.ball_x_vel, ai_score: s.ai_score + 1, ..s },
            Some(Event::AiScored),
        )
    } else if geometry::spec_ball_hits_right_wall(s.ball_x_pos, c.ball_radius, c.width) {
        (
            StateModel { ball_x_vel: -s.ball_x_vel, player_score: s.player_score + 1, ..s },
            Some(Event::PlayerScored),
        )
    } else if geometry::spec_ball_hits_top_or_bottom(s.ball_y_pos, c.ball_radius, c.height) {
        (StateModel { ball_y_vel: -s.ball_y_vel, ..s }, Some(Event::WallBounce))
    } else if geometry::spec_ball_in_paddle_band(s.ball_y_pos, s.pos_y, c.paddle_height)
        && geometry::spec_ball_reaches_player_paddle(s.ball_x_pos, c.ball_radius, c.paddle_width) {
        (StateModel { ball_x_vel: -s.ball_x_vel, ..s }, Some(Event::PlayerPaddleBounce))
    } else if geometry::spec_ball_in_paddle_band(s.ball_y_pos, s.opp_y, c.paddle_height)
        && geometry::spec_ball_reaches_opponent_paddle(
        s.ball_x_pos,
        c.ball_radius,
        c.paddle_width,
        c.width,
    ) {
        (StateModel { ball_x_vel: -s.ball_x_vel, ..s }, Some(Event::OpponentPaddleBounce))
    } else {
        (s, None)
    }
}

/// One whole tick. Outside `Play` the simulation is frozen: the state is
/// returned unchanged and no event fires. In `Play`, paddles and ball move
/// first, then collisions and scoring are resolved in priority order.
pub open spec fn spec_tick(s: StateModel, pointer_y: int) -> (StateModel, Option<Event>) {
    if s.mode == Mode::Play {
        spec_resolve(spec_move(s, pointer_y))
    } else {
        (s, None)
    }
}

impl GameState {
    /// Move the player paddle toward the pointer and clamp it.
    fn move_player(&mut self, pointer_y: i64)
        requires
            old(self)@.wf(),
            -POS_LIMIT <= pointer_y <= POS_LIMIT,
        ensures
            final(self)@ == (StateModel {
                pos_y: spec_player_step(old(self)@.cfg, old(self)@.pos_y, pointer_y as int),
                ..old(self)@
            }),
    {
        let target: i64 = pointer_y - self.cfg.paddle_height / 2;
        if target > self.pos_y + DEADBAND {
            self.pos_y = self.pos_y + self.cfg.player_speed;
        } else if target < self.pos_y - DEADBAND {
            self.pos_y = self.pos_y - self.cfg.player_speed;
        }
        self.clamp_player_paddle();
    }

    /// Move the opponent paddle by its heuristic and clamp it.
    fn move_opponent(&mut self)
        requires
            old(self)@.wf(),
            -POS_LIMIT <= old(self).ball_y_pos <= POS_LIMIT,
        ensures
            final(self)@ == (StateModel {
                opp_y: spec_opponent_step(old(self)@.cfg, old(self)@.opp_y, old(self)@.ball_y_pos),
                ..old(self)@
            }),
    {
        if self.ball_y_pos >= self.opp_y + self.cfg.paddle_height {
            self.opp_y = self.opp_y + self.cfg.difficulty;
        } else if self.ball_y_pos <= self.opp_y {
            self.opp_y = self.opp_y - self.cfg.difficulty;
        }
        self.clamp_opponent_paddle();
    }

    /// Integrate the ball position: subtract the velocity vector.
    fn move_ball(&mut self)
        requires
            old(self)@.wf(),
            -POS_LIMIT <= old(self).ball_x_pos <= POS_LIMIT,
            -POS_LIMIT <= old(self).ball_y_pos <= POS_LIMIT,
        ensures
            final(self)@ == (StateModel {
                ball_x_pos: old(self)@.ball_x_pos - old(self)@.ball_x_vel,
                ball_y_pos: old(self)@.ball_y_pos - old(self)@.ball_y_vel,
                ..old(self)@
            }),
    {
        self.ball_x_pos = self.ball_x_pos - self.ball_x_vel;
        self.ball_y_pos = self.ball_y_pos - self.ball_y_vel;
    }

    /// Resolve collisions and scoring on the already-moved state.
    fn resolve_collisions(&mut self) -> (ev: Option<Event>)
        requires
            old(self)@.wf(),
            -POS_LIMIT - DIM_LIMIT <= old(self).ball_x_pos <= POS_LIMIT + DIM_LIMIT,
            -POS_LIMIT - DIM_LIMIT <= old(self).ball_y_pos <= POS_LIMIT + DIM_LIMIT,
            old(self).player_score < u32::MAX,
            old(self).ai_score < u32::MAX,
        ensures
            final(self)@ == spec_resolve(old(self)@).0,
            ev == spec_resolve(old(self)@).1,
    {
        if geometry::ball_hits_left_wall(self.ball_x_pos, self.cfg.ball_radius) {
            self.ball_x_vel = -self.ball_x_vel;
            self.ai_score = self.ai_score + 1;
            Some(Event::AiScored)
        } else if geometry::ball_hits_right_wall(
            self.ball_x_pos,
            self.cfg.ball_radius,
            self.cfg.width,
        ) {
            self.ball_x_vel = -self.ball_x_vel;
            self.player_score = self.player_score + 1;
            Some(Event::PlayerScored)
        } else if geometry::ball_hits_top_or_bottom(
            self.ball_y_pos,
            self.cfg.ball_radius,
            self.cfg.height,
        ) {
            self.ball_y_vel = -self.ball_y_vel;
            Some(Event::WallBounce)
        } else if geometry::ball_in_paddle_band(self.ball_y_pos, self.pos_y, self.cfg.paddle_height)
            && geometry::ball_reaches_player_paddle(
            self.ball_x_pos,
            self.cfg.ball_radius,
            self.cfg.paddle_width,
        ) {
            self.ball_x_vel = -self.ball_x_vel;
            Some(Event::PlayerPaddleBounce)
        } else if geometry::ball_in_paddle_band(self.ball_y_pos, self.opp_y, self.cfg.paddle_height)
            && geometry::ball_reaches_opponent_paddle(
            self.ball_x_pos,
            self.cfg.ball_radius,
            self.cfg.paddle_width,
            self.cfg.width,
        ) {
            self.ball_x_vel = -self.ball_x_vel;
            Some(Event::OpponentPaddleBounce)
        } else {
            None
        }
    }

    /// Run one simulation tick against the current pointer position and
    /// report the event it produced, if any. Outside `Play` nothing moves
    /// and nothing fires, whatever the input. The bounds required of the
    /// ball coordinates and the scores only keep the machine arithmetic in
    /// range; they restrict nothing the simulation can reach from an
    /// in-arena position in any realistic number of ticks.
    pub fn tick(&mut self, pointer_y: i64) -> (ev: Option<Event>)
        requires
            old(self)@.wf(),
            -POS_LIMIT <= pointer_y <= POS_LIMIT,
            -POS_LIMIT <= old(self).ball_x_pos <= POS_LIMIT,
            -POS_LIMIT <= old(self).ball_y_pos <= POS_LIMIT,
            old(self).player_score < u32::MAX,
            old(self).ai_score < u32::MAX,
        ensures
            final(self)@ == spec_tick(old(self)@, pointer_y as int).0,
            ev == spec_tick(old(self)@, pointer_y as int).1,
    {
        match self.mode {
            Mode::Play => {
                self.move_player(pointer_y);
                self.move_opponent();
                self.move_ball();
                self.resolve_collisions()
            },
            Mode::TitleScreen => None,
            Mode::Settings => None,
        }
    }
}

} // verus!
