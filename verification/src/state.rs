use vstd::prelude::*;
use crate::config::{Config, ConfigModel, POS_LIMIT};

verus! {

/// Screen mode. Only `Play` runs the simulation; in the other modes every
/// tick leaves the state untouched.
#[derive(Clone, Copy, Debug, PartialEq, Eq, Structural)]
pub enum Mode {
    TitleScreen,
    Play,
    Settings,
}

/// Signal emitted by a tick for the presentation layer (sound, effects).
/// At most one event is emitted per tick.
#[derive(Clone, Copy, Debug, PartialEq, Eq, Structural)]
pub enum Event {
    AiScored,
    PlayerScored,
    WallBounce,
    PlayerPaddleBounce,
    OpponentPaddleBounce,
}

/// A discrete key press handed in by the input layer. Anything outside the
/// enumerated set arrives as `Other` and is ignored.
#[derive(Clone, Copy, Debug, PartialEq, Eq, Structural)]
pub enum Key {
    MoveDown,
    MoveUp,
    Quit,
    Other,
}

/// The whole simulation state of one session: the session constants, the
/// screen mode, both paddle tops, the ball, and both score counters.
#[derive(Clone, Copy, Debug)]
pub struct GameState {
    pub cfg: Config,
    pub mode: Mode,
    /// Top edge of the player (left) paddle.
    pub pos_y: i64,
    /// Top edge of the opponent (right) paddle.
    pub opp_y: i64,
    pub ball_x_pos: i64,
    pub ball_y_pos: i64,
    /// Horizontal velocity component; the ball moves by `-ball_x_vel` per tick.
    pub ball_x_vel: i64,
    /// Vertical velocity component; the ball moves by `-ball_y_vel` per tick.
    pub ball_y_vel: i64,
    pub player_score: u32,
    pub ai_score: u32,
}

/// Mathematical image of a `GameState`, with unbounded integer coordinates.
pub ghost struct StateModel {
    pub cfg: ConfigModel,
    pub mode: Mode,
    pub pos_y: int,
    pub opp_y: int,
    pub ball_x_pos: int,
    pub ball_y_pos: int,
    pub ball_x_vel: int,
    pub ball_y_vel: int,
    pub player_score: int,
    pub ai_score: int,
}

impl View for GameState {
    type V = StateModel;

    open spec fn view(&self) -> StateModel {
        StateModel {
            cfg: self.cfg@,
            mode: self.mode,
            pos_y: self.pos_y as int,
            opp_y: self.opp_y as int,
            ball_x_pos: self.ball_x_pos as int,
            ball_y_pos: self.ball_y_pos as int,
            ball_x_vel: self.ball_x_vel as int,
            ball_y_vel: self.ball_y_vel as int,
            player_score: self.player_score as int,
            ai_score: self.ai_score as int,
        }
    }
}

/// `v` forced into `[lo, hi]`, the lower bound winning when `lo > hi`.
pub open spec fn spec_clamp(v: int, lo: int, hi: int) -> int {
    if v < lo {
        lo
    } else if v > hi {
        hi
    } else {
        v
    }
}

impl StateModel {
    /// Invariant of every state a session passes through: a valid
    /// configuration, both paddle tops inside `[0, height - paddle_height]`,
    /// both velocity components of the configured magnitude, and
    /// non-negative scores. Ball coordinates are deliberately not bounded
    /// here: the ball is never repositioned after a score, so it can drift
    /// outside the arena.
    pub open spec fn wf(self) -> bool {
        &&& self.cfg.wf()
        &&& 0 <= self.pos_y <= self.cfg.height - self.cfg.paddle_height
        &&& 0 <= self.opp_y <= self.cfg.height - self.cfg.paddle_height
        &&& (self.ball_x_vel == self.cfg.ball_speed || self.ball_x_vel == -self.cfg.ball_speed)
        &&& (self.ball_y_vel == self.cfg.ball_speed || self.ball_y_vel == -self.cfg.ball_speed)
        &&& 0 <= self.player_score
        &&& 0 <= self.ai_score
    }
}

/// What a key press does to the state: the legacy key control path offsets
/// the player paddle by a whole paddle height, clamped to the arena; other
/// keys change nothing.
pub open spec fn spec_key_step(s: StateModel, key: Key) -> StateModel {
    match key {
        Key::MoveDown => StateModel {
            pos_y: spec_clamp(
                s.pos_y + s.cfg.paddle_height,
                0,
                s.cfg.height - s.cfg.paddle_height,
            ),
            ..s
        },
        Key::MoveUp => StateModel {
            pos_y: spec_clamp(
                s.pos_y - s.cfg.paddle_height,
                0,
                s.cfg.height - s.cfg.paddle_height,
            ),
            ..s
        },
        Key::Quit => s,
        Key::Other => s,
    }
}

/// The per-tick snapshot the presentation layer draws from.
#[derive(Clone, Copy, Debug, PartialEq, Eq, Structural)]
pub struct ViewModel {
    pub mode: Mode,
    pub pos_y: i64,
    pub opp_y: i64,
    pub ball_x_pos: i64,
    pub ball_y_pos: i64,
    pub player_score: u32,
    pub ai_score: u32,
}

impl GameState {
    /// A fresh session: title screen, both paddles vertically centred, the
    /// ball at the arena centre moving up-left (both velocity components
    /// positive and applied by subtraction), no points scored.
    pub fn new(cfg: Config) -> (s: GameState)
        requires
            cfg@.wf(),
        ensures
            s@.wf(),
            s.cfg == cfg,
            s@.mode == Mode::TitleScreen,
            s@.pos_y == cfg@.height / 2 - cfg@.paddle_height / 2,
            s@.opp_y == cfg@.height / 2 - cfg@.paddle_height / 2,
            s@.ball_x_pos == cfg@.width / 2,
            s@.ball_y_pos == cfg@.height / 2,
            s@.ball_x_vel == cfg@.ball_speed,
            s@.ball_y_vel == cfg@.ball_speed,
            s@.player_score == 0,
            s@.ai_score == 0,
    {
        let centred: i64 = cfg.height / 2 - cfg.paddle_height / 2;
        GameState {
            cfg,
            mode: Mode::TitleScreen,
            pos_y: centred,
            opp_y: centred,
            ball_x_pos: cfg.width / 2,
            ball_y_pos: cfg.height / 2,
            ball_x_vel: cfg.ball_speed,
            ball_y_vel: cfg.ball_speed,
            player_score: 0,
            ai_score: 0,
        }
    }

    /// Mode transitions are driven from outside the core (title-screen
    /// "play" trigger, settings toggle); the core only records them.
    pub fn set_mode(&mut self, mode: Mode)
        ensures
            final(self)@ == (StateModel { mode, ..old(self)@ }),
    {
        self.mode = mode;
    }

    /// Apply one discrete key press. Returns whether a quit was requested;
    /// the core never terminates anything itself.
    pub fn handle_key(&mut self, key: Key) -> (quit: bool)
        requires
            old(self)@.wf(),
        ensures
            final(self)@ == spec_key_step(old(self)@, key),
            final(self)@.wf(),
            quit == (key == Key::Quit),
    {
        match key {
            Key::MoveDown => {
                self.pos_y = self.pos_y + self.cfg.paddle_height;
                self.clamp_player_paddle();
                false
            },
            Key::MoveUp => {
                self.pos_y = self.pos_y - self.cfg.paddle_height;
                self.clamp_player_paddle();
                false
            },
            Key::Quit => true,
            Key::Other => false,
        }
    }

    /// Force the player paddle top back into `[0, height - paddle_height]`.
    pub(crate) fn clamp_player_paddle(&mut self)
        requires
            old(self)@.cfg.wf(),
            -POS_LIMIT <= old(self).pos_y <= POS_LIMIT,
        ensures
            final(self)@ == (StateModel {
                pos_y: spec_clamp(
                    old(self)@.pos_y,
                    0,
                    old(self)@.cfg.height - old(self)@.cfg.paddle_height,
                ),
                ..old(self)@
            }),
    {
        if self.pos_y < 0 {
            self.pos_y = 0;
        } else if self.pos_y + self.cfg.paddle_height > self.cfg.height {
            self.pos_y = self.cfg.height - self.cfg.paddle_height;
        }
    }

    /// Force the opponent paddle top back into `[0, height - paddle_height]`.
    pub(crate) fn clamp_opponent_paddle(&mut self)
        requires
            old(self)@.cfg.wf(),
            -POS_LIMIT <= old(self).opp_y <= POS_LIMIT,
        ensures
            final(self)@ == (StateModel {
                opp_y: spec_clamp(
                    old(self)@.opp_y,
                    0,
                    old(self)@.cfg.height - old(self)@.cfg.paddle_height,
                ),
                ..old(self)@
            }),
    {
        if self.opp_y < 0 {
            self.opp_y = 0;
        } else if self.opp_y + self.cfg.paddle_height > self.cfg.height {
            self.opp_y = self.cfg.height - self.cfg.paddle_height;
        }
    }

    /// Everything the presentation layer reads after a tick.
    pub fn render_view(&self) -> (v: ViewModel)
        ensures
            v.mode == self@.mode,
            v.pos_y == self@.pos_y,
            v.opp_y == self@.opp_y,
            v.ball_x_pos == self@.ball_x_pos,
            v.ball_y_pos == self@.ball_y_pos,
            v.player_score == self@.player_score,
            v.ai_score == self@.ai_score,
    {
        ViewModel {
            mode: self.mode,
            pos_y: self.pos_y,
            opp_y: self.opp_y,
            ball_x_pos: self.ball_x_pos,
            ball_y_pos: self.ball_y_pos,
            player_score: self.player_score,
            ai_score: self.ai_score,
        }
    }
}

} // verus!
