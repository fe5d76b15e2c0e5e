use vstd::prelude::*;

verus! {

/// Largest value allowed for any arena or motion constant. Keeping the
/// session constants small guarantees that every per-tick arithmetic step
/// stays far away from the `i64` range.
pub const DIM_LIMIT: i64 = 1000000;

/// Largest magnitude a ball coordinate may have when a tick starts. The
/// ball is never repositioned after a score, so its coordinates can leave
/// the arena; this bound only keeps the integer arithmetic safe.
pub const POS_LIMIT: i64 = 1000000000000;

/// Pointer jitter band: the player paddle only chases the pointer when the
/// target differs from the current position by more than this many units.
pub const DEADBAND: i64 = 10;

/// The constants of one session: arena size, paddle size, ball radius and
/// the three motion magnitudes. All are fixed when the session starts.
#[derive(Clone, Copy, Debug, PartialEq, Eq, Structural)]
pub struct Config {
    /// Arena width.
    pub width: i64,
    /// Arena height.
    pub height: i64,
    /// Vertical extent of each paddle.
    pub paddle_height: i64,
    /// Horizontal extent of each paddle.
    pub paddle_width: i64,
    /// Ball radius.
    pub ball_radius: i64,
    /// Magnitude of each ball velocity component.
    pub ball_speed: i64,
    /// Per-tick step of the heuristic opponent paddle.
    pub difficulty: i64,
    /// Per-tick step of the pointer-chasing player paddle.
    pub player_speed: i64,
}

/// Mathematical image of a `Config`: the same constants as unbounded integers.
pub ghost struct ConfigModel {
    pub width: int,
    pub height: int,
    pub paddle_height: int,
    pub paddle_width: int,
    pub ball_radius: int,
    pub ball_speed: int,
    pub difficulty: int,
    pub player_speed: int,
}

impl View for Config {
    type V = ConfigModel;

    open spec fn view(&self) -> ConfigModel {
        ConfigModel {
            width: self.width as int,
            height: self.height as int,
            paddle_height: self.paddle_height as int,
            paddle_width: self.paddle_width as int,
            ball_radius: self.ball_radius as int,
            ball_speed: self.ball_speed as int,
            difficulty: self.difficulty as int,
            player_speed: self.player_speed as int,
        }
    }
}

impl ConfigModel {
    /// A session configuration is valid when every constant is positive and
    /// moderate, the paddles fit inside the arena vertically, and the ball
    /// fits between the side walls.
    pub open spec fn wf(self) -> bool {
        &&& 1 <= self.width <= DIM_LIMIT as int
        &&& 1 <= self.height <= DIM_LIMIT as int
        &&& 1 <= self.paddle_height <= self.height
        &&& 1 <= self.paddle_width <= self.width
        &&& 1 <= self.ball_radius
        &&& 2 * self.ball_radius <= self.width
        &&& 1 <= self.ball_speed <= DIM_LIMIT as int
        &&& 1 <= self.difficulty <= DIM_LIMIT as int
        &&& 1 <= self.player_speed <= DIM_LIMIT as int
    }
}

impl Config {
    /// Startup-time validity check: configuration faults are rejected once,
    /// before a session begins, never per tick.
    pub fn is_valid(&self) -> (r: bool)
        ensures
            r == self@.wf(),
    {
        self.width >= 1 && self.width <= DIM_LIMIT
            && self.height >= 1 && self.height <= DIM_LIMIT
            && self.paddle_height >= 1 && self.paddle_height <= self.height
            && self.paddle_width >= 1 && self.paddle_width <= self.width
            && self.ball_radius >= 1 && self.ball_radius <= self.width - self.ball_radius
            && self.ball_speed >= 1 && self.ball_speed <= DIM_LIMIT
            && self.difficulty >= 1 && self.difficulty <= DIM_LIMIT
            && self.player_speed >= 1 && self.player_speed <= DIM_LIMIT
    }
}

} // verus!
