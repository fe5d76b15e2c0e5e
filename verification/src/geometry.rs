use vstd::prelude::*;
use crate::config::{DIM_LIMIT, POS_LIMIT};

verus! {

/// The ball overlaps the left wall: its left edge is past `x = 0`.
pub open spec fn spec_ball_hits_left_wall(ball_x: int, radius: int) -> bool {
    ball_x - radius < 0
}

/// The ball overlaps the right wall: its right edge is at or past `x = width`.
pub open spec fn spec_ball_hits_right_wall(ball_x: int, radius: int, width: int) -> bool {
    ball_x + radius >= width
}

/// The ball overlaps the top or the bottom wall.
pub open spec fn spec_ball_hits_top_or_bottom(ball_y: int, radius: int, height: int) -> bool {
    ball_y - radius < 0 || ball_y + radius >= height
}

/// The ball centre lies in a paddle's vertical band `[top, top + height]`.
pub open spec fn spec_ball_in_paddle_band(ball_y: int, paddle_top: int, paddle_height: int) -> bool {
    ball_y >= paddle_top && ball_y <= paddle_top + paddle_height
}

/// The ball's left edge is at or behind the player paddle's front face.
pub open spec fn spec_ball_reaches_player_paddle(ball_x: int, radius: int, paddle_width: int) -> bool {
    ball_x - radius <= paddle_width
}

/// The ball's right edge is at or past the opponent paddle's front face.
pub open spec fn spec_ball_reaches_opponent_paddle(
    ball_x: int,
    radius: int,
    paddle_width: int,
    width: int,
) -> bool {
    ball_x + radius >= width - paddle_width
}

pub fn ball_hits_left_wall(ball_x: i64, radius: i64) -> (r: bool)
    ensures
        r == spec_ball_hits_left_wall(ball_x as int, radius as int),
{
    ball_x < radius
}

pub fn ball_hits_right_wall(ball_x: i64, radius: i64, width: i64) -> (r: bool)
    requires
        -POS_LIMIT - DIM_LIMIT <= ball_x <= POS_LIMIT + DIM_LIMIT,
        0 <= radius <= DIM_LIMIT,
    ensures
        r == spec_ball_hits_right_wall(ball_x as int, radius as int, width as int),
{
    ball_x + radius >= width
}

pub fn ball_hits_top_or_bottom(ball_y: i64, radius: i64, height: i64) -> (r: bool)
    requires
        -POS_LIMIT - DIM_LIMIT <= ball_y <= POS_LIMIT + DIM_LIMIT,
        0 <= radius <= DIM_LIMIT,
    ensures
        r == spec_ball_hits_top_or_bottom(ball_y as int, radius as int, height as int),
{
    ball_y < radius || ball_y + radius >= height
}

pub fn ball_in_paddle_band(ball_y: i64, paddle_top: i64, paddle_height: i64) -> (r: bool)
    requires
        -POS_LIMIT - DIM_LIMIT <= ball_y <= POS_LIMIT + DIM_LIMIT,
        0 <= paddle_top <= DIM_LIMIT,
        0 <= paddle_height <= DIM_LIMIT,
    ensures
        r == spec_ball_in_paddle_band(ball_y as int, paddle_top as int, paddle_height as int),
{
    ball_y >= paddle_top && ball_y <= paddle_top + paddle_height
}

pub fn ball_reaches_player_paddle(ball_x: i64, radius: i64, paddle_width: i64) -> (r: bool)
    requires
        -POS_LIMIT - DIM_LIMIT <= ball_x <= POS_LIMIT + DIM_LIMIT,
        0 <= radius <= DIM_LIMIT,
        0 <= paddle_width <= DIM_LIMIT,
    ensures
        r == spec_ball_reaches_player_paddle(ball_x as int, radius as int, paddle_width as int),
{
    ball_x - radius <= paddle_width
}

pub fn ball_reaches_opponent_paddle(ball_x: i64, radius: i64, paddle_width: i64, width: i64) -> (r: bool)
    requires
        -POS_LIMIT - DIM_LIMIT <= ball_x <= POS_LIMIT + DIM_LIMIT,
        0 <= radius <= DIM_LIMIT,
        0 <= paddle_width <= DIM_LIMIT,
        -DIM_LIMIT <= width <= DIM_LIMIT,
    ensures
        r == spec_ball_reaches_opponent_paddle(
            ball_x as int,
            radius as int,
            paddle_width as int,
            width as int,
        ),
{
    ball_x + radius >= width - paddle_width
}

} // verus!
