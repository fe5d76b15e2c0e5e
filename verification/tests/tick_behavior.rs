use pong::config::Config;
use pong::state::{Event, GameState, Mode};

fn arena() -> Config {
    Config {
        width: 1000,
        height: 700,
        paddle_height: 180,
        paddle_width: 20,
        ball_radius: 12,
        ball_speed: 9,
        difficulty: 3,
        player_speed: 10,
    }
}

/// A playing state with both paddles held and the ball wherever a test puts it.
fn playing(ball_x: i64, ball_y: i64, vx: i64, vy: i64) -> GameState {
    let mut s = GameState::new(arena());
    s.set_mode(Mode::Play);
    s.ball_x_pos = ball_x;
    s.ball_y_pos = ball_y;
    s.ball_x_vel = vx;
    s.ball_y_vel = vy;
    s
}

/// Pointer position whose target equals the paddle's current top: the paddle holds.
fn holding_pointer(s: &GameState) -> i64 {
    s.pos_y + s.cfg.paddle_height / 2
}

#[test]
fn ball_moves_by_negated_velocity() {
    let mut s = playing(500, 350, 9, 9);
    let p = holding_pointer(&s);
    let ev = s.tick(p);
    assert_eq!(s.ball_x_pos, 491);
    assert_eq!(s.ball_y_pos, 341);
    assert_eq!(ev, None);
}

#[test]
fn left_wall_crossing_scores_opponent() {
    let mut s = playing(20, 350, 9, 9);
    let p = holding_pointer(&s);
    let ev = s.tick(p);
    assert_eq!(ev, Some(Event::AiScored));
    assert_eq!(s.ai_score, 1);
    assert_eq!(s.player_score, 0);
    assert_eq!(s.ball_x_vel, -9);
    assert_eq!(s.ball_y_vel, 9);
}

#[test]
fn right_wall_crossing_scores_player() {
    let mut s = playing(980, 350, -9, 9);
    let p = holding_pointer(&s);
    let ev = s.tick(p);
    assert_eq!(ev, Some(Event::PlayerScored));
    assert_eq!(s.player_score, 1);
    assert_eq!(s.ai_score, 0);
    assert_eq!(s.ball_x_vel, 9);
}

#[test]
fn top_wall_bounce_flips_vy_only() {
    let mut s = playing(500, 20, 9, 9);
    let p = holding_pointer(&s);
    let ev = s.tick(p);
    assert_eq!(ev, Some(Event::WallBounce));
    assert_eq!(s.ball_y_vel, -9);
    assert_eq!(s.ball_x_vel, 9);
    assert_eq!(s.player_score, 0);
    assert_eq!(s.ai_score, 0);
}

#[test]
fn bottom_wall_bounce_flips_vy_only() {
    let mut s = playing(500, 680, 9, -9);
    let p = holding_pointer(&s);
    let ev = s.tick(p);
    assert_eq!(ev, Some(Event::WallBounce));
    assert_eq!(s.ball_y_pos, 689);
    assert_eq!(s.ball_y_vel, 9);
    assert_eq!(s.ball_x_vel, 9);
}

#[test]
fn player_paddle_bounce_flips_vx() {
    // Ball arrives at (30, 300), inside the player band [260, 440] and at
    // the paddle front (30 - 12 <= 20).
    let mut s = playing(39, 309, 9, 9);
    let p = holding_pointer(&s);
    let ev = s.tick(p);
    assert_eq!(ev, Some(Event::PlayerPaddleBounce));
    assert_eq!(s.ball_x_vel, -9);
    assert_eq!(s.player_score, 0);
    assert_eq!(s.ai_score, 0);
}

#[test]
fn opponent_paddle_bounce_flips_vx() {
    // Ball arrives at (970, 300), inside the opponent band and at the
    // opponent front (970 + 12 >= 980).
    let mut s = playing(961, 309, -9, 9);
    let p = holding_pointer(&s);
    let ev = s.tick(p);
    assert_eq!(ev, Some(Event::OpponentPaddleBounce));
    assert_eq!(s.ball_x_vel, 9);
}

#[test]
fn wall_bounce_wins_over_paddle_bounce() {
    // After moving, the ball sits at (30, 8): overlapping the top wall and
    // at the player paddle front inside its band (paddle clamped to 0).
    let mut s = playing(39, 17, 9, 9);
    s.pos_y = 0;
    let p = holding_pointer(&s);
    let ev = s.tick(p);
    assert_eq!(ev, Some(Event::WallBounce));
    assert_eq!(s.ball_y_vel, -9);
    // No double flip: the paddle branch was never reached.
    assert_eq!(s.ball_x_vel, 9);
}

#[test]
fn scoring_does_not_recenter_ball() {
    // Ball height kept outside both paddle bands so the rebound is clean.
    let mut s = playing(20, 100, 9, 9);
    let p = holding_pointer(&s);
    assert_eq!(s.tick(p), Some(Event::AiScored));
    // The ball carries on from its position beside the wall.
    assert_eq!(s.ball_x_pos, 11);
    let ev = s.tick(p);
    assert_eq!(ev, None);
    assert_eq!(s.ball_x_pos, 20);
    assert_eq!(s.ai_score, 1);
}

#[test]
fn trapped_ball_scores_every_tick() {
    // A ball deep behind the left wall oscillates there and the crossing
    // condition fires on every tick.
    let mut s = playing(2, 350, -9, 9);
    let p = holding_pointer(&s);
    for _ in 0..4 {
        assert_eq!(s.tick(p), Some(Event::AiScored));
    }
    assert_eq!(s.ai_score, 4);
}

#[test]
fn paddle_chases_pointer_with_deadband() {
    let mut s = playing(500, 350, 9, 9);
    assert_eq!(s.pos_y, 260);
    // Target 271 is 11 above the top: move down by player_speed.
    s.tick(361);
    assert_eq!(s.pos_y, 270);
    // Target exactly deadband away: hold.
    let mut s2 = playing(500, 350, 9, 9);
    s2.tick(360);
    assert_eq!(s2.pos_y, 260);
    // Target 11 below: move up by player_speed.
    let mut s3 = playing(500, 350, 9, 9);
    s3.tick(339);
    assert_eq!(s3.pos_y, 250);
    // Target 10 below: hold.
    let mut s4 = playing(500, 350, 9, 9);
    s4.tick(340);
    assert_eq!(s4.pos_y, 260);
}

#[test]
fn player_paddle_clamped_at_edges() {
    let mut s = playing(500, 350, 9, 9);
    s.pos_y = 5;
    // Pointer far above: the step would overshoot the top edge.
    s.tick(-1000);
    assert_eq!(s.pos_y, 0);
    s.tick(-1000);
    assert_eq!(s.pos_y, 0);
    let mut s2 = playing(500, 350, 9, 9);
    s2.pos_y = 515;
    s2.tick(100000);
    assert_eq!(s2.pos_y, 520);
    s2.tick(100000);
    assert_eq!(s2.pos_y, 520);
}

#[test]
fn opponent_drifts_up_until_clamped() {
    // Ball far above the arena, moving further up: the opponent steps up by
    // exactly its difficulty each tick until the arena edge stops it.
    let mut s = playing(500, -500, 9, 9);
    s.opp_y = 10;
    let p = holding_pointer(&s);
    s.tick(p);
    assert_eq!(s.opp_y, 7);
    s.tick(p);
    assert_eq!(s.opp_y, 4);
    s.tick(p);
    assert_eq!(s.opp_y, 1);
    s.tick(p);
    assert_eq!(s.opp_y, 0);
    s.tick(p);
    assert_eq!(s.opp_y, 0);
}

#[test]
fn opponent_drifts_down_until_clamped() {
    let mut s = playing(500, 1500, 9, -9);
    s.opp_y = 514;
    let p = holding_pointer(&s);
    s.tick(p);
    assert_eq!(s.opp_y, 517);
    s.tick(p);
    assert_eq!(s.opp_y, 520);
    s.tick(p);
    assert_eq!(s.opp_y, 520);
}

#[test]
fn opponent_holds_while_ball_in_band() {
    let mut s = playing(500, 350, 9, 9);
    s.opp_y = 260;
    let p = holding_pointer(&s);
    s.tick(p);
    assert_eq!(s.opp_y, 260);
}

#[test]
fn title_screen_tick_is_frozen() {
    let mut s = playing(20, 20, 9, 9);
    s.set_mode(Mode::TitleScreen);
    let before = s.render_view();
    let ev = s.tick(-777);
    assert_eq!(ev, None);
    assert_eq!(s.render_view(), before);
    assert_eq!(s.ball_x_vel, 9);
    assert_eq!(s.ball_y_vel, 9);
}

#[test]
fn settings_tick_is_frozen() {
    let mut s = playing(20, 20, 9, 9);
    s.set_mode(Mode::Settings);
    let before = s.render_view();
    let ev = s.tick(99999);
    assert_eq!(ev, None);
    assert_eq!(s.render_view(), before);
}

#[test]
fn full_rally_until_first_point() {
    // Arena 1000x700, paddles 180 tall, radius 12, ball from (500, 350) at
    // component speed 9, pointer held at the arena centre. The ball bounces
    // off the top wall on tick 38 and crosses the left wall on tick 55.
    let mut s = playing(500, 350, 9, 9);
    let p = holding_pointer(&s);
    let mut events: Vec<(usize, Event)> = Vec::new();
    for n in 1..=55 {
        if let Some(ev) = s.tick(p) {
            events.push((n, ev));
        }
    }
    assert_eq!(events, vec![(38, Event::WallBounce), (55, Event::AiScored)]);
    assert_eq!(s.ai_score, 1);
    assert_eq!(s.player_score, 0);
    // Direction reversed by the crossing: the stored component flips 9 -> -9.
    assert_eq!(s.ball_x_vel, -9);
    assert_eq!(s.ball_y_vel, -9);
    assert_eq!(s.ball_x_pos, 5);
    assert_eq!(s.ball_y_pos, 161);
    assert_eq!(s.pos_y, 260);
    assert_eq!(s.opp_y, 131);
}
