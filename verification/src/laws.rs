//! What holds of every session, stated over the functions that say what a
//! key, a tick and the end of a round do.

use vstd::prelude::*;
use crate::angle::{is_launch_angle, launch_keeps_speed_and_direction};
use crate::game::{
    ball_moved, fresh_ball, played, pressed, round_settled, ticked, Game, Key, CENTER_X, CENTER_Y,
};
use crate::grid::{YMAX, YMIN};
use crate::physics::{exit_winner, Player};
use crate::thing::{moved_down, moved_up, Thing};

verus! {

/// A paddle whose span lies strictly between the top and the bottom border
/// still lies there after a move up and after a move down, and either move
/// shifts it by one row at most.
pub proof fn paddle_move_stays_inside(paddle: Thing)
    requires
        paddle.inside_borders(),
    ensures
        moved_up(paddle).inside_borders(),
        moved_down(paddle).inside_borders(),
        YMIN < moved_up(paddle).ypos <= paddle.ypos <= moved_down(paddle).ypos,
        moved_down(paddle).ypos + paddle.size < YMAX,
        paddle.ypos - moved_up(paddle).ypos <= 1,
        moved_down(paddle).ypos - paddle.ypos <= 1,
{
}

/// Whatever key is pressed, the session stays one that the game can be in:
/// in particular both paddles keep their spans strictly between the top and
/// the bottom border. No key changes the score.
pub proof fn key_keeps_session_sound(g: Game, key: Key, angle: int)
    requires
        g.wf(),
        is_launch_angle(angle),
    ensures
        pressed(g, key, angle).wf(),
        pressed(g, key, angle).player1.inside_borders(),
        pressed(g, key, angle).player2.inside_borders(),
        pressed(g, key, angle).score == g.score,
{
    launch_keeps_speed_and_direction(angle, g.ball_step as int);
}

/// A digit pressed while the ball is in flight changes nothing at all.
pub proof fn speed_is_locked_in_flight(g: Game, c: char, angle: int)
    requires
        g.init_ball,
        '1' <= c <= '9',
    ensures
        pressed(g, Key::Char(c), angle) == g,
{
}

/// Once a round has a winner, keeping its end puts the ball in the centre,
/// at rest and idle, whatever its velocity was; keeping it a second time
/// changes nothing.
pub proof fn round_end_resets_ball(g: Game)
    requires
        g.round_winner is Some,
    ensures
        round_settled(g).ball == fresh_ball(),
        round_settled(g).ball.xpos == CENTER_X,
        round_settled(g).ball.ypos == CENTER_Y,
        round_settled(g).ball.xmov == 0,
        round_settled(g).ball.ymov == 0,
        !round_settled(g).init_ball,
        round_settled(g).round_winner is None,
        round_settled(round_settled(g)) == round_settled(g),
{
}

/// The tick in which the ball leaves the field ends with the ball in the
/// centre, at rest and idle.
pub proof fn tick_resets_ball_after_exit(g: Game, key: Option<Key>, angle: int)
    requires
        g.wf(),
        is_launch_angle(angle),
        key != Some(Key::Esc),
        played(g, key, angle).round_winner is Some,
    ensures
        ticked(g, key, angle).ball == fresh_ball(),
        !ticked(g, key, angle).init_ball,
        ticked(g, key, angle).round_winner is None,
{
}

/// A tick leaves the session one that the game can be in.
pub proof fn tick_keeps_session_sound(g: Game, key: Option<Key>, angle: int)
    requires
        g.wf(),
        is_launch_angle(angle),
    ensures
        ticked(g, key, angle).wf(),
{
    match key {
        Some(k) => {
            key_keeps_session_sound(g, k, angle);
        },
        None => {},
    }
}

/// A tick gives one point to the winner of the round that ends in it and
/// changes no score otherwise: no score ever falls, and the two together
/// grow by one at most.
pub proof fn score_grows_by_one_per_round(g: Game, key: Option<Key>, angle: int)
    requires
        g.wf(),
        g.can_score(),
        is_launch_angle(angle),
    ensures
        ({
            let after = ticked(g, key, angle).score;
            let winner = if key == Some(Key::Esc) {
                None
            } else {
                played(g, key, angle).round_winner
            };
            match winner {
                Some(Player::One) => after.0 == g.score.0 + 1 && after.1 == g.score.1,
                Some(Player::Two) => after.0 == g.score.0 && after.1 == g.score.1 + 1,
                None => after == g.score,
            }
        }),
        ticked(g, key, angle).score.0 >= g.score.0,
        ticked(g, key, angle).score.1 >= g.score.1,
{
    match key {
        Some(k) => {
            key_keeps_session_sound(g, k, angle);
        },
        None => {},
    }
}

/// The round has a winner after the ball has moved exactly when the ball
/// was in flight, the game not paused, and the ball has reached the left or
/// the right bound: player two wins at the left, player one at the right.
pub proof fn winner_is_named_at_the_bounds(g: Game)
    requires
        g.wf(),
    ensures
        ball_moved(g).round_winner == if g.init_ball && !g.is_paused {
            exit_winner(ball_moved(g).ball.xpos as int)
        } else {
            None
        },
{
}

} // verus!
