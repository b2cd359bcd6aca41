//! One tick of the ball in flight: movement, the walls, the paddles.

use vstd::prelude::*;
use crate::grid::{CELL, XMAX, XMIN, YMAX, YMIN};
use crate::thing::{advanced, Thing};

verus! {

/// One of the two players. Player one holds the left paddle.
#[derive(Clone, Copy, Debug, PartialEq, Eq, Structural)]
pub enum Player {
    /// The player of the left paddle.
    One,
    /// The player of the right paddle.
    Two,
}

/// Who wins the round when the ball stands in column `xpos`: player two
/// once the ball has reached the left bound, player one once it has reached
/// the right bound, nobody in between.
pub open spec fn exit_winner(xpos: int) -> Option<Player> {
    if xpos <= XMIN {
        Some(Player::Two)
    } else if xpos >= XMAX {
        Some(Player::One)
    } else {
        None
    }
}

/// The span of the ball touches or crosses the top or the bottom border.
pub open spec fn touches_border(ball: Thing) -> bool {
    ball.ypos <= YMIN || ball.ypos + ball.size >= YMAX
}

/// The ball stands in the column of the paddle, on one of its rows.
pub open spec fn hits(ball: Thing, paddle: Thing) -> bool {
    ball.xpos == paddle.xpos && paddle.spans(ball.ypos as int)
}

/// The ball lies below the bottom bound.
pub open spec fn overshoots(ball: Thing) -> bool {
    ball.yfine > YMAX * CELL
}

/// The ball set back to the row of the bottom border.
pub open spec fn clamped(ball: Thing) -> Thing {
    Thing { ypos: (YMAX - 1) as u16, yfine: ((YMAX - 1) * CELL) as u64, ..ball }
}

/// The ball after one tick in flight. It moves by its velocity; on the top
/// or bottom border its vertical velocity changes sign; on a paddle its
/// horizontal velocity changes sign; below the bottom bound it is set back.
pub open spec fn stepped(ball: Thing, player1: Thing, player2: Thing) -> Thing {
    let moved = advanced(ball);
    let ymov = if touches_border(moved) { -moved.ymov } else { moved.ymov as int };
    let xmov = if hits(moved, player1) || hits(moved, player2) {
        -moved.xmov
    } else {
        moved.xmov as int
    };
    let bounced = Thing { xmov: xmov as i32, ymov: ymov as i32, ..moved };
    if overshoots(bounced) {
        clamped(bounced)
    } else {
        bounced
    }
}

/// Who wins the round with the ball in column `xpos`.
pub fn winner_at(xpos: u16) -> (winner: Option<Player>)
    ensures
        winner == exit_winner(xpos as int),
{
    if xpos <= XMIN {
        Some(Player::Two)
    } else if xpos >= XMAX {
        Some(Player::One)
    } else {
        None
    }
}

/// Moves the ball for one tick and lets it bounce. Returns the winner of the
/// round where the ball has left the field to the left or to the right.
pub fn step_ball(ball: &mut Thing, player1: &Thing, player2: &Thing) -> (winner: Option<Player>)
    requires
        old(ball).can_advance(),
    ensures
        *final(ball) == stepped(*old(ball), *player1, *player2),
        winner == exit_winner(final(ball).xpos as int),
        final(ball).aligned(),
        final(ball).slow(),
{
    ball.advance();
    let winner = winner_at(ball.xpos);
    if ball.ypos <= YMIN || ball.ypos as u32 + ball.size as u32 >= YMAX as u32 {
        ball.ymov = -ball.ymov;
    }
    if (ball.xpos == player1.xpos && player1.covers(ball.ypos)) || (ball.xpos == player2.xpos
        && player2.covers(ball.ypos)) {
        ball.xmov = -ball.xmov;
    }
    if ball.yfine > YMAX as u64 * CELL {
        ball.yfine = (YMAX - 1) as u64 * CELL;
        ball.ypos = YMAX - 1;
    }
    winner
}

/// A bounce off the top or bottom border turns the vertical velocity round
/// and keeps its size; without one the vertical velocity stays as it was.
pub proof fn bounce_flips_vertical_velocity(ball: Thing, player1: Thing, player2: Thing)
    requires
        ball.can_advance(),
    ensures
        touches_border(advanced(ball)) ==> stepped(ball, player1, player2).ymov == -ball.ymov,
        !touches_border(advanced(ball)) ==> stepped(ball, player1, player2).ymov == ball.ymov,
{
}

/// A hit on a paddle turns the horizontal velocity round and keeps its
/// size; without one the horizontal velocity stays as it was.
pub proof fn paddle_flips_horizontal_velocity(ball: Thing, player1: Thing, player2: Thing)
    requires
        ball.can_advance(),
    ensures
        hits(advanced(ball), player1) || hits(advanced(ball), player2) ==> stepped(
            ball,
            player1,
            player2,
        ).xmov == -ball.xmov,
        !(hits(advanced(ball), player1) || hits(advanced(ball), player2)) ==> stepped(
            ball,
            player1,
            player2,
        ).xmov == ball.xmov,
{
}

} // verus!
