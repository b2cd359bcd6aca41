//! The session: what the keys do, when the ball moves, how a round ends.

use vstd::prelude::*;
use vstd::string::StringSliceAdditionalSpecFns;
use rand::rngs::ThreadRng;
use crate::angle::{
    is_launch_angle, is_level, launch_velocity, velocity_for, MAX_LEVEL, MIN_LEVEL, START_LEVEL,
};
use crate::chance::draw_angle;
use crate::field::{blank_frame, fits, holds, overwritten, stamped, Field};
use crate::grid::{flat_index, CELL, PIXEL_BALL, PIXEL_SOLID, XMAX, XMIN, YMAX, YMIN};
use crate::overlay::{
    debug_line, fixed_text_lengths, help_hint, label_lengths, left_keys, make_debug_line,
    make_score_label, make_speed_label, right_keys, score_label, space_keys, speed_label, Launch,
};
use crate::physics::{exit_winner, step_ball, stepped, Player};
use crate::thing::{moved_down, moved_up, resting, Thing};

verus! {

/// A frame is drawn on every tick whose count reaches this number.
pub const TICK_THRESHOLD: usize = 2;

/// The number of rows that a paddle covers.
pub const PADDLE_SIZE: u16 = 4;

/// The column of the left paddle, `XMIN + 5`.
pub const PADDLE1_X: u16 = 5;

/// The column of the right paddle, `XMAX - 5`.
pub const PADDLE2_X: u16 = 74;

/// The first row of a paddle when the game begins, `(YMAX - YMIN) / 2 - 1`.
pub const PADDLE_START_Y: u16 = 11;

/// The column of the centre, `XMAX / 2`.
pub const CENTER_X: u16 = 39;

/// The row of the centre, `YMAX / 2`.
pub const CENTER_Y: u16 = 12;

/// Where the paddles and the ball stand when a round begins: the paddles
/// five columns inside the bounds, one row above the middle, the ball in the
/// middle.
pub proof fn layout_constants()
    ensures
        PADDLE1_X == XMIN + 5,
        PADDLE2_X == XMAX - 5,
        PADDLE_START_Y == (YMAX - YMIN) / 2 - 1,
        CENTER_X == XMAX / 2,
        CENTER_Y == YMAX / 2,
{
}

/// A key press, as far as the game tells keys apart.
#[derive(Clone, Copy, Debug, PartialEq, Eq, Structural)]
pub enum Key {
    /// The escape key.
    Esc,
    /// The key of a character, pressed without a modifier.
    Char(char),
    /// Any other key.
    Other,
}

/// The state of a session.
#[derive(Clone, Copy, Debug)]
pub struct Game {
    /// The ball.
    pub ball: Thing,
    /// The left paddle.
    pub player1: Thing,
    /// The right paddle.
    pub player2: Thing,
    /// While set, the ball does not move.
    pub is_paused: bool,
    /// The ball is in flight.
    pub init_ball: bool,
    /// The winner of the round that has just ended, until the score is kept.
    pub round_winner: Option<Player>,
    /// The rounds won by player one and by player two.
    pub score: (u64, u64),
    /// The ticks since the last frame.
    pub tick_counter: usize,
    /// The selected speed level, in tenths of a cell per tick.
    pub ball_step: u8,
    /// The frame shows the debug line.
    pub show_debug: bool,
    /// The frame shows the help in place of the hint.
    pub show_help: bool,
    /// The last launch, for the debug line.
    pub last_launch: Option<Launch>,
}

/// The ball at rest in the centre.
pub open spec fn fresh_ball() -> Thing {
    resting(CENTER_X, CENTER_Y, 1, PIXEL_BALL)
}

/// A paddle at rest in column `x`, where it stands when the game begins.
pub open spec fn fresh_paddle(x: u16) -> Thing {
    resting(x, PADDLE_START_Y, PADDLE_SIZE, PIXEL_SOLID)
}

/// The session when the game begins.
pub open spec fn new_game() -> Game {
    Game {
        ball: fresh_ball(),
        player1: fresh_paddle(PADDLE1_X),
        player2: fresh_paddle(PADDLE2_X),
        is_paused: false,
        init_ball: false,
        round_winner: None,
        score: (0, 0),
        tick_counter: 0,
        ball_step: START_LEVEL,
        show_debug: false,
        show_help: false,
        last_launch: None,
    }
}

/// `p` is a paddle of column `x`: at rest, of the size and glyph of a paddle,
/// its span strictly between the top and the bottom border.
pub open spec fn is_paddle(p: Thing, x: int) -> bool {
    &&& p.xpos == x
    &&& p.size == PADDLE_SIZE
    &&& p.pixel == PIXEL_SOLID
    &&& p.xmov == 0
    &&& p.ymov == 0
    &&& p.xfine == x * CELL
    &&& p.aligned()
    &&& p.inside_borders()
}

/// `ball` is a ball in flight at the start of a tick: between the left and
/// the right bound, no faster than a cell per tick, and neither it nor its
/// next fine position above the top or below the bottom bound.
pub open spec fn in_play(ball: Thing) -> bool {
    &&& ball.size == 1
    &&& ball.pixel == PIXEL_BALL
    &&& ball.aligned()
    &&& ball.slow()
    &&& XMIN < ball.xpos < XMAX
    &&& ball.yfine < YMAX * CELL
    &&& 0 <= ball.yfine + ball.ymov < YMAX * CELL
}

/// The speed level that the key of character `c` selects, if it selects one.
pub open spec fn digit_level(c: char) -> Option<u8> {
    if '1' <= c <= '9' {
        Some((c as u8 - '0' as u8) as u8)
    } else {
        None
    }
}

/// The session after the idle ball is launched at `angle` degrees.
pub open spec fn launched(g: Game, angle: int) -> Game {
    let v = launch_velocity(angle, g.ball_step as int);
    Game {
        init_ball: true,
        ball: Thing { xmov: v.0 as i32, ymov: v.1 as i32, ..g.ball },
        last_launch: Some(Launch { angle: angle as i32, xmov: v.0 as i32, ymov: v.1 as i32 }),
        ..g
    }
}

/// The session after the space bar: a ball in flight is taken back to the
/// centre, an idle ball is launched at `angle` degrees.
pub open spec fn space_pressed(g: Game, angle: int) -> Game {
    if g.init_ball {
        Game { init_ball: false, ball: fresh_ball(), ..g }
    } else {
        launched(g, angle)
    }
}

/// The session after the key of character `c`, where `angle` is the angle
/// of the launch in case the key launches the ball.
pub open spec fn char_pressed(g: Game, c: char, angle: int) -> Game {
    if c == 'h' {
        Game { show_help: !g.show_help, ..g }
    } else if c == 'd' {
        Game { show_debug: !g.show_debug, ..g }
    } else if c == 'p' {
        Game { is_paused: !g.is_paused, ..g }
    } else if c == ' ' {
        space_pressed(g, angle)
    } else if c == 'a' {
        Game { player1: moved_up(g.player1), ..g }
    } else if c == 'z' {
        Game { player1: moved_down(g.player1), ..g }
    } else if c == 'k' {
        Game { player2: moved_up(g.player2), ..g }
    } else if c == 'm' {
        Game { player2: moved_down(g.player2), ..g }
    } else {
        match digit_level(c) {
            Some(level) if !g.init_ball => Game { ball_step: level, ..g },
            _ => g,
        }
    }
}

/// The session after `key`. The escape key and the keys that the game does
/// not know change nothing.
pub open spec fn pressed(g: Game, key: Key, angle: int) -> Game {
    match key {
        Key::Char(c) => char_pressed(g, c, angle),
        _ => g,
    }
}

/// `key` launches the ball in session `g`, so an angle has to be drawn.
pub open spec fn launches(g: Game, key: Key) -> bool {
    key == Key::Char(' ') && !g.init_ball
}

/// The session after the ball has moved for one tick: it has bounced where
/// it met a border or a paddle, and the round has a winner where the ball
/// has left the field. A ball that is idle or paused stays.
pub open spec fn ball_moved(g: Game) -> Game {
    if g.init_ball && !g.is_paused {
        let ball = stepped(g.ball, g.player1, g.player2);
        let winner = exit_winner(ball.xpos as int);
        Game { ball: ball, round_winner: if winner is Some { winner } else { g.round_winner }, ..g }
    } else {
        g
    }
}

/// The score after one more round won by `winner`.
pub open spec fn score_after(score: (u64, u64), winner: Player) -> (u64, u64) {
    match winner {
        Player::One => ((score.0 + 1) as u64, score.1),
        Player::Two => (score.0, (score.1 + 1) as u64),
    }
}

/// The session after the end of the round is kept: the winner has one more
/// point, the ball is idle in the centre. Without a winner nothing changes.
pub open spec fn round_settled(g: Game) -> Game {
    match g.round_winner {
        Some(winner) => Game {
            score: score_after(g.score, winner),
            round_winner: None,
            init_ball: false,
            ball: fresh_ball(),
            ..g
        },
        None => g,
    }
}

/// The frame with `bytes` written forward from column `x` of row `y`.
pub open spec fn shown(frame: Seq<u8>, x: int, y: int, bytes: Seq<u8>) -> Seq<u8> {
    overwritten(frame, flat_index(x, y), bytes)
}

/// The frame with the debug line in row two, where the debug line is on.
pub open spec fn with_debug(frame: Seq<u8>, g: Game) -> Seq<u8> {
    if g.show_debug {
        shown(frame, 3, 2, debug_line(g.last_launch))
    } else {
        frame
    }
}

/// The frame with the help, where the help is on: the speed in the top row
/// and the keys in the bottom row; else with the hint in the top row.
pub open spec fn with_help(frame: Seq<u8>, g: Game) -> Seq<u8> {
    if g.show_help {
        let a = shown(frame, 3, YMIN as int, speed_label(g.ball_step as nat));
        let b = shown(a, 2, YMAX - 1, left_keys());
        let c = shown(b, XMAX - 17, YMAX - 1, right_keys());
        shown(c, XMAX / 2 - 9, YMAX - 1, space_keys())
    } else {
        shown(frame, XMIN + 2, YMIN as int, help_hint())
    }
}

/// The frame with the two scores in the top row, left and right of the net.
pub open spec fn with_scores(frame: Seq<u8>, g: Game) -> Seq<u8> {
    let a = shown(frame, XMAX / 2 - 4, YMIN as int, score_label(g.score.0 as nat));
    shown(a, XMAX / 2 + 2, YMIN as int, score_label(g.score.1 as nat))
}

/// The frame that shows session `g`: the empty playfield, over it the debug
/// line, the help or the hint and the scores, and over those the ball and
/// the two paddles.
pub open spec fn frame_of(g: Game) -> Seq<u8> {
    let texts = with_scores(with_help(with_debug(blank_frame(), g), g), g);
    stamped(stamped(stamped(texts, g.ball), g.player1), g.player2)
}

/// What a tick asks of the caller.
#[derive(Clone, Copy, Debug, PartialEq, Eq, Structural)]
pub enum Outcome {
    /// The escape key was pressed: the game is over.
    Quit,
    /// No frame is due.
    Wait,
    /// The buffer holds a new frame to paint.
    Repaint,
    /// A frame is due, but the ball lies beyond the buffer, so none was
    /// drawn.
    OffField,
}

/// The tick that begins in session `g` draws a frame.
pub open spec fn frame_due(g: Game) -> bool {
    g.tick_counter + 1 == TICK_THRESHOLD
}

/// The session of a tick after the key and the movement of the ball, as the
/// frame of that tick shows it.
pub open spec fn played(g: Game, key: Option<Key>, angle: int) -> Game {
    match key {
        Some(k) => ball_moved(pressed(g, k, angle)),
        None => ball_moved(g),
    }
}

/// The session after one tick: the key, the movement of the ball, the count
/// of ticks, the end of the round. The escape key leaves the session as it is.
pub open spec fn ticked(g: Game, key: Option<Key>, angle: int) -> Game {
    if key == Some(Key::Esc) {
        g
    } else {
        let p = played(g, key, angle);
        round_settled(
            Game {
                tick_counter: if frame_due(g) {
                    0
                } else {
                    (g.tick_counter + 1) as usize
                },
                ..p
            },
        )
    }
}

/// What the tick that begins in session `g` asks of the caller.
pub open spec fn tick_outcome(g: Game, key: Option<Key>, angle: int) -> Outcome {
    if key == Some(Key::Esc) {
        Outcome::Quit
    } else if !frame_due(g) {
        Outcome::Wait
    } else if fits(played(g, key, angle).ball) {
        Outcome::Repaint
    } else {
        Outcome::OffField
    }
}

/// The buffer after the tick that begins in session `g`: the new frame where
/// one was drawn, else what it held before.
pub open spec fn tick_frame(g: Game, key: Option<Key>, angle: int, before: Seq<u8>) -> Seq<u8> {
    if tick_outcome(g, key, angle) == Outcome::Repaint {
        frame_of(played(g, key, angle))
    } else {
        before
    }
}

impl Game {
    /// The session is one that the game can be in between two ticks.
    pub open spec fn wf(self) -> bool {
        &&& is_paddle(self.player1, PADDLE1_X as int)
        &&& is_paddle(self.player2, PADDLE2_X as int)
        &&& is_level(self.ball_step as int)
        &&& self.tick_counter < TICK_THRESHOLD
        &&& self.round_winner is None
        &&& if self.init_ball {
            in_play(self.ball)
        } else {
            self.ball == fresh_ball()
        }
    }

    /// Both scores can still grow by one.
    pub open spec fn can_score(self) -> bool {
        self.score.0 < u64::MAX && self.score.1 < u64::MAX
    }

    /// Whether the session is one that the game can be in between two ticks.
    pub fn is_valid(&self) -> (b: bool)
        ensures
            b == self.wf(),
    {
        let ball_ok = if self.init_ball {
            ball_in_play(&self.ball)
        } else {
            let b = &self.ball;
            b.xpos == CENTER_X && b.ypos == CENTER_Y && b.size == 1 && b.pixel == PIXEL_BALL
                && b.xmov == 0 && b.ymov == 0 && b.xfine == CENTER_X as u64 * CELL && b.yfine
                == CENTER_Y as u64 * CELL
        };
        let no_winner = match self.round_winner {
            Some(_) => false,
            None => true,
        };
        paddle_ok(&self.player1, PADDLE1_X) && paddle_ok(&self.player2, PADDLE2_X) && MIN_LEVEL
            <= self.ball_step && self.ball_step <= MAX_LEVEL && self.tick_counter < TICK_THRESHOLD
            && no_winner && ball_ok
    }

    /// Whether both scores can still grow by one.
    pub fn has_room(&self) -> (b: bool)
        ensures
            b == self.can_score(),
    {
        self.score.0 < u64::MAX && self.score.1 < u64::MAX
    }

    /// The session when the game begins: the ball idle in the centre, the
    /// paddles in the middle of their columns, no points.
    pub fn new() -> (g: Game)
        ensures
            g == new_game(),
            g.wf(),
    {
        Game {
            ball: Thing::new(CENTER_X, CENTER_Y, 1, PIXEL_BALL),
            player1: Thing::new(PADDLE1_X, PADDLE_START_Y, PADDLE_SIZE, PIXEL_SOLID),
            player2: Thing::new(PADDLE2_X, PADDLE_START_Y, PADDLE_SIZE, PIXEL_SOLID),
            is_paused: false,
            init_ball: false,
            round_winner: None,
            score: (0, 0),
            tick_counter: 0,
            ball_step: START_LEVEL,
            show_debug: false,
            show_help: false,
            last_launch: None,
        }
    }
}

/// Whether `p` is a paddle of column `x`.
pub fn paddle_ok(p: &Thing, x: u16) -> (b: bool)
    ensures
        b == is_paddle(*p, x as int),
{
    p.xpos == x && p.size == PADDLE_SIZE && p.pixel == PIXEL_SOLID && p.xmov == 0 && p.ymov == 0
        && p.xfine == x as u64 * CELL && p.is_aligned() && p.is_inside_borders()
}

/// Whether `ball` is a ball in flight at the start of a tick.
pub fn ball_in_play(ball: &Thing) -> (b: bool)
    ensures
        b == in_play(*ball),
{
    let height: i128 = YMAX as i128 * CELL as i128;
    let next: i128 = ball.yfine as i128 + ball.ymov as i128;
    ball.size == 1 && ball.pixel == PIXEL_BALL && ball.is_aligned() && ball.is_slow() && XMIN
        < ball.xpos && ball.xpos < XMAX && (ball.yfine as i128) < height && 0 <= next && next
        < height
}

/// The speed level that the key of character `c` selects, if it selects one.
pub fn level_of(c: char) -> (level: Option<u8>)
    ensures
        level == digit_level(c),
        level matches Some(l) ==> is_level(l as int),
{
    if '1' <= c && c <= '9' {
        Some(c as u8 - '0' as u8)
    } else {
        None
    }
}

impl Game {
    /// Launches the idle ball at `angle` degrees with the selected speed.
    pub fn launch(&mut self, angle: i32)
        requires
            old(self).wf(),
            !old(self).init_ball,
            is_launch_angle(angle as int),
        ensures
            *final(self) == launched(*old(self), angle as int),
            final(self).wf(),
            final(self).init_ball,
    {
        let v = velocity_for(angle, self.ball_step);
        proof {
            crate::angle::launch_keeps_speed_and_direction(angle as int, self.ball_step as int);
        }
        self.init_ball = true;
        self.ball.xmov = v.0;
        self.ball.ymov = v.1;
        self.last_launch = Some(Launch { angle, xmov: v.0, ymov: v.1 });
    }

    /// Applies `key`, with `angle` as the angle of the launch in case the
    /// key launches the ball.
    pub fn press(&mut self, key: Key, angle: i32)
        requires
            old(self).wf(),
            is_launch_angle(angle as int),
        ensures
            *final(self) == pressed(*old(self), key, angle as int),
            final(self).wf(),
            final(self).score == old(self).score,
    {
        match key {
            Key::Char(c) => {
                if c == 'h' {
                    self.show_help = !self.show_help;
                } else if c == 'd' {
                    self.show_debug = !self.show_debug;
                } else if c == 'p' {
                    self.is_paused = !self.is_paused;
                } else if c == ' ' {
                    if self.init_ball {
                        self.init_ball = false;
                        self.ball = Thing::new(CENTER_X, CENTER_Y, 1, PIXEL_BALL);
                    } else {
                        self.launch(angle);
                    }
                } else if c == 'a' {
                    self.player1.step_up();
                } else if c == 'z' {
                    self.player1.step_down();
                } else if c == 'k' {
                    self.player2.step_up();
                } else if c == 'm' {
                    self.player2.step_down();
                } else {
                    match level_of(c) {
                        Some(level) => {
                            if !self.init_ball {
                                self.ball_step = level;
                            }
                        },
                        None => {},
                    }
                }
            },
            _ => {},
        }
    }

    /// Applies `key`. Where the key launches the ball, the angle is drawn
    /// from `rng`; no other key touches `rng`.
    pub fn handle_key(&mut self, key: Key, rng: &mut ThreadRng)
        requires
            old(self).wf(),
        ensures
            exists|angle: int|
                is_launch_angle(angle) && *final(self) == #[trigger] pressed(
                    *old(self),
                    key,
                    angle,
                ),
            final(self).wf(),
            final(self).score == old(self).score,
    {
        let angle: i32 = if self.needs_angle(key) {
            draw_angle(rng)
        } else {
            0
        };
        self.press(key, angle);
        assert(*self == pressed(*old(self), key, angle as int));
    }

    /// Whether `key` launches the ball, so that an angle has to be drawn.
    pub fn needs_angle(&self, key: Key) -> (b: bool)
        ensures
            b == launches(*self, key),
    {
        match key {
            Key::Char(c) => c == ' ' && !self.init_ball,
            _ => false,
        }
    }

    /// Moves the ball for one tick if it is in flight and the game is not
    /// paused, and names the winner once the ball has left the field.
    pub fn move_ball(&mut self)
        requires
            old(self).wf(),
        ensures
            *final(self) == ball_moved(*old(self)),
            round_settled(*final(self)).wf(),
    {
        if self.init_ball && !self.is_paused {
            let winner = step_ball(&mut self.ball, &self.player1, &self.player2);
            match winner {
                Some(_) => {
                    self.round_winner = winner;
                },
                None => {},
            }
        }
    }

    /// Keeps the end of a round: the winner gets one point, and the ball
    /// goes back to the centre, idle. Without a winner nothing changes.
    pub fn finish_round(&mut self)
        requires
            old(self).can_score(),
        ensures
            *final(self) == round_settled(*old(self)),
    {
        match self.round_winner {
            Some(winner) => {
                match winner {
                    Player::One => {
                        self.score.0 = self.score.0 + 1;
                    },
                    Player::Two => {
                        self.score.1 = self.score.1 + 1;
                    },
                }
                self.round_winner = None;
                self.init_ball = false;
                self.ball = Thing::new(CENTER_X, CENTER_Y, 1, PIXEL_BALL);
            },
            None => {},
        }
    }
}

impl Game {
    /// Draws the frame of the session into `field`.
    pub fn render(&self, field: &mut Field)
        requires
            fits(self.ball),
            fits(self.player1),
            fits(self.player2),
        ensures
            final(field)@ == frame_of(*self),
    {
        proof {
            fixed_text_lengths();
            label_lengths(self.ball_step, self.score.0, self.last_launch);
            label_lengths(self.ball_step, self.score.1, self.last_launch);
        }
        field.clear();
        if self.show_debug {
            let line = make_debug_line(self.last_launch);
            field.write_bytes(3, 2, line.as_slice());
        }
        if self.show_help {
            let label = make_speed_label(self.ball_step);
            field.write_bytes(3, YMIN, label.as_slice());
            field.write(2, YMAX - 1, " a=up - z=down ");
            field.write(XMAX - 17, YMAX - 1, " k=up - m=down ");
            field.write(XMAX / 2 - 9, YMAX - 1, " space=start/reset ");
        } else {
            field.write(XMIN + 2, YMIN, " [h]elp ");
        }
        let left = make_score_label(self.score.0);
        field.write_bytes(XMAX / 2 - 4, YMIN, left.as_slice());
        let right = make_score_label(self.score.1);
        field.write_bytes(XMAX / 2 + 2, YMIN, right.as_slice());
        field.draw_thing(&self.ball);
        field.draw_thing(&self.player1);
        field.draw_thing(&self.player2);
    }

    /// One tick of the game, with `angle` as the angle of the launch in case
    /// `key` launches the ball: the key, the movement of the ball, a frame
    /// on every second tick, the end of the round.
    pub fn tick_with(&mut self, key: Option<Key>, angle: i32, field: &mut Field) -> (outcome:
        Outcome)
        requires
            old(self).wf(),
            old(self).can_score(),
            is_launch_angle(angle as int),
        ensures
            *final(self) == ticked(*old(self), key, angle as int),
            outcome == tick_outcome(*old(self), key, angle as int),
            final(field)@ == tick_frame(*old(self), key, angle as int, old(field)@),
            final(self).wf(),
    {
        match key {
            Some(k) => {
                match k {
                    Key::Esc => {
                        return Outcome::Quit;
                    },
                    _ => {
                        self.press(k, angle);
                    },
                }
            },
            None => {},
        }
        self.move_ball();
        let mut outcome = Outcome::Wait;
        if self.tick_counter + 1 == TICK_THRESHOLD {
            if holds(&self.ball) {
                self.render(field);
                outcome = Outcome::Repaint;
            } else {
                outcome = Outcome::OffField;
            }
            self.tick_counter = 0;
        } else {
            self.tick_counter = self.tick_counter + 1;
        }
        self.finish_round();
        outcome
    }

    /// One tick of the game. Where `key` launches the ball, the angle is
    /// drawn from `rng`; else `rng` is left alone.
    pub fn tick(&mut self, key: Option<Key>, rng: &mut ThreadRng, field: &mut Field) -> (outcome:
        Outcome)
        requires
            old(self).wf(),
            old(self).can_score(),
        ensures
            exists|angle: int|
                {
                    &&& is_launch_angle(angle)
                    &&& *final(self) == #[trigger] ticked(*old(self), key, angle)
                    &&& outcome == tick_outcome(*old(self), key, angle)
                    &&& final(field)@ == tick_frame(*old(self), key, angle, old(field)@)
                },
            final(self).wf(),
    {
        let draws = match key {
            Some(k) => self.needs_angle(k),
            None => false,
        };
        let angle: i32 = if draws {
            draw_angle(rng)
        } else {
            0
        };
        let outcome = self.tick_with(key, angle, field);
        assert(*self == ticked(*old(self), key, angle as int));
        outcome
    }
}

} // verus!
