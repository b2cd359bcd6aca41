use pong::physics::{step_ball, winner_at, Player};
use pong::thing::Thing;

fn ball(xfine: u64, yfine: u64, xmov: i32, ymov: i32) -> Thing {
    Thing {
        xpos: (xfine / 1_000_000_000) as u16,
        ypos: (yfine / 1_000_000_000) as u16,
        size: 1,
        pixel: b'O',
        xmov,
        ymov,
        xfine,
        yfine,
    }
}

fn paddles() -> (Thing, Thing) {
    (Thing::new(5, 10, 4, b'X'), Thing::new(74, 10, 4, b'X'))
}

#[test]
fn winner_is_named_at_the_bounds() {
    assert_eq!(winner_at(0), Some(Player::Two));
    assert_eq!(winner_at(1), None);
    assert_eq!(winner_at(39), None);
    assert_eq!(winner_at(78), None);
    assert_eq!(winner_at(79), Some(Player::One));
    assert_eq!(winner_at(80), Some(Player::One));
    assert_eq!(winner_at(65535), Some(Player::One));
}

#[test]
fn free_flight_adds_the_velocity() {
    let (left, right) = paddles();
    let mut b = ball(39_000_000_000, 12_000_000_000, 433_000_000, 250_000_000);
    assert_eq!(step_ball(&mut b, &left, &right), None);
    assert_eq!(b, ball(39_433_000_000, 12_250_000_000, 433_000_000, 250_000_000));
    assert_eq!(step_ball(&mut b, &left, &right), None);
    assert_eq!(b, ball(39_866_000_000, 12_500_000_000, 433_000_000, 250_000_000));
    assert_eq!(step_ball(&mut b, &left, &right), None);
    assert_eq!(b, ball(40_299_000_000, 12_750_000_000, 433_000_000, 250_000_000));
    assert_eq!((b.xpos, b.ypos), (40, 12));
}

#[test]
fn a_ball_at_rest_stays() {
    let (left, right) = paddles();
    let mut b = Thing::new(39, 12, 1, b'O');
    assert_eq!(step_ball(&mut b, &left, &right), None);
    assert_eq!(b, Thing::new(39, 12, 1, b'O'));
}

#[test]
fn top_border_flips_the_vertical_velocity() {
    let (left, right) = paddles();
    let mut b = ball(30_000_000_000, 1_200_000_000, 300_000_000, -500_000_000);
    assert_eq!(step_ball(&mut b, &left, &right), None);
    assert_eq!(b, ball(30_300_000_000, 700_000_000, 300_000_000, 500_000_000));
    assert_eq!(b.ypos, 0);
}

#[test]
fn bottom_border_flips_the_vertical_velocity() {
    let (left, right) = paddles();
    let mut b = ball(30_000_000_000, 22_900_000_000, 300_000_000, 600_000_000);
    assert_eq!(step_ball(&mut b, &left, &right), None);
    assert_eq!(b, ball(30_300_000_000, 23_500_000_000, 300_000_000, -600_000_000));
    assert_eq!(b.ypos, 23);
}

#[test]
fn rows_next_to_the_borders_do_not_flip() {
    let (left, right) = paddles();
    let mut b = ball(30_000_000_000, 2_500_000_000, 300_000_000, -500_000_000);
    step_ball(&mut b, &left, &right);
    assert_eq!(b, ball(30_300_000_000, 2_000_000_000, 300_000_000, -500_000_000));
    step_ball(&mut b, &left, &right);
    assert_eq!(b, ball(30_600_000_000, 1_500_000_000, 300_000_000, -500_000_000));
    assert_eq!(b.ypos, 1);
    let mut b = ball(30_000_000_000, 22_000_000_000, 300_000_000, 999_900_000);
    step_ball(&mut b, &left, &right);
    assert_eq!(b, ball(30_300_000_000, 22_999_900_000, 300_000_000, 999_900_000));
    assert_eq!(b.ypos, 22);
}

#[test]
fn a_ball_on_a_border_flips_on_every_tick() {
    let (left, right) = paddles();
    let mut b = ball(30_000_000_000, 1_200_000_000, 0, -500_000_000);
    step_ball(&mut b, &left, &right);
    assert_eq!((b.yfine, b.ymov), (700_000_000, 500_000_000));
    step_ball(&mut b, &left, &right);
    assert_eq!((b.yfine, b.ymov), (1_200_000_000, 500_000_000));
    let mut b = ball(30_000_000_000, 900_000_000, 0, -100_000_000);
    step_ball(&mut b, &left, &right);
    assert_eq!((b.yfine, b.ymov), (800_000_000, 100_000_000));
    step_ball(&mut b, &left, &right);
    assert_eq!((b.yfine, b.ymov), (900_000_000, -100_000_000));
}

#[test]
fn left_paddle_flips_the_horizontal_velocity() {
    let left = Thing::new(5, 10, 4, b'X');
    let right = Thing::new(74, 10, 4, b'X');
    let mut b = ball(5_700_000_000, 12_500_000_000, -500_000_000, 0);
    assert_eq!((b.xpos, b.ypos), (5, 12));
    assert_eq!(step_ball(&mut b, &left, &right), None);
    assert_eq!((b.xpos, b.ypos), (5, 12));
    assert_eq!(b.xmov, 500_000_000);
    assert_eq!(b.ymov, 0);
    assert_eq!(b.xfine, 5_200_000_000);
}

#[test]
fn ball_entering_the_column_of_a_paddle_is_hit() {
    let (left, right) = paddles();
    let mut b = ball(6_200_000_000, 10_500_000_000, -500_000_000, 100_000_000);
    assert_eq!(step_ball(&mut b, &left, &right), None);
    assert_eq!(b, ball(5_700_000_000, 10_600_000_000, 500_000_000, 100_000_000));
}

#[test]
fn right_paddle_flips_the_horizontal_velocity() {
    let (left, right) = paddles();
    let mut b = ball(73_800_000_000, 13_100_000_000, 400_000_000, -200_000_000);
    assert_eq!(step_ball(&mut b, &left, &right), None);
    assert_eq!(b, ball(74_200_000_000, 12_900_000_000, -400_000_000, -200_000_000));
    assert_eq!((b.xpos, b.ypos), (74, 12));
}

#[test]
fn paddle_span_is_half_open() {
    let (left, right) = paddles();
    for (row, hit) in [(8u64, false), (9, false), (10, true), (11, true), (12, true), (13, true), (14, false), (15, false)] {
        let mut b = ball(5_700_000_000, row * 1_000_000_000 + 500_000_000, -500_000_000, 0);
        step_ball(&mut b, &left, &right);
        assert_eq!(b.xmov, if hit { 500_000_000 } else { -500_000_000 }, "row {}", row);
    }
}

#[test]
fn a_ball_beside_a_paddle_is_not_hit() {
    let (left, right) = paddles();
    let mut b = ball(6_700_000_000, 12_500_000_000, -500_000_000, 0);
    step_ball(&mut b, &left, &right);
    assert_eq!(b, ball(6_200_000_000, 12_500_000_000, -500_000_000, 0));
    let mut b = ball(4_500_000_000, 12_500_000_000, -500_000_000, 0);
    step_ball(&mut b, &left, &right);
    assert_eq!(b, ball(4_000_000_000, 12_500_000_000, -500_000_000, 0));
}

#[test]
fn a_ball_in_the_column_of_a_paddle_flips_on_every_tick() {
    let (left, right) = paddles();
    let mut b = ball(5_900_000_000, 12_500_000_000, -200_000_000, 0);
    step_ball(&mut b, &left, &right);
    assert_eq!((b.xfine, b.xmov), (5_700_000_000, 200_000_000));
    step_ball(&mut b, &left, &right);
    assert_eq!((b.xfine, b.xmov), (5_900_000_000, -200_000_000));
    step_ball(&mut b, &left, &right);
    assert_eq!((b.xfine, b.xmov), (5_700_000_000, 200_000_000));
}

#[test]
fn corner_flips_both() {
    let left = Thing::new(5, 0, 4, b'X');
    let right = Thing::new(74, 10, 4, b'X');
    let mut b = ball(6_200_000_000, 1_200_000_000, -500_000_000, -500_000_000);
    step_ball(&mut b, &left, &right);
    assert_eq!(b, ball(5_700_000_000, 700_000_000, 500_000_000, 500_000_000));
}

#[test]
fn left_exit_is_won_by_player_two() {
    let (left, right) = paddles();
    let mut b = ball(1_200_000_000, 7_500_000_000, -500_000_000, 100_000_000);
    assert_eq!(step_ball(&mut b, &left, &right), Some(Player::Two));
    assert_eq!(b, ball(700_000_000, 7_600_000_000, -500_000_000, 100_000_000));
    assert_eq!(b.xpos, 0);
}

#[test]
fn a_slow_ball_in_column_one_is_still_in_play() {
    let (left, right) = paddles();
    let mut b = ball(1_900_000_000, 7_500_000_000, -500_000_000, 100_000_000);
    assert_eq!(step_ball(&mut b, &left, &right), None);
    assert_eq!(b.xpos, 1);
}

#[test]
fn right_exit_is_won_by_player_one() {
    let (left, right) = paddles();
    let mut b = ball(78_600_000_000, 7_500_000_000, 500_000_000, 100_000_000);
    assert_eq!(step_ball(&mut b, &left, &right), Some(Player::One));
    assert_eq!(b, ball(79_100_000_000, 7_600_000_000, 500_000_000, 100_000_000));
    assert_eq!(b.xpos, 79);
}

#[test]
fn a_ball_below_the_bottom_bound_is_set_back() {
    let (left, right) = paddles();
    let mut b = ball(30_000_000_000, 23_900_000_000, 100_000_000, 500_000_000);
    assert_eq!(step_ball(&mut b, &left, &right), None);
    assert_eq!(b.yfine, 23_000_000_000);
    assert_eq!(b.ypos, 23);
    assert_eq!(b.ymov, -500_000_000);
    assert_eq!(b.xfine, 30_100_000_000);
    assert_eq!(b.xmov, 100_000_000);
}

#[test]
fn a_ball_exactly_on_the_bottom_bound_is_not_set_back() {
    let (left, right) = paddles();
    let mut b = ball(30_000_000_000, 23_500_000_000, 100_000_000, 500_000_000);
    assert_eq!(step_ball(&mut b, &left, &right), None);
    assert_eq!(b.yfine, 24_000_000_000);
    assert_eq!(b.ypos, 24);
    assert_eq!(b.ymov, -500_000_000);
}

#[test]
fn bounce_keeps_the_size_of_the_velocity() {
    let (left, right) = paddles();
    for ymov in [-1_000_000_000, -636_300_000, -1, 1, 707, 1_000_000_000] {
        let mut b = ball(30_000_000_000, 500_000_000, 0, 0);
        b.yfine = if ymov < 0 { 1_500_000_000 } else { 0 };
        b.ypos = (b.yfine / 1_000_000_000) as u16;
        b.ymov = ymov;
        let before = b;
        step_ball(&mut b, &left, &right);
        if b.ypos == 0 {
            assert_eq!(b.ymov, -before.ymov);
            assert_eq!(b.ymov.abs(), before.ymov.abs());
        } else {
            assert_eq!(b.ymov, before.ymov);
        }
        assert_eq!(b.xmov, before.xmov);
    }
}
