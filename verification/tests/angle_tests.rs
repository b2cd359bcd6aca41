use pong::angle::{cosine, sine, velocity_for, COS_TABLE, SIN_TABLE};
use pong::chance::draw_angle;

#[test]
fn tables_hold_cosine_and_sine_to_eight_decimals() {
    assert_eq!(COS_TABLE.len(), 46);
    assert_eq!(SIN_TABLE.len(), 46);
    for deg in 0..46usize {
        let rad = (deg as f64).to_radians();
        assert_eq!(COS_TABLE[deg], (1e8 * rad.cos()).round() as i32, "cos {}", deg);
        assert_eq!(SIN_TABLE[deg], (1e8 * rad.sin()).round() as i32, "sin {}", deg);
    }
}

#[test]
fn cosine_is_even_and_sine_is_odd() {
    for deg in -45..=45i32 {
        let rad = (deg as f64).to_radians();
        assert_eq!(cosine(deg), (1e8 * rad.cos()).round() as i32);
        assert_eq!(sine(deg), (1e8 * rad.sin()).round() as i32);
        assert_eq!(cosine(-deg), cosine(deg));
        assert_eq!(sine(-deg), -sine(deg));
    }
}

#[test]
fn cosine_and_sine_at_the_ends() {
    assert_eq!(cosine(0), 100_000_000);
    assert_eq!(sine(0), 0);
    assert_eq!(cosine(45), 70_710_678);
    assert_eq!(sine(45), 70_710_678);
    assert_eq!(cosine(-45), 70_710_678);
    assert_eq!(sine(-45), -70_710_678);
    assert_eq!(cosine(30), 86_602_540);
    assert_eq!(sine(30), 50_000_000);
    assert_eq!(cosine(1), 99_984_770);
    assert_eq!(sine(1), 1_745_241);
}

#[test]
fn velocity_is_speed_times_cosine_and_sine() {
    assert_eq!(velocity_for(0, 1), (100_000_000, 0));
    assert_eq!(velocity_for(0, 5), (500_000_000, 0));
    assert_eq!(velocity_for(1, 5), (499_923_850, 8_726_205));
    assert_eq!(velocity_for(2, 5), (499_695_415, 17_449_750));
    assert_eq!(velocity_for(30, 5), (433_012_700, 250_000_000));
    assert_eq!(velocity_for(-30, 5), (433_012_700, -250_000_000));
    assert_eq!(velocity_for(45, 5), (353_553_390, 353_553_390));
    assert_eq!(velocity_for(45, 9), (636_396_102, 636_396_102));
    assert_eq!(velocity_for(-45, 9), (636_396_102, -636_396_102));
    assert_eq!(velocity_for(-12, 5), (489_073_800, -103_955_845));
}

#[test]
fn every_launch_has_the_selected_speed() {
    for level in 1..=9u8 {
        for deg in -45..=45i32 {
            let (vx, vy) = velocity_for(deg, level);
            let speed = level as i128 * 100_000_000;
            let norm2 = vx as i128 * vx as i128 + vy as i128 * vy as i128;
            assert!(vx > 0);
            assert!(vx as i128 <= speed);
            assert!(-vx <= vy && vy <= vx);
            assert!((speed - level as i128) * (speed - level as i128) <= norm2);
            assert!(norm2 <= (speed + level as i128) * (speed + level as i128));
            let norm = (norm2 as f64).sqrt() / 1e9;
            assert!((norm - level as f64 / 10.0).abs() <= 1e-8);
        }
    }
}

#[test]
fn every_launch_is_the_speed_times_cosine_and_sine() {
    for level in 1..=9u8 {
        for deg in -45..=45i32 {
            let (vx, vy) = velocity_for(deg, level);
            let speed = level as f64 / 10.0;
            let rad = (deg as f64).to_radians();
            assert!((vx as f64 / 1e9 - speed * rad.cos()).abs() <= 1e-8, "{} {}", deg, level);
            assert!((vy as f64 / 1e9 - speed * rad.sin()).abs() <= 1e-8, "{} {}", deg, level);
            let direction = (vy as f64).atan2(vx as f64).to_degrees();
            assert!((direction - deg as f64).abs() < 1e-6, "{} for {}", direction, deg);
        }
    }
}

#[test]
fn tables_turn_by_one_degree_from_entry_to_entry() {
    let unit = 100_000_000i64;
    let (k, j) = (COS_TABLE[1] as i64, SIN_TABLE[1] as i64);
    for a in 0..45usize {
        let (c, s) = (COS_TABLE[a] as i64, SIN_TABLE[a] as i64);
        let (c1, s1) = (COS_TABLE[a + 1] as i64, SIN_TABLE[a + 1] as i64);
        assert!((c1 * unit - (c * k - s * j)).abs() <= 2 * unit);
        assert!((s1 * unit - (s * k + c * j)).abs() <= 2 * unit);
        assert!(s < s1);
        assert!(c1 <= c);
    }
    assert_eq!((COS_TABLE[0], SIN_TABLE[0]), (100_000_000, 0));
    assert_eq!(COS_TABLE[45], SIN_TABLE[45]);
}

#[test]
fn drawn_angles_cover_the_whole_range() {
    let mut rng = rand::thread_rng();
    let mut seen = [false; 91];
    for _ in 0..20000 {
        let deg = draw_angle(&mut rng);
        assert!(-45 <= deg && deg <= 45, "{} is no launch angle", deg);
        seen[(deg + 45) as usize] = true;
    }
    assert!(seen[0], "-45 never came");
    assert!(seen[90], "45 never came");
    assert!(seen.iter().all(|s| *s));
}
