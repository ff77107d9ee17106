use firefly::greeting;
use firefly::particle::{Firefly, Rgb, Vector, channel_level};
use firefly::scene::{Cmd, Scene, seed_firefly};
use firefly::trig::{cos, sin};

#[test]
fn greeting_formats_the_name() {
    assert_eq!(greeting("verus"), "hello verus from rust!");
    assert_eq!(greeting(""), "hello  from rust!");
}

#[test]
fn cosine_is_exact_at_quarter_turns() {
    assert_eq!(cos(0), 1000);
    assert_eq!(cos(1_000_000), 0);
    assert_eq!(cos(2_000_000), -1000);
    assert_eq!(cos(3_000_000), 0);
    assert_eq!(cos(4_000_000), 1000);
}

#[test]
fn sine_is_exact_at_quarter_turns() {
    assert_eq!(sin(0), 0);
    assert_eq!(sin(1_000_000), 1000);
    assert_eq!(sin(2_000_000), 0);
    assert_eq!(sin(3_000_000), -1000);
}

#[test]
fn cosine_is_periodic_in_a_full_turn() {
    for a in [-7_654_321i64, -1, 0, 1, 123_456, 999_999, 2_500_000] {
        assert_eq!(cos(a + 4_000_000), cos(a));
        assert_eq!(sin(a + 4_000_000), sin(a));
    }
}

#[test]
fn cosine_stays_within_one() {
    let mut a: i64 = -8_000_000;
    while a <= 8_000_000 {
        let c = cos(a);
        assert!(-1000 <= c && c <= 1000);
        a += 98_765;
    }
}

#[test]
fn cosine_of_mid_quadrant_angle() {
    // half a quarter turn: 1 - (1/2)^2 = 3/4 in FP units
    assert_eq!(cos(500_000), 750);
    assert_eq!(cos(-500_000), 750);
    assert_eq!(cos(1_500_000), -750);
}

#[test]
fn update_advances_angle_by_speed_and_nothing_else() {
    let mut f = Firefly::new(
        Vector::new(10_000, -20_000),
        60_000,
        Vector::new(300, -400),
        Rgb::new(100_500, 200_250, 4_999),
    );
    f.update();
    assert_eq!(f.angle.x, 10_300);
    assert_eq!(f.angle.y, -20_400);
    assert_eq!(f.radius, 60_000);
    assert_eq!(f.speed.x, 300);
    assert_eq!(f.speed.y, -400);
    assert_eq!(f.color, Rgb::new(100_500, 200_250, 4_999));
}

#[test]
fn fixed_fields_survive_many_updates() {
    let mut f = Firefly::new(
        Vector::new(0, 0),
        75_000,
        Vector::new(31_830, -31_830),
        Rgb::new(1, 2, 3),
    );
    for _ in 0..10_000 {
        f.update();
    }
    assert_eq!(f.radius, 75_000);
    assert_eq!(f.speed, Vector::new(31_830, -31_830));
    assert_eq!(f.color, Rgb::new(1, 2, 3));
    assert_eq!(f.angle, Vector::new(318_300_000, -318_300_000));
}

#[test]
fn dot_carries_truncated_colour_steps() {
    let mut f = Firefly::new(
        Vector::new(0, 0),
        0,
        Vector::new(0, 0),
        Rgb::new(1_234, 254_999, 999),
    );
    let d = f.update();
    match d {
        Cmd::Dot { red, green, blue, .. } => {
            assert_eq!(red, 1);
            assert_eq!(green, 254);
            assert_eq!(blue, 0);
        }
        _ => panic!("expected a dot"),
    }
}

#[test]
fn colour_truncation_is_idempotent() {
    for c in [0i64, 999, 1_000, 1_234, 77_777, 254_999] {
        let once = channel_level(c);
        assert_eq!(channel_level(once * 1000), once);
        // deterministic: the same channel always shows the same step
        assert_eq!(channel_level(c), once);
    }
}

#[test]
fn scenario_quarter_turn_orbit() {
    // one firefly on the x axis at radius 50, advancing a quarter turn
    // per frame: it visits (150, 100), (100, 150), (50, 100).
    let f = Firefly::new(
        Vector::new(0, 0),
        50_000,
        Vector::new(1_000_000, 1_000_000),
        Rgb::new(0, 0, 0),
    );
    let mut scene = Scene { fireflies: vec![f], width: 200_000, height: 200_000 };

    let frame1 = scene.frame();
    assert_eq!(frame1.len(), 3);
    assert_eq!(frame1[0], Cmd::Clear { width: 200_000, height: 200_000 });
    assert_eq!(
        frame1[1],
        Cmd::Dot { x: 150_000, y: 100_000, radius: 2_000, red: 0, green: 0, blue: 0 }
    );
    assert_eq!(frame1[2], Cmd::Reschedule);
    assert_eq!(scene.fireflies[0].angle, Vector::new(1_000_000, 1_000_000));

    let frame2 = scene.frame();
    assert_eq!(
        frame2[1],
        Cmd::Dot { x: 100_000, y: 150_000, radius: 2_000, red: 0, green: 0, blue: 0 }
    );
    assert_eq!(scene.fireflies[0].angle, Vector::new(2_000_000, 2_000_000));

    let frame3 = scene.frame();
    assert_eq!(
        frame3[1],
        Cmd::Dot { x: 50_000, y: 100_000, radius: 2_000, red: 0, green: 0, blue: 0 }
    );
}

#[test]
fn position_is_constant_with_zero_speed() {
    let f = Firefly::new(
        Vector::new(333_333, -777_777),
        88_000,
        Vector::new(0, 0),
        Rgb::new(0, 0, 0),
    );
    let mut scene = Scene { fireflies: vec![f], width: 200_000, height: 200_000 };
    let first = scene.frame()[1];
    for _ in 0..50 {
        assert_eq!(scene.frame()[1], first);
    }
}

#[test]
fn frame_clears_once_first_then_draws_in_order_then_reschedules() {
    let mut fireflies = Vec::new();
    for i in 0..5i64 {
        fireflies.push(Firefly::new(
            Vector::new(i * 250_000, i * 125_000),
            50_000 + 10_000 * i,
            Vector::new(i, -i),
            Rgb::new(50_000 * i as i64, 0, 254_000),
        ));
    }
    let mut scene = Scene { fireflies, width: 123_000, height: 45_600 };
    let cmds = scene.frame();
    assert_eq!(cmds.len(), 7);
    assert_eq!(cmds[0], Cmd::Clear { width: 123_000, height: 45_600 });
    let mut clears = 0;
    let mut dots = 0;
    let mut reschedules = 0;
    for c in &cmds {
        match c {
            Cmd::Clear { .. } => clears += 1,
            Cmd::Dot { .. } => dots += 1,
            Cmd::Reschedule => reschedules += 1,
        }
    }
    assert_eq!(clears, 1);
    assert_eq!(dots, 5);
    assert_eq!(reschedules, 1);
    assert_eq!(cmds[6], Cmd::Reschedule);
}

#[test]
fn init_populates_count_particles_in_range() {
    // a crude linear-congruential stream, just to spread the samples
    let mut raw = Vec::new();
    let mut x: i64 = 42;
    for _ in 0..8 * 7 {
        x = (x * 1_103_515_245 + 12_345) % 1_000_000;
        if x < 0 {
            x += 1_000_000;
        }
        raw.push(x);
    }
    let scene = Scene::init(7, 200_000, 200_000, &raw);
    assert_eq!(scene.fireflies.len(), 7);
    assert_eq!(scene.width, 200_000);
    assert_eq!(scene.height, 200_000);
    for f in &scene.fireflies {
        assert!(50_000 <= f.radius && f.radius < 100_000);
        assert!(-31_831 <= f.speed.x && f.speed.x < 31_831);
        assert!(-31_831 <= f.speed.y && f.speed.y < 31_831);
        assert!(0 <= f.color.r && f.color.r < 255_000);
        assert!(0 <= f.color.g && f.color.g < 255_000);
        assert!(0 <= f.color.b && f.color.b < 255_000);
        assert!(0 <= f.angle.x && f.angle.x < 8_000_000);
        assert!(0 <= f.angle.y && f.angle.y < 8_000_000);
    }
}

#[test]
fn seeding_maps_the_unit_midpoint_exactly() {
    let f = seed_firefly(
        500_000, 500_000, 500_000, 500_000, 500_000, 500_000, 500_000, 500_000,
    );
    assert_eq!(f.angle, Vector::new(4_000_000, 4_000_000));
    assert_eq!(f.radius, 75_000);
    assert_eq!(f.speed, Vector::new(0, 0));
    assert_eq!(f.color, Rgb::new(127_500, 127_500, 127_500));
}

#[test]
fn seeding_extremes_stay_inside_the_ranges() {
    let lo = seed_firefly(0, 0, 0, 0, 0, 0, 0, 0);
    assert_eq!(lo.angle, Vector::new(0, 0));
    assert_eq!(lo.radius, 50_000);
    assert_eq!(lo.speed, Vector::new(-31_831, -31_831));
    assert_eq!(lo.color, Rgb::new(0, 0, 0));

    let hi = seed_firefly(
        999_999, 999_999, 999_999, 999_999, 999_999, 999_999, 999_999, 999_999,
    );
    assert!(hi.angle.x < 8_000_000);
    assert!(hi.radius < 100_000);
    assert!(hi.speed.x < 31_831);
    assert!(hi.color.r < 255_000);
}

#[test]
fn init_with_zero_count_is_an_empty_scene() {
    let raw: Vec<i64> = Vec::new();
    let mut scene = Scene::init(0, 200_000, 200_000, &raw);
    assert_eq!(scene.fireflies.len(), 0);
    let cmds = scene.frame();
    assert_eq!(cmds.len(), 2);
    assert_eq!(cmds[0], Cmd::Clear { width: 200_000, height: 200_000 });
    assert_eq!(cmds[1], Cmd::Reschedule);
}
