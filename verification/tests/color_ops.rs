use raytrs::color::{channel_byte, Color};
use raytrs::fixed::{Fixed, ONE_RAW};

fn f(raw: i64) -> Fixed {
    Fixed::from_raw(raw)
}

fn c(r: i64, g: i64, b: i64) -> Color {
    Color::new(f(r), f(g), f(b))
}

const ONE: i64 = ONE_RAW;

#[test]
fn named_colours() {
    assert_eq!(Color::black(), c(0, 0, 0));
    assert_eq!(Color::white(), c(ONE, ONE, ONE));
    assert_eq!(Color::red(), c(ONE, 0, 0));
    assert_eq!(Color::green(), c(0, ONE, 0));
    assert_eq!(Color::blue(), c(0, 0, ONE));
}

#[test]
fn red_is_255_0_0() {
    assert_eq!(Color::red().to_rgb(), [255, 0, 0]);
}

#[test]
fn channel_bytes_clamp() {
    assert_eq!(channel_byte(f(0)), 0);
    assert_eq!(channel_byte(f(255)), 0);
    assert_eq!(channel_byte(f(256)), 1);
    assert_eq!(channel_byte(f(ONE / 2)), 128);
    assert_eq!(channel_byte(f(ONE - 1)), 255);
    assert_eq!(channel_byte(f(ONE)), 255);
    assert_eq!(channel_byte(f(2 * ONE)), 255);
    assert_eq!(channel_byte(f(-5)), 0);
    assert_eq!(channel_byte(f(-ONE)), 0);
}

#[test]
fn arithmetic_is_channel_by_channel() {
    let a = c(ONE, ONE / 2, ONE / 4);
    let b = c(ONE / 2, ONE / 2, ONE / 2);
    assert_eq!(a.add(b), c(98304, ONE, 49152));
    assert_eq!(a.sub(b), c(ONE / 2, 0, -16384));
    assert_eq!(a.mul(b), c(ONE / 2, ONE / 4, ONE / 8));
    assert_eq!(a.div(b), c(2 * ONE, ONE, ONE / 2));
    assert_eq!(a.scale(f(2 * ONE)), c(2 * ONE, ONE, ONE / 2));
    assert_eq!(a.div_scalar(f(2 * ONE)), c(ONE / 2, ONE / 4, ONE / 8));
    assert_eq!(a.add_scalar(f(ONE)), c(2 * ONE, 98304, 81920));
    assert_eq!(a.sub_scalar(f(ONE / 4)), c(49152, ONE / 4, 0));
}

#[test]
fn product_takes_each_channel_of_the_other() {
    let a = c(ONE, ONE, ONE);
    let b = c(ONE / 2, ONE / 4, ONE / 8);
    assert_eq!(a.mul(b), b);
}

#[test]
fn colour_assigning_operators_change_the_receiver() {
    let mut a = c(ONE, ONE / 2, ONE / 4);
    a.add_assign(c(ONE, ONE, ONE));
    assert_eq!(a, c(2 * ONE, 98304, 81920));
    a.sub_assign(c(ONE, ONE, ONE));
    assert_eq!(a, c(ONE, ONE / 2, ONE / 4));
    a.mul_assign(c(ONE / 2, ONE / 2, ONE / 2));
    assert_eq!(a, c(ONE / 2, ONE / 4, ONE / 8));
    a.div_assign(c(ONE / 2, ONE / 4, ONE / 8));
    assert_eq!(a, c(ONE, ONE, ONE));
}

#[test]
fn lerp_goes_from_self_to_the_other() {
    let white = Color::white();
    let sky = c(32768, 45875, ONE);
    assert_eq!(white.lerp(sky, f(0)), white);
    assert_eq!(white.lerp(sky, f(ONE)), sky);
    assert_eq!(white.lerp(sky, f(ONE / 4)), c(57344, 60621, ONE));
}

#[test]
fn gamma_is_the_square_root() {
    assert_eq!(c(ONE / 4, ONE, 0).linear2gamma(), c(ONE / 2, ONE, 0));
    assert_eq!(c(ONE / 2, 45875, -ONE).linear2gamma(), c(46340, 54831, 0));
    assert_eq!(c(ONE / 2, ONE, 0).gamma2linear(), c(ONE / 4, ONE, 0));
}

#[test]
fn gamma_round_trip_is_within_two_steps() {
    let mut raw: i64 = 0;
    while raw <= ONE {
        let x = c(raw, ONE - raw, raw / 2);
        let back = x.linear2gamma().gamma2linear();
        assert!(back.r.raw <= x.r.raw && x.r.raw - back.r.raw <= 2);
        assert!(back.g.raw <= x.g.raw && x.g.raw - back.g.raw <= 2);
        assert!(back.b.raw <= x.b.raw && x.b.raw - back.b.raw <= 2);
        raw += 97;
    }
    assert_eq!(c(ONE / 2, 45875, ONE).linear2gamma().gamma2linear(), c(32766, 45874, ONE));
}

#[test]
fn text_line_of_a_colour() {
    assert_eq!(Color::red().to_string(), "255 0 0\n");
    assert_eq!(c(ONE / 2, 45875, 2560).to_string(), "128 179 10\n");
    assert_eq!(Color::black().to_string(), "0 0 0\n");
}

#[test]
fn text_line_of_a_sum_of_samples() {
    let sum = c(2 * ONE, 4 * 45875, 4 * ONE);
    assert_eq!(sum.to_string_gamma(4), "181 214 255\n");
    assert_eq!(Color::white().to_string_gamma(0), "255 255 255\n");
    assert_eq!(Color::black().to_string_gamma(0), "0 0 0\n");
}

#[test]
fn random_colour_lies_in_the_unit_cube() {
    for _ in 0..200 {
        let x = Color::random();
        assert!(0 <= x.r.raw && x.r.raw < ONE);
        assert!(0 <= x.g.raw && x.g.raw < ONE);
        assert!(0 <= x.b.raw && x.b.raw < ONE);
    }
}
