//! Tests of single-precision arithmetic on whole numbers.

use adele_voice::single::{hold, round, ONE};

fn u(x: f32) -> i128 {
    (f64::from(x) * ONE as f64) as i128
}

#[test]
fn a_number_of_few_bits_is_left_as_it_is() {
    for x in [0.0f32, 1.0, -1.0, 0.58, 0.4, -0.18, 3.75, 1e-6] {
        assert_eq!(round(u(x), 1), u(x));
    }
}

#[test]
fn halves_go_to_the_even_number() {
    assert_eq!(round(16_777_217, 1), 16_777_216);
    assert_eq!(round(16_777_219, 1), 16_777_220);
    assert_eq!(round(-16_777_217, 1), -16_777_216);
    assert_eq!(round(3, 2), 2);
    assert_eq!(round(5, 2), 2);
    assert_eq!(round(33_554_431, 1), 33_554_432);
}

#[test]
fn sums_products_and_quotients_round_as_single_precision_does() {
    let mut seed: u32 = 12_345;
    for _ in 0..20_000 {
        let mut next = || {
            seed = seed.wrapping_mul(1_664_525).wrapping_add(1_013_904_223);
            (seed >> 8) as f32 / 16_777_216.0 + 0.001
        };
        let (a, b) = (next(), next());
        assert_eq!(round(u(a) + u(b), 1), u(a + b));
        assert_eq!(round(u(a) - u(b), 1), u(a - b));
        assert_eq!(round(u(a) * u(b), ONE as u128), u(a * b));
        assert_eq!(round(u(a), 7), u(a / 7.0));
    }
}

#[test]
fn what_cannot_be_held_is_held_as_near_as_can_be() {
    assert_eq!(hold(5), 5);
    assert_eq!(hold(i128::MAX), i64::MAX);
    assert_eq!(hold(i128::MIN), i64::MIN);
}
