use weathr::fixed::{
    cell_of, chance, mul_milli, radians_milli, ratio, sat_add, sat_sub, scale, sin_milli, to_u16,
    UNIT,
};
use weathr::text::{push_decimal, push_one_place, push_signed_two_places, push_two_places};

#[test]
fn test_sums_stop_at_the_ends_of_the_range() {
    assert_eq!(sat_add(2, 3), 5);
    assert_eq!(sat_add(-2, -3), -5);
    assert_eq!(sat_add(i64::MAX, 1), i64::MAX);
    assert_eq!(sat_add(i64::MAX - 1, 1), i64::MAX);
    assert_eq!(sat_add(i64::MIN, -1), i64::MIN);
    assert_eq!(sat_add(i64::MIN, i64::MAX), -1);
    assert_eq!(sat_sub(2, 3), -1);
    assert_eq!(sat_sub(i64::MIN, 1), i64::MIN);
    assert_eq!(sat_sub(i64::MAX, -1), i64::MAX);
    assert_eq!(sat_sub(0, i64::MIN), i64::MAX);
}

#[test]
fn test_products_of_thousandths() {
    assert_eq!(mul_milli(500, 500), 250);
    assert_eq!(mul_milli(1000, -200), -200);
    assert_eq!(mul_milli(-1, 999), 0);
    assert_eq!(mul_milli(-1999, 1), -1);
    assert_eq!(mul_milli(1999, 1), 1);
    assert_eq!(mul_milli(i64::MAX, i64::MAX), i64::MAX);
    assert_eq!(mul_milli(i64::MAX, i64::MIN), i64::MIN);
    assert_eq!(mul_milli(i64::MAX, 1000), i64::MAX);
    assert_eq!(mul_milli(i64::MAX, 999), 9214148664817921031);
}

#[test]
fn test_cells_round_towards_zero() {
    assert_eq!(cell_of(0), 0);
    assert_eq!(cell_of(999), 0);
    assert_eq!(cell_of(1000), 1);
    assert_eq!(cell_of(-1), 0);
    assert_eq!(cell_of(-999), 0);
    assert_eq!(cell_of(-1000), -1);
    assert_eq!(cell_of(-1500), -1);
    assert_eq!(cell_of(29_500), 29);
    assert_eq!(to_u16(-5), 0);
    assert_eq!(to_u16(0), 0);
    assert_eq!(to_u16(65535), 65535);
    assert_eq!(to_u16(65536), 65535);
}

#[test]
fn test_scale_takes_the_fraction_of_a_range() {
    assert_eq!(scale(0, 200), 0);
    assert_eq!(scale(UNIT / 2, 200), 100);
    assert_eq!(scale(UNIT / 4, 100), 25);
    assert_eq!(scale(UNIT - 1, 200), 199);
    assert_eq!(scale(UNIT - 1, 1), 0);
    assert_eq!(scale(UNIT - 1, 0), 0);
    assert_eq!(scale(u32::MAX, u32::MAX), 1099511627264);
}

#[test]
fn test_chance_is_a_share_of_all_draws() {
    assert!(chance(0, 1));
    assert!(!chance(0, 0));
    assert!(chance(UNIT - 1, 1000));
    assert!(!chance(UNIT, 1000));
    // seven in ten: the draws below 0.7 times 2^24
    assert!(chance(11_744_051, 700));
    assert!(!chance(11_744_052, 700));
    // five in a thousand
    assert!(chance(83_886, 5));
    assert!(!chance(83_887, 5));
}

#[test]
fn test_sine_at_known_angles() {
    assert_eq!(sin_milli(0), 0);
    assert_eq!(sin_milli(1571), 1000);
    assert_eq!(sin_milli(3142), 0);
    assert_eq!(sin_milli(4713), -1000);
    assert_eq!(sin_milli(6284), 0);
    assert_eq!(sin_milli(524), 500);
    assert_eq!(sin_milli(785), 705);
    assert_eq!(sin_milli(100), 101);
    assert_eq!(sin_milli(-1571), -1000);
    assert_eq!(sin_milli(10_000), -542);
    assert_eq!(sin_milli(6284 * 1000 + 1571), 1000);
}

#[test]
fn test_sine_stays_within_one() {
    let mut angle: i64 = -20_000;
    while angle <= 20_000 {
        let s = sin_milli(angle);
        assert!((-1000..=1000).contains(&s));
        assert_eq!(s, sin_milli(angle + 6284));
        angle += 7;
    }
    assert!((-1000..=1000).contains(&sin_milli(i64::MAX)));
    assert!((-1000..=1000).contains(&sin_milli(i64::MIN)));
}

#[test]
fn test_sine_is_close_to_the_true_sine() {
    let mut angle: i64 = 0;
    while angle <= 6284 {
        let exact = (angle as f64 / 1000.0).sin() * 1000.0;
        let diff = (sin_milli(angle) as f64 - exact).abs();
        assert!(diff < 3.0, "angle {} differs by {}", angle, diff);
        angle += 1;
    }
}

#[test]
fn test_degrees_to_radians() {
    assert_eq!(radians_milli(0), 0);
    assert_eq!(radians_milli(90_000), 1571);
    assert_eq!(radians_milli(180_000), 3142);
    assert_eq!(radians_milli(225_000), 3927);
    assert_eq!(radians_milli(-90_000), -1571);
    assert_eq!(radians_milli(57), 0);
    assert_eq!(radians_milli(58), 1);
}

#[test]
fn test_ratio_rounds_towards_zero_and_stops_at_the_ends() {
    assert_eq!(ratio(7, 3, 2), 10);
    assert_eq!(ratio(-7, 3, 2), -10);
    assert_eq!(ratio(7, -3, 2), -10);
    assert_eq!(ratio(0, 5, 9), 0);
    assert_eq!(ratio(1, 1, 2), 0);
    assert_eq!(ratio(-1, 1, 2), 0);
    assert_eq!(ratio(i64::MAX, 1, 1), i64::MAX);
    assert_eq!(ratio(i64::MAX, i64::MAX, 1), i64::MAX);
    assert_eq!(ratio(i64::MIN, i64::MAX, 1), i64::MIN);
    assert_eq!(ratio(i64::MIN, i64::MIN, i64::MAX), i64::MAX);
    assert_eq!(ratio(i64::MAX, 2, 2), i64::MAX);
}

fn one_place(milli: i64) -> String {
    let mut out = String::from("x");
    push_one_place(&mut out, milli);
    out
}

fn two_places(micro: i64) -> String {
    let mut out = String::from("x");
    push_two_places(&mut out, micro);
    out
}

#[test]
fn test_numbers_as_text() {
    let mut out = String::from("n=");
    push_decimal(&mut out, 0);
    push_decimal(&mut out, 907);
    push_decimal(&mut out, u64::MAX);
    assert_eq!(out, "n=090718446744073709551615");
    assert_eq!(one_place(0), "x0.0");
    assert_eq!(one_place(49), "x0.0");
    assert_eq!(one_place(50), "x0.1");
    assert_eq!(one_place(1234), "x1.2");
    assert_eq!(one_place(1250), "x1.3");
    assert_eq!(one_place(-1250), "x-1.3");
    assert_eq!(one_place(-49), "x-0.0");
    assert_eq!(one_place(999_950), "x1000.0");
    assert_eq!(one_place(i64::MAX), "x9223372036854775.8");
    assert_eq!(one_place(i64::MIN), "x-9223372036854775.8");
    assert_eq!(two_places(0), "x0.00");
    assert_eq!(two_places(4_999), "x0.00");
    assert_eq!(two_places(5_000), "x0.01");
    assert_eq!(two_places(40_712_800), "x40.71");
    assert_eq!(two_places(-74_006_000), "x74.01");
    assert_eq!(two_places(90_000_000), "x90.00");
    assert_eq!(two_places(-179_995_000), "x180.00");
    assert_eq!(two_places(1_050_000), "x1.05");
    let mut out = String::from("at ");
    push_signed_two_places(&mut out, -74_006_000);
    push_signed_two_places(&mut out, 74_006_000);
    push_signed_two_places(&mut out, -4_999);
    assert_eq!(out, "at -74.0174.01-0.00");
}
