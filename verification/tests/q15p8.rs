use avr_q::{Q15p8, Q7p8};

const MIN24: i32 = -0x80_0000;
const MAX24: i32 = 0x7F_FFFF;

const SAMPLES: [i32; 23] = [
    MIN24,
    MIN24 + 1,
    -0x40_0000,
    -921_600,
    -0x8000,
    -32_767,
    -257,
    -256,
    -255,
    -2,
    -1,
    0,
    1,
    2,
    3,
    255,
    256,
    0x0500,
    0x7FFF,
    0x8000,
    0x23_2800,
    MAX24 - 1,
    MAX24,
];

fn clamp24(v: i64) -> i32 {
    v.clamp(MIN24 as i64, MAX24 as i64) as i32
}

fn expected_div(a: i32, b: i32) -> i32 {
    if b == 0 {
        if a >= 0 {
            MAX24
        } else {
            MIN24
        }
    } else {
        clamp24((a as i64 * 256) / b as i64)
    }
}

#[test]
fn q15p8_raw_round_trip() {
    for q in SAMPLES {
        assert_eq!(Q15p8::from_q(q).to_q(), q);
    }
}

#[test]
fn q15p8_from_q_saturates() {
    assert_eq!(Q15p8::from_q(0x80_0000).to_q(), MAX24);
    assert_eq!(Q15p8::from_q(0x123_4567).to_q(), MAX24);
    assert_eq!(Q15p8::from_q(i32::MAX).to_q(), MAX24);
    assert_eq!(Q15p8::from_q(-0x80_0001).to_q(), MIN24);
    assert_eq!(Q15p8::from_q(i32::MIN).to_q(), MIN24);
}

#[test]
fn q15p8_from_int_scales_by_256() {
    assert_eq!(Q15p8::from_int(5).to_q(), 0x000500);
    assert_eq!(Q15p8::from_int(9000).to_q(), 0x232800);
    assert_eq!(Q15p8::from_int(-1).to_q(), -256);
    assert_eq!(Q15p8::from_int(i16::MAX).to_q(), 0x7F_FF00);
    assert_eq!(Q15p8::from_int(i16::MIN).to_q(), MIN24);
}

#[test]
fn q15p8_int_round_trip_for_every_integer() {
    for n in i16::MIN..=i16::MAX {
        assert_eq!(Q15p8::from_int(n).to_int(), n);
    }
    let through: i16 = Q15p8::from(-1234_i16).into();
    assert_eq!(through, -1234);
    assert_eq!(Q15p8::from(200_u8), Q15p8::from_int(200));
    assert_eq!(Q15p8::from(-100_i8), Q15p8::from_int(-100));
}

#[test]
fn q15p8_to_int_rounds_down() {
    assert_eq!(Q15p8::from_q(0x0180).to_int(), 1);
    assert_eq!(Q15p8::from_q(-0x0180).to_int(), -2);
    assert_eq!(Q15p8::from_q(-1).to_int(), -1);
    assert_eq!(Q15p8::from_q(MAX24).to_int(), i16::MAX);
    assert_eq!(Q15p8::from_q(MIN24).to_int(), i16::MIN);
}

#[test]
fn q15p8_fraction_exact_values() {
    assert_eq!(Q15p8::from_fraction(10, 2).to_q(), 0x000500);
    assert_eq!(Q15p8::from_fraction(3, 2).to_q(), 0x000180);
    assert_eq!(Q15p8::from_fraction(7000, 3).to_q(), 597_333);
    assert_eq!(Q15p8::from_fraction(18000, 5).to_q(), 921_600);
    assert_eq!(Q15p8::from_fraction(-18, 5).to_q(), -921);
    assert_eq!(Q15p8::from_fraction(18, -5).to_q(), -921);
    assert_eq!(Q15p8::from_fraction(i16::MIN, 1).to_q(), MIN24);
    assert_eq!(Q15p8::from_fraction(i16::MIN, -1).to_q(), MAX24);
}

#[test]
fn q15p8_fraction_with_zero_denominator() {
    assert_eq!(Q15p8::from_fraction(3, 0).to_q(), MAX24);
    assert_eq!(Q15p8::from_fraction(0, 0).to_q(), MAX24);
    assert_eq!(Q15p8::from_fraction(-3, 0).to_q(), MIN24);
    assert_eq!(Q15p8::const_from_fraction(3, 0).to_q(), MAX24);
    assert_eq!(Q15p8::const_from_fraction(0, 0).to_q(), MAX24);
    assert_eq!(Q15p8::const_from_fraction(-3, 0).to_q(), MIN24);
}

#[test]
fn q15p8_construction_paths_agree() {
    let numbers = [i16::MIN, -18000, -257, -256, -3, -1, 0, 1, 2, 3, 5, 255, 256, 7000, i16::MAX];
    for n in numbers {
        for d in numbers {
            let expected = expected_div(n as i32, d as i32);
            assert_eq!(Q15p8::from_fraction(n, d).to_q(), expected, "{n} / {d}");
            assert_eq!(Q15p8::const_from_fraction(n, d).to_q(), expected, "{n} / {d}");
        }
    }
}

#[test]
fn q15p8_add_and_sub_variants_agree() {
    for a in SAMPLES {
        for b in SAMPLES {
            let x = Q15p8::from_q(a);
            let y = Q15p8::from_q(b);
            let sum = clamp24(a as i64 + b as i64);
            let difference = clamp24(a as i64 - b as i64);
            assert_eq!(x.add(y).to_q(), sum, "{a} + {b}");
            assert_eq!(x.const_add(y).to_q(), sum, "{a} + {b}");
            assert_eq!((x + y).to_q(), sum, "{a} + {b}");
            assert_eq!(x.sub(y).to_q(), difference, "{a} - {b}");
            assert_eq!(x.const_sub(y).to_q(), difference, "{a} - {b}");
            assert_eq!((x - y).to_q(), difference, "{a} - {b}");
        }
    }
}

#[test]
fn q15p8_saturation_boundary() {
    let max = Q15p8::from_q(MAX24);
    let min = Q15p8::from_q(MIN24);
    for p in [1, 2, 256, MAX24] {
        assert_eq!(max.add(Q15p8::from_q(p)), max);
        assert_eq!(max.const_add(Q15p8::from_q(p)), max);
        assert_eq!(min.sub(Q15p8::from_q(p)), min);
        assert_eq!(min.const_sub(Q15p8::from_q(p)), min);
    }
    assert_eq!(min.neg(), max);
    assert_eq!(min.const_neg(), max);
    assert_eq!(min.abs(), max);
    assert_eq!(min.const_abs(), max);
}

#[test]
fn q15p8_div_variants_agree() {
    for a in SAMPLES {
        for b in SAMPLES {
            let x = Q15p8::from_q(a);
            let y = Q15p8::from_q(b);
            let expected = expected_div(a, b);
            assert_eq!(x.div(y).to_q(), expected, "{a} / {b}");
            assert_eq!(x.const_div(y).to_q(), expected, "{a} / {b}");
            assert_eq!((x / y).to_q(), expected, "{a} / {b}");
        }
    }
}

#[test]
fn q15p8_div_by_zero() {
    let zero = Q15p8::from_int(0);
    for a in SAMPLES {
        let expected = if a >= 0 { MAX24 } else { MIN24 };
        assert_eq!(Q15p8::from_q(a).div(zero).to_q(), expected);
        assert_eq!(Q15p8::from_q(a).const_div(zero).to_q(), expected);
    }
}

#[test]
fn q15p8_div_exact_values() {
    let a = Q15p8::from_fraction(1000, 2);
    assert_eq!(a.div(Q15p8::from_int(4)).to_q(), 125 * 256);
    assert_eq!(Q15p8::from_int(1).div(Q15p8::from_int(3)).to_q(), 85);
    assert_eq!(Q15p8::from_int(-1).div(Q15p8::from_int(3)).to_q(), -85);
    assert_eq!(Q15p8::from_int(30000).div(Q15p8::from_fraction(1, 2)).to_q(), MAX24);
    assert_eq!(Q15p8::from_int(-30000).div(Q15p8::from_fraction(1, 2)).to_q(), MIN24);
}

#[test]
fn q15p8_neg_and_abs_variants_agree() {
    for a in SAMPLES {
        let x = Q15p8::from_q(a);
        let negated = clamp24(-(a as i64));
        let absolute = clamp24((a as i64).abs());
        assert_eq!(x.neg().to_q(), negated);
        assert_eq!(x.const_neg().to_q(), negated);
        assert_eq!((-x).to_q(), negated);
        assert_eq!(x.abs().to_q(), absolute);
        assert_eq!(x.const_abs().to_q(), absolute);
    }
}

#[test]
fn q15p8_assign_operators() {
    let mut a = Q15p8::from_int(6000);
    a += Q15p8::from_int(2000);
    assert_eq!(a, Q15p8::from_int(8000));
    a -= Q15p8::from_int(3000);
    assert_eq!(a, Q15p8::from_int(5000));
    a /= Q15p8::from_int(8);
    assert_eq!(a, Q15p8::from_int(625));
    a += Q15p8::from_q(MAX24);
    assert_eq!(a.to_q(), MAX24);
}

#[test]
fn widening_keeps_every_value() {
    for q in i16::MIN..=i16::MAX {
        let narrow = Q7p8::from_q(q);
        let wide = narrow.to_q15p8();
        assert_eq!(wide.to_q(), q as i32);
        assert_eq!(wide.to_q7p8(), narrow);
        assert_eq!(Q7p8::from(Q15p8::from(narrow)), narrow);
    }
}

#[test]
fn widening_five_and_back() {
    let five = Q7p8::from_int(5);
    let wide = five.to_q15p8();
    assert_eq!(wide, Q15p8::from_int(5));
    assert_eq!(wide.to_q(), 0x000500);
    assert_eq!(wide.to_q7p8().to_q(), 0x0500);
}

#[test]
fn narrowing_saturates() {
    assert_eq!(Q15p8::from_int(9000).to_q7p8().to_q(), i16::MAX);
    assert_eq!(Q15p8::from_int(128).to_q7p8().to_q(), i16::MAX);
    assert_eq!(Q15p8::from_int(-9000).to_q7p8().to_q(), i16::MIN);
    assert_eq!(Q15p8::from_q(0x8000).to_q7p8().to_q(), i16::MAX);
    assert_eq!(Q15p8::from_q(-0x8001).to_q7p8().to_q(), i16::MIN);
    assert_eq!(Q15p8::from_q(0x7FFF).to_q7p8().to_q(), i16::MAX);
    assert_eq!(Q15p8::from_q(-0x8000).to_q7p8().to_q(), i16::MIN);
    assert_eq!(Q15p8::from_q(-0x7FFF).to_q7p8().to_q(), -0x7FFF);
}

#[test]
fn q15p8_order_and_equality_follow_the_stored_value() {
    assert!(Q15p8::from_fraction(1, 3) < Q15p8::from_fraction(1, 2));
    assert!(Q15p8::from_int(-1) < Q15p8::from_int(0));
    assert!(Q15p8::from_q(MIN24) < Q15p8::from_q(MAX24));
    assert_eq!(Q15p8::from_fraction(10, 2), Q15p8::from_fraction(20, 4));
}
