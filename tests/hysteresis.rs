#![allow(non_snake_case)]

use cb_simulation_util::hysteresis::{Direction, Hysteresis, HysteresisBuilder, LinearFn};
use cb_simulation_util::plant::TransferTimeDomain;
use cb_simulation_util::{NotDefinedError, TransferFunction};

/// A real number as a fixed-point parameter.
fn fx(x: f64) -> i32 {
    (x * 1024.0) as i32
}

/// A real number as a fixed-point threshold.
fn th(x: f64) -> i64 {
    (x * 1024.0) as i64
}

fn seg(m: f64, n: f64) -> LinearFn {
    LinearFn { m: fx(m), n: fx(n) }
}

#[test]
fn test_HysteresisBuilder_default_build() {
    let expected = Hysteresis {
        lower_fn: seg(1.0, 0.0),
        upper_fn: seg(1.0, 1.0),
        lower: th(0.0),
        upper: th(0.0),
        direction: Direction::FromLower,
    };
    let sut = HysteresisBuilder::new(seg(1.0, 0.0), seg(1.0, 1.0)).build();
    assert_eq!(expected, sut)
}

#[test]
fn test_HysteresisBuilder_upper_direction_build() {
    let expected = Hysteresis {
        lower_fn: seg(1.0, 0.0),
        upper_fn: seg(1.0, 1.0),
        lower: th(0.0),
        upper: th(0.0),
        direction: Direction::FromUpper,
    };
    let sut = HysteresisBuilder::new(seg(1.0, 0.0), seg(1.0, 1.0))
        .upper_direction()
        .build();
    assert_eq!(expected, sut)
}

#[test]
fn test_HysteresisBuilder_spread_x_build() {
    let expected = Hysteresis {
        lower_fn: seg(1.0, 0.0),
        upper_fn: seg(1.0, 1.0),
        lower: th(-0.5),
        upper: th(0.5),
        direction: Direction::FromLower,
    };
    let sut = HysteresisBuilder::new(seg(1.0, 0.0), seg(1.0, 1.0))
        .spread_x(fx(1.0))
        .build();
    assert_eq!(expected, sut)
}

#[test]
fn test_HysteresisBuilder_spread_y_build() {
    let expected = Hysteresis {
        lower_fn: seg(0.5, 0.0),
        upper_fn: seg(1.0, 1.0),
        lower: th(-1.0),
        upper: th(1.0),
        direction: Direction::FromLower,
    };
    let sut = HysteresisBuilder::new(seg(0.5, 0.0), seg(1.0, 1.0))
        .spread_y(fx(1.0))
        .build();
    assert_eq!(expected, sut)
}

#[test]
fn test_HysteresisBuilder_cross_build() {
    let expected = Hysteresis {
        lower_fn: seg(0.5, 0.0),
        upper_fn: seg(1.0, 1.0),
        lower: th(-2.0),
        upper: th(-2.0),
        direction: Direction::FromLower,
    };
    let sut = HysteresisBuilder::new(seg(0.5, 0.0), seg(1.0, 1.0))
        .cross()
        .build();
    assert_eq!(expected, sut)
}

#[test]
fn test_HysteresisBuilder_lower_x_build() {
    let expected = Hysteresis {
        lower_fn: seg(0.5, 0.0),
        upper_fn: seg(1.0, 1.0),
        lower: th(1.0),
        upper: th(2.0),
        direction: Direction::FromLower,
    };
    let sut = HysteresisBuilder::new(seg(0.5, 0.0), seg(1.0, 1.0))
        .spread_x(fx(1.0))
        .lower_x(fx(1.0))
        .build();
    assert_eq!(expected, sut)
}

#[test]
fn test_HysteresisBuilder_upper_x_build() {
    let expected = Hysteresis {
        lower_fn: seg(0.5, 0.0),
        upper_fn: seg(1.0, 1.0),
        lower: th(0.0),
        upper: th(1.0),
        direction: Direction::FromLower,
    };
    let sut = HysteresisBuilder::new(seg(0.5, 0.0), seg(1.0, 1.0))
        .spread_x(fx(1.0))
        .upper_x(fx(1.0))
        .build();
    assert_eq!(expected, sut)
}

#[test]
fn test_HysteresisBuilder_lower_y_build() {
    let expected = Hysteresis {
        lower_fn: seg(0.5, 0.0),
        upper_fn: seg(1.0, 1.0),
        lower: th(0.0),
        upper: th(1.0),
        direction: Direction::FromLower,
    };
    let sut = HysteresisBuilder::new(seg(0.5, 0.0), seg(1.0, 1.0))
        .spread_x(fx(1.0))
        .lower_y(fx(1.0))
        .build();
    assert_eq!(expected, sut)
}

#[test]
fn test_HysteresisBuilder_upper_y_build() {
    let expected = Hysteresis {
        lower_fn: seg(0.5, 0.0),
        upper_fn: seg(1.0, 1.0),
        lower: th(-1.0),
        upper: th(0.0),
        direction: Direction::FromLower,
    };
    let sut = HysteresisBuilder::new(seg(0.5, 0.0), seg(1.0, 1.0))
        .spread_x(fx(1.0))
        .upper_y(fx(1.0))
        .build();
    assert_eq!(expected, sut)
}

#[test]
fn equal_slopes_leave_derived_values_unset() {
    let base = HysteresisBuilder::new(seg(1.0, 0.0), seg(1.0, 1.0)).spread_x(fx(1.0));
    let sut = base.spread_y(fx(3.0)).cross().lower_y(fx(1.0)).upper_y(fx(1.0)).build();
    assert_eq!(sut, base.build());
    assert_eq!(sut.lower, th(-0.5));
    assert_eq!(sut.upper, th(0.5));
}

#[test]
fn odd_spread_stays_symmetric() {
    let sut = HysteresisBuilder::new(seg(1.0, 0.0), seg(1.0, 0.0)).spread_x(3).build();
    assert_eq!(sut.lower, -1);
    assert_eq!(sut.upper, 1);
}

#[test]
fn segment_evaluates_fixed_point() {
    assert_eq!(seg(0.5, 1.0).eval(10), 6);
    assert_eq!(seg(0.5, 0.0).eval(-3), -2);
    assert_eq!(seg(2.0, 0.0).eval(i32::MAX), i32::MAX);
    assert_eq!(seg(2.0, 0.0).eval(i32::MIN), i32::MIN);
}

#[test]
fn band_keeps_lower_branch_until_upper_threshold() {
    // Lower branch y = x, upper branch y = x + 100; band [0, 10].
    let mut h = HysteresisBuilder::new(seg(1.0, 0.0), seg(1.0, 100.0))
        .lower_x(fx(0.0))
        .upper_x(fx(10.0))
        .build();
    assert_eq!(h.step(-5), -5);
    assert_eq!(h.direction, Direction::FromLower);
    assert_eq!(h.step(5), 5);
    assert_eq!(h.step(9), 9);
    assert_eq!(h.step(10), 10);
    assert_eq!(h.direction, Direction::FromLower);
    assert_eq!(h.step(11), 111);
    assert_eq!(h.direction, Direction::FromUpper);
    assert_eq!(h.step(10), 110);
    assert_eq!(h.step(0), 100);
    assert_eq!(h.step(-1), -1);
    assert_eq!(h.direction, Direction::FromLower);
}

#[test]
fn hysteresis_transfer_never_fails() {
    let mut h = HysteresisBuilder::new(seg(1.0, 0.0), seg(1.0, 100.0))
        .upper_direction()
        .build();
    let r: Result<i32, NotDefinedError> = h.transfer(0);
    assert_eq!(r, Ok(100));
    assert_eq!(h.transfer_td(-1), -1);
    assert_eq!(h.transfer(0), Ok(0));
}
