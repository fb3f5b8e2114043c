#![allow(non_snake_case)]

use cb_simulation_util::fixed::FIX_KOMMA_SHIFT_BITS;
use cb_simulation_util::hysteresis::{HysteresisBuilder, LinearFn};
use cb_simulation_util::plant::pt0::{MAX_BUFFER_SIZE, PT0};
use cb_simulation_util::plant::pt1::PT1;
use cb_simulation_util::plant::pt2::PT2;
use cb_simulation_util::plant::{
    BoxedTransferTimeDomain, ConfigError, DynTransferTimeDomain, TransferTimeDomain,
    TypeIdentifier,
};

fn run<E: TransferTimeDomain<i32>>(e: &mut E, inputs: &[i32]) -> Vec<i32> {
    inputs.iter().map(|u| e.transfer_td(*u)).collect()
}

#[test]
fn test_PT0_new() {
    assert_eq!(-2048 >> FIX_KOMMA_SHIFT_BITS, -2);
    let sut = PT0::default().set_kp(2);
    assert_eq!(sut.kp(), 2048);
    assert_eq!(sut.t0_time(), 0);
    assert_eq!(sut.sample_time(), 1);
    assert_eq!(sut.delay_samples(), 0);
}

#[test]
fn test_PT0_i32_transfer_t0_is_null() {
    let mut sut = PT0::default();
    assert_eq!(1000, sut.transfer_td(1000));
}

#[test]
fn pt0_delay_of_one_sample() {
    let mut sut = PT0::default().set_t0_time(1).unwrap();
    assert_eq!(run(&mut sut, &[100, 200, 300]), vec![0, 100, 200]);
}

#[test]
fn pt0_delay_of_two_samples() {
    let mut sut = PT0::default().set_t0_time(2).unwrap();
    assert_eq!(
        run(&mut sut, &[100, 1000, 2000, 2000, 2000]),
        vec![0, 0, 100, 1000, 2000]
    );
}

#[test]
fn pt0_constant_input_appears_after_delay_times_gain() {
    let mut sut = PT0::default().set_kp(3).set_t0_time(4).unwrap();
    assert_eq!(run(&mut sut, &[7; 7]), vec![0, 0, 0, 0, 21, 21, 21]);
}

#[test]
fn pt0_delay_is_floor_of_time_ratio() {
    let sut = PT0::default()
        .set_sample_time_or_default(3)
        .set_t0_time(8)
        .unwrap();
    assert_eq!(sut.delay_samples(), 2);
}

#[test]
fn pt0_capacity_is_checked_at_configuration() {
    let r = PT0::default().set_t0_time(1001);
    assert_eq!(
        r.err(),
        Some(ConfigError::BufferSizeExceeded { requested: 1001, maximum: MAX_BUFFER_SIZE })
    );
    let full = PT0::default().set_t0_time(1000).unwrap();
    assert_eq!(full.delay_samples(), 1000);
    let fallback = PT0::default().set_t0_time_or_default(5000);
    assert_eq!(fallback.t0_time(), 0);
}

#[test]
fn pt0_rejects_invalid_sample_time() {
    let sut = PT0::default().set_t0_time(500).unwrap();
    assert_eq!(sut.clone().set_sample_time(0).err(), Some(ConfigError::InvalidSampleTime));
    let long = PT0::default().set_sample_time(10).unwrap().set_t0_time(5000).unwrap();
    assert_eq!(
        long.set_sample_time(4).err(),
        Some(ConfigError::BufferSizeExceeded { requested: 1250, maximum: MAX_BUFFER_SIZE })
    );
    assert_eq!(sut.set_sample_time(5).unwrap().delay_samples(), 100);
}

#[test]
fn pt0_sample_time_falls_back() {
    let sut = PT0::default().set_t0_time(500).unwrap();
    assert_eq!(sut.clone().set_sample_time_or_default(0).sample_time(), 1);
    assert_eq!(sut.clone().set_sample_time_or_default(2).delay_samples(), 250);
    let long = PT0::default()
        .set_sample_time_or_default(10)
        .set_t0_time(5000)
        .unwrap();
    assert_eq!(long.clone().set_sample_time_or_default(1).sample_time(), 10);
    assert_eq!(long.set_sample_time_or_default(5).sample_time(), 5);
}

#[test]
fn pt0_negative_input_and_saturation() {
    let mut sut = PT0::default().set_kp(-2);
    assert_eq!(sut.transfer_td(-3), 6);
    let mut big = PT0::default().set_kp(1000);
    assert_eq!(big.transfer_td(i32::MAX), i32::MAX);
    assert_eq!(big.transfer_td(i32::MIN), i32::MIN);
}

#[test]
fn test_PT1_new() {
    assert_eq!(-2048 >> FIX_KOMMA_SHIFT_BITS, -2);
    let sut = PT1::default().set_kp(2).unwrap();
    assert_eq!(sut.kp(), 2048);
    assert_eq!(sut.t1_time(), 1);
    assert_eq!(sut.sample_time(), 1);
}

#[test]
fn test_PT1_i32_transfer() {
    let mut sut = PT1::default();
    assert_eq!(1000, sut.transfer_td(1000));
}

#[test]
fn pt1_unit_lag_passes_inputs_through() {
    let mut sut = PT1::default();
    let inputs = [1000, -500, 7, 123456, i32::MIN, i32::MAX, 0];
    assert_eq!(run(&mut sut, &inputs), inputs.to_vec());
}

#[test]
fn pt1_converges_with_single_shift() {
    // alpha = 1/2, gain 1: 0 -> 500 -> 750 -> 875.
    let mut sut = PT1::default()
        .set_t1_time(2)
        .unwrap();
    assert_eq!(run(&mut sut, &[1000, 1000, 1000]), vec![500, 750, 875]);
}

#[test]
fn pt1_zero_time_constant_is_a_gain() {
    let mut sut = PT1::default()
        .set_kp(3)
        .unwrap()
        .set_t1_time(0)
        .unwrap()
        .set_sample_time(5)
        .unwrap();
    assert_eq!(run(&mut sut, &[10, -4]), vec![30, -12]);
}

#[test]
fn pt1_rejects_invalid_parameters() {
    assert_eq!(PT1::default().set_sample_time(0).err(), Some(ConfigError::InvalidSampleTime));
    assert_eq!(PT1::default().set_sample_time(2).err(), Some(ConfigError::InvalidTimeConstant));
    let slow = PT1::default().set_t1_time(10).unwrap();
    assert_eq!(slow.set_sample_time(10).unwrap().sample_time(), 10);
    let sut = PT1::default().set_sample_time(1).unwrap().set_t1_time(4).unwrap();
    assert_eq!(sut.set_sample_time(2).unwrap().set_t1_time(1).err(), Some(ConfigError::InvalidTimeConstant));
    assert_eq!(PT1::default().set_kp(0).err(), Some(ConfigError::InvalidGain));
    assert_eq!(PT1::default().set_kp(-1).err(), Some(ConfigError::InvalidGain));
}

#[test]
fn test_PT2_new() {
    assert_eq!(-2048 >> FIX_KOMMA_SHIFT_BITS, -2);
    let sut = PT2::default().set_kp(2);
    assert_eq!(sut.kp(), 2048);
    assert_eq!(sut.omega(), 1024);
    assert_eq!(sut.damping(), 0);
    assert_eq!(sut.sample_time(), 1);
}

#[test]
fn test_PT2_i32_transfer() {
    let mut sut = PT2::default();
    assert_eq!(0, sut.transfer_td(1000));
}

#[test]
fn pt2_undamped_euler_steps() {
    let mut sut = PT2::default();
    assert_eq!(run(&mut sut, &[1000, 1000, 1000]), vec![0, 1000, 3000]);
}

#[test]
fn pt2_saturates_instead_of_overflowing() {
    let mut sut = PT2::default().set_kp(1000);
    let outs = run(&mut sut, &[i32::MAX; 200]);
    assert_eq!(outs[0], 0);
    assert!(outs.iter().any(|y| *y == i32::MAX || *y == i32::MIN));
}

#[test]
fn pt2_setters_fall_back_to_defaults() {
    let sut = PT2::default();
    assert_eq!(sut.set_sample_time_or_default(0).sample_time(), 1);
    assert_eq!(sut.set_omega_or_default(512).omega(), 512);
    assert_eq!(sut.set_omega_or_default(2048).omega(), 2048);
    assert_eq!(sut.set_omega_or_default(0).omega(), 1024);
    assert_eq!(sut.set_omega_or_default(-5).omega(), 1024);
    assert_eq!(sut.set_damping_or_default(300).damping(), 300);
    assert_eq!(sut.set_damping_or_default(-1).damping(), 1024);
    assert_eq!(sut.set_t1_time_or_default(4).omega(), 256);
    assert_eq!(sut.set_t1_time_or_default(0).omega(), 1024);
}

#[test]
fn pt2_rejects_invalid_parameters() {
    let sut = PT2::default();
    assert_eq!(sut.set_sample_time(0).err(), Some(ConfigError::InvalidSampleTime));
    assert_eq!(sut.set_sample_time(4).unwrap().sample_time(), 4);
    assert_eq!(sut.set_omega(0).err(), Some(ConfigError::InvalidFrequency));
    assert_eq!(sut.set_omega(-1024).err(), Some(ConfigError::InvalidFrequency));
    assert_eq!(sut.set_damping(-1).err(), Some(ConfigError::NegativeDamping));
    assert_eq!(sut.set_damping(0).unwrap().damping(), 0);
    let slow = sut.set_sample_time(2).unwrap();
    assert_eq!(slow.set_t1_time(1).err(), Some(ConfigError::InvalidTimeConstant));
    assert_eq!(sut.set_t1_time(2000).err(), Some(ConfigError::InvalidTimeConstant));
    assert_eq!(slow.set_t2_time(1).err(), Some(ConfigError::InvalidTimeConstant));
    assert_eq!(sut.set_t2_time(2_000_000).err(), Some(ConfigError::InvalidTimeConstant));
}

#[test]
fn pt2_two_time_constants() {
    // t1 = 1, t2 = 4: omega = 1 / sqrt(4) = 0.5, damping = 5 / 8.
    let sut = PT2::default().set_t2_time_or_default(4);
    assert_eq!(sut.omega(), 512);
    assert_eq!(sut.damping(), 640);
    let short = PT2::default().set_sample_time_or_default(3).set_t2_time_or_default(2);
    assert_eq!(short.omega(), 1024);
    assert_eq!(short.damping(), 1024);
}

#[test]
fn handle_names_its_kind() {
    let h = HysteresisBuilder::new(LinearFn { m: 1024, n: 0 }, LinearFn { m: 1024, n: 0 }).build();
    assert_eq!(DynTransferTimeDomain::PT0(PT0::default()).short_type_name(), "PT0");
    assert_eq!(DynTransferTimeDomain::PT1(PT1::default()).short_type_name(), "PT1");
    assert_eq!(DynTransferTimeDomain::PT2(PT2::default()).short_type_name(), "PT2");
    assert_eq!(DynTransferTimeDomain::Hysteresis(h).short_type_name(), "Hysteresis");
    assert_eq!(BoxedTransferTimeDomain::default().short_type_name(), "PT1");
}

#[test]
fn handle_forwards_steps() {
    let mut elements: Vec<BoxedTransferTimeDomain> = vec![
        DynTransferTimeDomain::PT0(PT0::default().set_t0_time(1).unwrap()),
        DynTransferTimeDomain::PT1(PT1::default().set_t1_time(2).unwrap()),
        DynTransferTimeDomain::PT2(PT2::default()),
    ];
    let outs: Vec<Vec<i32>> = elements.iter_mut().map(|e| run(e, &[1000, 1000])).collect();
    assert_eq!(outs, vec![vec![0, 1000], vec![500, 750], vec![0, 1000]]);
}

#[test]
fn clone_steps_independently() {
    let mut source = DynTransferTimeDomain::PT0(PT0::default().set_t0_time(2).unwrap());
    run(&mut source, &[5, 6]);
    let mut copy = source.clone();
    assert!(copy == source);
    assert_eq!(run(&mut copy, &[100, 200, 300]), vec![5, 6, 100]);
    assert!(copy != source);
    assert_eq!(run(&mut source, &[7, 8, 9]), vec![5, 6, 7]);
}

#[test]
fn equality_is_kind_sensitive() {
    let a = DynTransferTimeDomain::PT1(PT1::default());
    let b = DynTransferTimeDomain::PT1(PT1::default());
    let c = DynTransferTimeDomain::PT0(PT0::default());
    assert!(a == a);
    assert!(a == b && b == a);
    assert!(a != c && c != a);
    let mut stepped = b.clone();
    stepped.transfer_td(10);
    assert!(stepped != a);
    assert!(PT0::default().set_t0_time(3).unwrap() == PT0::default().set_t0_time(3).unwrap());
    assert!(PT0::default().set_t0_time(3).unwrap() != PT0::default().set_t0_time(2).unwrap());
}
