#![allow(non_snake_case)]

use cb_simulation_util::fixed::FIX_KOMMA_SHIFT_BITS;
use cb_simulation_util::plant::ConfigError;
use cb_simulation_util::pt1::PT1;

#[test]
fn pt1_test_PT1_new() {
    assert_eq!(-2048 >> FIX_KOMMA_SHIFT_BITS, -2);
    let sut = PT1::new(400, 400, 2).unwrap();
    assert_eq!(sut.kp(), 2048);
    assert_eq!(sut.alpha(), 512);
}

#[test]
fn test_PT1_transfer() {
    let mut sut = PT1::new(400, 400, 2).unwrap();
    assert_eq!(1000, sut.transfer(1000));
}

#[test]
fn lag_settles_toward_gain_times_input() {
    let mut sut = PT1::new(1, 3, 1).unwrap();
    let outs: Vec<i32> = (0..4).map(|_| sut.transfer(1000)).collect();
    assert_eq!(outs, vec![250, 437, 578, 683]);
}

#[test]
fn lag_rejects_invalid_parameters() {
    assert_eq!(PT1::new(0, 4, 2).err(), Some(ConfigError::InvalidSampleTime));
    assert_eq!(PT1::new(4, 3, 2).err(), Some(ConfigError::InvalidTimeConstant));
    assert_eq!(PT1::new(4, 4, 0).err(), Some(ConfigError::InvalidGain));
    assert_eq!(PT1::new(4, 4, 1000).err(), Some(ConfigError::InvalidGain));
    assert!(PT1::new(4, 4, 999).is_ok());
}
