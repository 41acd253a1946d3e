use estim2b_lib::{
    TwoB, TwoBBias, TwoBChannel, TwoBMap, TwoBMode, TwoBPower, TwoBRamp, TwoBState, TwoBWarp,
    VirtualTwoB,
};

fn baseline(battery: u16) -> TwoBState {
    TwoBState {
        channel_a: 0,
        channel_b: 0,
        channel_c: 50,
        channel_d: 50,
        mode: TwoBMode::Pulse,
        joined_channels: false,
        power: TwoBPower::LOW,
        bias: TwoBBias::A,
        map: TwoBMap::A,
        ramp: TwoBRamp::X1,
        warp: TwoBWarp::X1,
        battery,
    }
}

fn busy() -> VirtualTwoB {
    let mut twob = VirtualTwoB::new().unwrap();
    twob.set_state(TwoBState {
        channel_a: 1,
        channel_b: 2,
        channel_c: 4,
        channel_d: 8,
        mode: TwoBMode::Throb,
        joined_channels: true,
        power: TwoBPower::HIGH,
        bias: TwoBBias::MAX,
        map: TwoBMap::C,
        ramp: TwoBRamp::X4,
        warp: TwoBWarp::X32,
        battery: 7,
    })
    .unwrap();
    twob
}

#[test]
fn new_simulator_is_at_the_baseline() {
    let twob = VirtualTwoB::new().unwrap();
    assert_eq!(twob.get_state(), baseline(1000));
    assert_eq!(twob.get_version(), "2.122B");
    assert_eq!(twob.get_battery(), 1000);
}

#[test]
fn simulator_set_state_keeps_its_own_battery() {
    let twob = busy();
    let state = twob.get_state();
    assert_eq!(state.battery, 1000);
    assert_eq!(state.channel_d, 8);
    assert_eq!(state.warp, TwoBWarp::X32);
    assert_eq!(twob.get_mode(), TwoBMode::Throb);
    assert_eq!(twob.get_power(), TwoBPower::HIGH);
    assert_eq!(twob.get_bias(), TwoBBias::MAX);
    assert_eq!(twob.get_map(), TwoBMap::C);
    assert_eq!(twob.get_ramp(), TwoBRamp::X4);
    assert_eq!(twob.get_warp(), TwoBWarp::X32);
    assert!(twob.get_joined_channels());
    assert_eq!(twob.get_channel(TwoBChannel::A), 1);
    assert_eq!(twob.get_channel(TwoBChannel::B), 2);
    assert_eq!(twob.get_channel(TwoBChannel::C), 4);
    assert_eq!(twob.get_channel(TwoBChannel::D), 8);
}

#[test]
fn simulator_reset_after_mutations() {
    let mut twob = busy();
    twob.increment_channel(TwoBChannel::C).unwrap();
    twob.set_mode(TwoBMode::Random).unwrap();
    twob.kill().unwrap();
    twob.reset().unwrap();
    assert_eq!(twob.get_state(), baseline(1000));
    assert_eq!(twob.get_version(), "2.122B");
    twob.reset().unwrap();
    assert_eq!(twob.get_state(), baseline(1000));
}

#[test]
fn simulator_kill_zeroes_the_first_two_channels_only() {
    let mut twob = busy();
    let before = twob.get_state();
    twob.kill().unwrap();
    assert_eq!(twob.get_state(), TwoBState { channel_a: 0, channel_b: 0, ..before });
    assert_eq!(twob.get_channel(TwoBChannel::C), 4);
    assert_eq!(twob.get_channel(TwoBChannel::D), 8);
    assert_eq!(twob.get_version(), "2.122B");
}

#[test]
fn simulator_steps_wrap_around() {
    let mut twob = VirtualTwoB::new().unwrap();
    twob.decrement_channel(TwoBChannel::A).unwrap();
    assert_eq!(twob.get_channel(TwoBChannel::A), 255);
    twob.increment_channel(TwoBChannel::A).unwrap();
    assert_eq!(twob.get_channel(TwoBChannel::A), 0);
    twob.set_channel(TwoBChannel::D, 255).unwrap();
    twob.increment_channel(TwoBChannel::D).unwrap();
    assert_eq!(twob.get_channel(TwoBChannel::D), 0);
    twob.increment_channel(TwoBChannel::C).unwrap();
    assert_eq!(twob.get_channel(TwoBChannel::C), 51);
    twob.decrement_channel(TwoBChannel::B).unwrap();
    twob.decrement_channel(TwoBChannel::B).unwrap();
    assert_eq!(twob.get_channel(TwoBChannel::B), 254);
    assert_eq!(
        twob.get_state(),
        TwoBState { channel_a: 0, channel_b: 254, channel_c: 51, channel_d: 0, ..baseline(1000) }
    );
}

#[test]
fn simulator_setters_touch_one_setting_each() {
    let mut twob = VirtualTwoB::new().unwrap();
    twob.set_joined_channels(true).unwrap();
    assert_eq!(twob.get_state(), TwoBState { joined_channels: true, ..baseline(1000) });
    twob.set_joined_channels(false).unwrap();
    twob.set_mode(TwoBMode::Cycle).unwrap();
    assert_eq!(twob.get_state(), TwoBState { mode: TwoBMode::Cycle, ..baseline(1000) });
    twob.reset().unwrap();
    twob.set_power(TwoBPower::DYNAMIC).unwrap();
    assert_eq!(twob.get_state(), TwoBState { power: TwoBPower::DYNAMIC, ..baseline(1000) });
    twob.reset().unwrap();
    twob.set_map(TwoBMap::B).unwrap();
    assert_eq!(twob.get_state(), TwoBState { map: TwoBMap::B, ..baseline(1000) });
    twob.reset().unwrap();
    twob.set_bias(TwoBBias::AVERAGE).unwrap();
    assert_eq!(twob.get_state(), TwoBState { bias: TwoBBias::AVERAGE, ..baseline(1000) });
    twob.reset().unwrap();
    twob.set_ramp(TwoBRamp::X3).unwrap();
    assert_eq!(twob.get_state(), TwoBState { ramp: TwoBRamp::X3, ..baseline(1000) });
    twob.reset().unwrap();
    twob.set_warp(TwoBWarp::X8).unwrap();
    assert_eq!(twob.get_state(), TwoBState { warp: TwoBWarp::X8, ..baseline(1000) });
    twob.reset().unwrap();
    twob.set_channel(TwoBChannel::B, 77).unwrap();
    assert_eq!(twob.get_state(), TwoBState { channel_b: 77, ..baseline(1000) });
    twob.refresh_state().unwrap();
    assert_eq!(twob.get_state(), TwoBState { channel_b: 77, ..baseline(1000) });
}
