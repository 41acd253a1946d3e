//! A unit that exists in memory only. Every command takes effect at once
//! and none fails.

use vstd::prelude::*;
use vstd::string::*;
use crate::device::TwoB;
use crate::error::TwoBError;
use crate::state::TwoBState;
use crate::values::{TwoBBias, TwoBChannel, TwoBMap, TwoBMode, TwoBPower, TwoBRamp, TwoBWarp};

verus! {

/// The battery reading of a new simulated unit.
pub const VIRTUAL_BATTERY: u16 = 1000;

/// The level one step above `value`; past the top it starts again at zero.
pub open spec fn step_up(value: u8) -> u8 {
    if value == 255 {
        0
    } else {
        (value + 1) as u8
    }
}

/// The level one step below `value`; below zero it starts again at the top.
pub open spec fn step_down(value: u8) -> u8 {
    if value == 0 {
        255
    } else {
        (value - 1) as u8
    }
}

/// The firmware version that a simulated unit reports.
pub open spec fn virtual_version() -> Seq<char> {
    "2.122B"@
}

/// The simulated unit.
pub struct VirtualTwoB {
    state: TwoBState,
    version: String,
}

impl VirtualTwoB {
    /// A simulated unit as after a reset, with a battery reading of 1000.
    pub fn new() -> (r: Result<VirtualTwoB, TwoBError>)
        ensures
            r is Ok,
            r->Ok_0.state() == TwoBState::baseline(VIRTUAL_BATTERY),
            r->Ok_0.version() == virtual_version(),
    {
        let version = String::from_str("2.122B");
        let state = TwoBState {
            channel_a: 0,
            channel_b: 0,
            channel_c: 50,
            channel_d: 50,
            mode: TwoBMode::Pulse,
            joined_channels: false,
            power: TwoBPower::LOW,
            bias: TwoBBias::A,
            map: TwoBMap::A,
            ramp: TwoBRamp::X1,
            warp: TwoBWarp::X1,
            battery: VIRTUAL_BATTERY,
        };
        Ok(VirtualTwoB { state, version })
    }
}

impl TwoB for VirtualTwoB {
    closed spec fn state(&self) -> TwoBState {
        self.state
    }

    closed spec fn version(&self) -> Seq<char> {
        self.version@
    }

    /// There is nothing to ask: the state stays as it is.
    fn refresh_state(&mut self) -> (r: Result<(), TwoBError>)
        ensures
            r is Ok,
            final(self).state() == old(self).state(),
            final(self).version() == old(self).version(),
    {
        Ok(())
    }

    /// Whatever was set before, the unit is back at its baseline; the battery
    /// reading and the version stay.
    fn reset(&mut self) -> (r: Result<(), TwoBError>)
        ensures
            r is Ok,
            final(self).state() == TwoBState::baseline(old(self).state().battery),
            final(self).version() == old(self).version(),
    {
        self.state = TwoBState {
            channel_a: 0,
            channel_b: 0,
            channel_c: 50,
            channel_d: 50,
            mode: TwoBMode::Pulse,
            joined_channels: false,
            power: TwoBPower::LOW,
            bias: TwoBBias::A,
            map: TwoBMap::A,
            ramp: TwoBRamp::X1,
            warp: TwoBWarp::X1,
            battery: self.state.battery,
        };
        Ok(())
    }

    /// The first two channels go to zero. Nothing else changes, the other
    /// two channels included.
    fn kill(&mut self) -> (r: Result<(), TwoBError>)
        ensures
            r is Ok,
            final(self).state() == (TwoBState { channel_a: 0, channel_b: 0, ..old(self).state() }),
            final(self).version() == old(self).version(),
    {
        self.state.channel_a = 0;
        self.state.channel_b = 0;
        Ok(())
    }

    fn set_joined_channels(&mut self, enable: bool) -> (r: Result<(), TwoBError>)
        ensures
            r is Ok,
            final(self).state() == (TwoBState { joined_channels: enable, ..old(self).state() }),
            final(self).version() == old(self).version(),
    {
        self.state.joined_channels = enable;
        Ok(())
    }

    fn set_mode(&mut self, mode: TwoBMode) -> (r: Result<(), TwoBError>)
        ensures
            r is Ok,
            final(self).state() == (TwoBState { mode: mode, ..old(self).state() }),
            final(self).version() == old(self).version(),
    {
        self.state.mode = mode;
        Ok(())
    }

    fn set_power(&mut self, power: TwoBPower) -> (r: Result<(), TwoBError>)
        ensures
            r is Ok,
            final(self).state() == (TwoBState { power: power, ..old(self).state() }),
            final(self).version() == old(self).version(),
    {
        self.state.power = power;
        Ok(())
    }

    fn set_map(&mut self, map: TwoBMap) -> (r: Result<(), TwoBError>)
        ensures
            r is Ok,
            final(self).state() == (TwoBState { map: map, ..old(self).state() }),
            final(self).version() == old(self).version(),
    {
        self.state.map = map;
        Ok(())
    }

    fn set_bias(&mut self, bias: TwoBBias) -> (r: Result<(), TwoBError>)
        ensures
            r is Ok,
            final(self).state() == (TwoBState { bias: bias, ..old(self).state() }),
            final(self).version() == old(self).version(),
    {
        self.state.bias = bias;
        Ok(())
    }

    fn set_ramp(&mut self, ramp: TwoBRamp) -> (r: Result<(), TwoBError>)
        ensures
            r is Ok,
            final(self).state() == (TwoBState { ramp: ramp, ..old(self).state() }),
            final(self).version() == old(self).version(),
    {
        self.state.ramp = ramp;
        Ok(())
    }

    fn set_warp(&mut self, warp: TwoBWarp) -> (r: Result<(), TwoBError>)
        ensures
            r is Ok,
            final(self).state() == (TwoBState { warp: warp, ..old(self).state() }),
            final(self).version() == old(self).version(),
    {
        self.state.warp = warp;
        Ok(())
    }

    /// The channel goes up by exactly one; from 255 it wraps to 0.
    fn increment_channel(&mut self, channel: TwoBChannel) -> (r: Result<(), TwoBError>)
        ensures
            r is Ok,
            final(self).state() == old(self).state().with_channel(
                channel,
                step_up(old(self).state().channel(channel)),
            ),
            final(self).version() == old(self).version(),
    {
        match channel {
            TwoBChannel::A => self.state.channel_a = self.state.channel_a.wrapping_add(1),
            TwoBChannel::B => self.state.channel_b = self.state.channel_b.wrapping_add(1),
            TwoBChannel::C => self.state.channel_c = self.state.channel_c.wrapping_add(1),
            TwoBChannel::D => self.state.channel_d = self.state.channel_d.wrapping_add(1),
        }
        Ok(())
    }

    /// The channel goes down by exactly one; from 0 it wraps to 255.
    fn decrement_channel(&mut self, channel: TwoBChannel) -> (r: Result<(), TwoBError>)
        ensures
            r is Ok,
            final(self).state() == old(self).state().with_channel(
                channel,
                step_down(old(self).state().channel(channel)),
            ),
            final(self).version() == old(self).version(),
    {
        match channel {
            TwoBChannel::A => self.state.channel_a = self.state.channel_a.wrapping_sub(1),
            TwoBChannel::B => self.state.channel_b = self.state.channel_b.wrapping_sub(1),
            TwoBChannel::C => self.state.channel_c = self.state.channel_c.wrapping_sub(1),
            TwoBChannel::D => self.state.channel_d = self.state.channel_d.wrapping_sub(1),
        }
        Ok(())
    }

    fn set_channel(&mut self, channel: TwoBChannel, value: u8) -> (r: Result<(), TwoBError>)
        ensures
            r is Ok,
            final(self).state() == old(self).state().with_channel(channel, value),
            final(self).version() == old(self).version(),
    {
        match channel {
            TwoBChannel::A => self.state.channel_a = value,
            TwoBChannel::B => self.state.channel_b = value,
            TwoBChannel::C => self.state.channel_c = value,
            TwoBChannel::D => self.state.channel_d = value,
        }
        Ok(())
    }

    /// Every setting of `state` is taken over. Its battery reading is not:
    /// that is the unit's to report.
    fn set_state(&mut self, state: TwoBState) -> (r: Result<(), TwoBError>)
        ensures
            r is Ok,
            final(self).state() == (TwoBState { battery: old(self).state().battery, ..state }),
            final(self).version() == old(self).version(),
    {
        let battery = self.state.battery;
        self.state = state;
        self.state.battery = battery;
        Ok(())
    }

    fn get_state(&self) -> (s: TwoBState) {
        self.state.clone()
    }

    fn get_version(&self) -> (v: String) {
        self.version.clone()
    }
}

} // verus!
