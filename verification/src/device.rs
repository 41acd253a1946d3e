//! What every backend of a unit offers: the commands, and reads of the state
//! that the handle remembers.

use vstd::prelude::*;
use crate::error::TwoBError;
use crate::state::TwoBState;
use crate::values::{TwoBBias, TwoBChannel, TwoBMap, TwoBMode, TwoBPower, TwoBRamp, TwoBWarp};

verus! {

/// A handle on one unit. The commands may fail; a command on a single
/// setting that fails leaves what the handle remembers as it was. The reads
/// never fail: they answer from what the handle remembers.
pub trait TwoB: Send {
    /// The state that the handle remembers.
    spec fn state(&self) -> TwoBState;

    /// The firmware version that the handle remembers.
    spec fn version(&self) -> Seq<char>;

    /// Asks the unit for its state.
    fn refresh_state(&mut self) -> (r: Result<(), TwoBError>)
        ensures
            r is Err ==> final(self).state() == old(self).state() && final(self).version() == old(
                self,
            ).version(),
    ;

    /// Puts the unit back to its defaults.
    fn reset(&mut self) -> (r: Result<(), TwoBError>)
        ensures
            r is Err ==> final(self).state() == old(self).state() && final(self).version() == old(
                self,
            ).version(),
    ;

    /// Takes the output away at once.
    fn kill(&mut self) -> (r: Result<(), TwoBError>)
        ensures
            r is Err ==> final(self).state() == old(self).state() && final(self).version() == old(
                self,
            ).version(),
    ;

    /// Joins or parts the channels.
    fn set_joined_channels(&mut self, enable: bool) -> (r: Result<(), TwoBError>)
        ensures
            r is Err ==> final(self).state() == old(self).state() && final(self).version() == old(
                self,
            ).version(),
    ;

    fn set_mode(&mut self, mode: TwoBMode) -> (r: Result<(), TwoBError>)
        ensures
            r is Err ==> final(self).state() == old(self).state() && final(self).version() == old(
                self,
            ).version(),
    ;

    fn set_power(&mut self, power: TwoBPower) -> (r: Result<(), TwoBError>)
        ensures
            r is Err ==> final(self).state() == old(self).state() && final(self).version() == old(
                self,
            ).version(),
    ;

    fn set_map(&mut self, map: TwoBMap) -> (r: Result<(), TwoBError>)
        ensures
            r is Err ==> final(self).state() == old(self).state() && final(self).version() == old(
                self,
            ).version(),
    ;

    fn set_bias(&mut self, bias: TwoBBias) -> (r: Result<(), TwoBError>)
        ensures
            r is Err ==> final(self).state() == old(self).state() && final(self).version() == old(
                self,
            ).version(),
    ;

    fn set_ramp(&mut self, ramp: TwoBRamp) -> (r: Result<(), TwoBError>)
        ensures
            r is Err ==> final(self).state() == old(self).state() && final(self).version() == old(
                self,
            ).version(),
    ;

    fn set_warp(&mut self, warp: TwoBWarp) -> (r: Result<(), TwoBError>)
        ensures
            r is Err ==> final(self).state() == old(self).state() && final(self).version() == old(
                self,
            ).version(),
    ;

    /// Raises a channel by one step.
    fn increment_channel(&mut self, channel: TwoBChannel) -> (r: Result<(), TwoBError>)
        ensures
            r is Err ==> final(self).state() == old(self).state() && final(self).version() == old(
                self,
            ).version(),
    ;

    /// Lowers a channel by one step.
    fn decrement_channel(&mut self, channel: TwoBChannel) -> (r: Result<(), TwoBError>)
        ensures
            r is Err ==> final(self).state() == old(self).state() && final(self).version() == old(
                self,
            ).version(),
    ;

    /// Sets a channel to a level.
    fn set_channel(&mut self, channel: TwoBChannel, value: u8) -> (r: Result<(), TwoBError>)
        ensures
            r is Err ==> final(self).state() == old(self).state() && final(self).version() == old(
                self,
            ).version(),
    ;

    /// Brings the unit to `state`, setting by setting. A failure on the way
    /// leaves the settings that were already sent in force.
    fn set_state(&mut self, state: TwoBState) -> (r: Result<(), TwoBError>);

    /// The state that the handle remembers.
    fn get_state(&self) -> (s: TwoBState)
        ensures
            s == self.state(),
    ;

    fn get_mode(&self) -> (mode: TwoBMode)
        ensures
            mode == self.state().mode,
    {
        self.get_state().mode
    }

    fn get_power(&self) -> (power: TwoBPower)
        ensures
            power == self.state().power,
    {
        self.get_state().power
    }

    fn get_bias(&self) -> (bias: TwoBBias)
        ensures
            bias == self.state().bias,
    {
        self.get_state().bias
    }

    fn get_joined_channels(&self) -> (joined: bool)
        ensures
            joined == self.state().joined_channels,
    {
        self.get_state().joined_channels
    }

    fn get_map(&self) -> (map: TwoBMap)
        ensures
            map == self.state().map,
    {
        self.get_state().map
    }

    fn get_ramp(&self) -> (ramp: TwoBRamp)
        ensures
            ramp == self.state().ramp,
    {
        self.get_state().ramp
    }

    fn get_warp(&self) -> (warp: TwoBWarp)
        ensures
            warp == self.state().warp,
    {
        self.get_state().warp
    }

    fn get_battery(&self) -> (battery: u16)
        ensures
            battery == self.state().battery,
    {
        self.get_state().battery
    }

    /// The level of one channel.
    fn get_channel(&self, channel: TwoBChannel) -> (value: u8)
        ensures
            value == self.state().channel(channel),
    {
        match channel {
            TwoBChannel::A => self.get_state().channel_a,
            TwoBChannel::B => self.get_state().channel_b,
            TwoBChannel::C => self.get_state().channel_c,
            TwoBChannel::D => self.get_state().channel_d,
        }
    }

    /// The firmware version that the handle remembers.
    fn get_version(&self) -> (v: String)
        ensures
            v@ == self.version(),
    ;
}

} // verus!
