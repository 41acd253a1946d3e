//! The commands that a unit understands, and the text of each on the wire.

use vstd::prelude::*;
use crate::text::{decimal, push_decimal};
use crate::values::{TwoBBias, TwoBChannel, TwoBMap, TwoBMode, TwoBPower, TwoBRamp, TwoBWarp};

verus! {

/// The character that ends a command on the wire.
pub const TERMINATOR: char = '\r';

/// A command for the unit. The unit answers each with one response line.
#[derive(Clone, Copy, Debug, PartialEq, Eq, Structural)]
pub enum TwoBCommand {
    /// Ask for the state without changing anything.
    Refresh,
    /// Go back to the unit's defaults.
    Reset,
    /// Take the output away at once.
    Kill,
    /// Join or part the channels.
    SetJoinedChannels(bool),
    SetMode(TwoBMode),
    SetPower(TwoBPower),
    SetMap(TwoBMap),
    SetBias(TwoBBias),
    SetRamp(TwoBRamp),
    SetWarp(TwoBWarp),
    /// Raise a channel by one step.
    IncrementChannel(TwoBChannel),
    /// Lower a channel by one step.
    DecrementChannel(TwoBChannel),
    /// Set a channel to a level.
    SetChannel(TwoBChannel, u8),
}

impl TwoBCommand {
    /// The command's text on the wire, without the terminator: an opcode
    /// letter, then the argument where there is one. A power level is its
    /// own letter; a channel's letter is the opcode of the commands on it.
    pub open spec fn wire(self) -> Seq<char> {
        match self {
            TwoBCommand::Refresh => seq!['V'],
            TwoBCommand::Reset => seq!['E'],
            TwoBCommand::Kill => seq!['K'],
            TwoBCommand::SetJoinedChannels(enable) => seq!['J', if enable { '1' } else { '0' }],
            TwoBCommand::SetMode(mode) => seq!['M'] + decimal(mode.ordinal()),
            TwoBCommand::SetPower(power) => seq![power.letter()],
            TwoBCommand::SetMap(map) => seq!['O'] + decimal(map.ordinal()),
            TwoBCommand::SetBias(bias) => seq!['Q'] + decimal(bias.ordinal()),
            TwoBCommand::SetRamp(ramp) => seq!['R'] + decimal(ramp.ordinal()),
            TwoBCommand::SetWarp(warp) => seq!['W'] + decimal(warp.ordinal()),
            TwoBCommand::IncrementChannel(channel) => seq![channel.letter(), '+'],
            TwoBCommand::DecrementChannel(channel) => seq![channel.letter(), '-'],
            TwoBCommand::SetChannel(channel, value) => seq![channel.letter()] + decimal(value as nat),
        }
    }

    /// The command as it is written to the link: its text, then the terminator.
    pub open spec fn framed(self) -> Seq<char> {
        self.wire().push(TERMINATOR)
    }

    /// Appends the command's text to `out`.
    fn write(self, out: &mut String)
        ensures
            final(out)@ == old(out)@ + self.wire(),
    {
        match self {
            TwoBCommand::Refresh => out.push('V'),
            TwoBCommand::Reset => out.push('E'),
            TwoBCommand::Kill => out.push('K'),
            TwoBCommand::SetJoinedChannels(enable) => {
                out.push('J');
                out.push(if enable { '1' } else { '0' });
            },
            TwoBCommand::SetMode(mode) => {
                out.push('M');
                push_decimal(out, mode.into());
            },
            TwoBCommand::SetPower(power) => out.push(power.value()),
            TwoBCommand::SetMap(map) => {
                out.push('O');
                push_decimal(out, map.into());
            },
            TwoBCommand::SetBias(bias) => {
                out.push('Q');
                push_decimal(out, bias.into());
            },
            TwoBCommand::SetRamp(ramp) => {
                out.push('R');
                push_decimal(out, ramp.into());
            },
            TwoBCommand::SetWarp(warp) => {
                out.push('W');
                push_decimal(out, warp.into());
            },
            TwoBCommand::IncrementChannel(channel) => {
                out.push(channel.value());
                out.push('+');
            },
            TwoBCommand::DecrementChannel(channel) => {
                out.push(channel.value());
                out.push('-');
            },
            TwoBCommand::SetChannel(channel, value) => {
                out.push(channel.value());
                push_decimal(out, value);
            },
        }
        assert(out@ =~= old(out)@ + self.wire());
    }

    /// The command's text on the wire, without the terminator.
    pub fn encode(&self) -> (s: String)
        ensures
            s@ == self.wire(),
    {
        let mut s = String::new();
        self.write(&mut s);
        s
    }

    /// The command as it is written to the link.
    pub fn frame(&self) -> (s: String)
        ensures
            s@ == self.framed(),
    {
        let mut s = String::new();
        self.write(&mut s);
        s.push(TERMINATOR);
        s
    }
}

} // verus!
