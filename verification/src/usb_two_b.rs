//! The serial backend's side of the conversation: what it remembers of the
//! unit, how it takes an answer in, and which command it sends next while it
//! brings the unit to a wanted state. Writing to the port and reading from
//! it is the caller's part.

use vstd::prelude::*;
use crate::command::TwoBCommand;
use crate::error::TwoBError;
use crate::state::{TwoBState, decode_response, parse_response};
use crate::device::TwoB;
use crate::values::{TwoBBias, TwoBChannel, TwoBMap, TwoBMode, TwoBPower, TwoBRamp, TwoBWarp};

verus! {

/// How many settings a state holds that a command can set.
pub const SETTINGS: usize = 11;

/// The speed of the serial line, in baud. The line carries eight data bits
/// and one stop bit, without parity and without flow control.
pub const BAUD_RATE: u32 = 9600;

/// The data bits of one character on the serial line.
pub const DATA_BITS: u8 = 8;

/// The stop bits behind one character on the serial line.
pub const STOP_BITS: u8 = 1;

/// How long a read or a write on the serial line may take, in milliseconds.
pub const TIMEOUT: u64 = 100;

/// The command that puts the `k`-th setting to the value it has in `state`.
/// The settings are counted in the order in which they are sent: mode,
/// power, bias, joined channels, map, ramp, warp, then the four channels.
pub open spec fn setter(k: nat, state: TwoBState) -> TwoBCommand {
    if k == 0 {
        TwoBCommand::SetMode(state.mode)
    } else if k == 1 {
        TwoBCommand::SetPower(state.power)
    } else if k == 2 {
        TwoBCommand::SetBias(state.bias)
    } else if k == 3 {
        TwoBCommand::SetJoinedChannels(state.joined_channels)
    } else if k == 4 {
        TwoBCommand::SetMap(state.map)
    } else if k == 5 {
        TwoBCommand::SetRamp(state.ramp)
    } else if k == 6 {
        TwoBCommand::SetWarp(state.warp)
    } else if k == 7 {
        TwoBCommand::SetChannel(TwoBChannel::A, state.channel_a)
    } else if k == 8 {
        TwoBCommand::SetChannel(TwoBChannel::B, state.channel_b)
    } else if k == 9 {
        TwoBCommand::SetChannel(TwoBChannel::C, state.channel_c)
    } else {
        TwoBCommand::SetChannel(TwoBChannel::D, state.channel_d)
    }
}

/// Whether two states differ in their `k`-th setting.
pub open spec fn differs(k: nat, a: TwoBState, b: TwoBState) -> bool {
    setter(k, a) != setter(k, b)
}

/// The first setting, from the `from`-th on, in which `cache` differs from
/// `target`.
pub open spec fn next_change(cache: TwoBState, target: TwoBState, from: nat) -> Option<nat>
    decreases SETTINGS - from,
{
    if from >= SETTINGS {
        None
    } else if differs(from, cache, target) {
        Some(from)
    } else {
        next_change(cache, target, from + 1)
    }
}

/// What a unit answered to one command: its state and its firmware version.
pub type Answer = (TwoBState, Seq<char>);

/// The settings for which a command goes out while a unit is brought to
/// `target`, in the order of the commands. The walk starts at the `from`-th
/// setting with `cache` remembered. Each command that is answered puts the
/// state of the next of `answers` in place of what is remembered, and the
/// walk goes on behind the setting just sent. It ends when nothing differs
/// any more, or with the command that gets no answer.
pub open spec fn sent_settings(
    cache: TwoBState,
    target: TwoBState,
    from: nat,
    answers: Seq<Answer>,
) -> Seq<nat>
    decreases answers.len(),
{
    match next_change(cache, target, from) {
        None => Seq::empty(),
        Some(k) => if answers.len() == 0 {
            seq![k]
        } else {
            seq![k] + sent_settings(answers[0].0, target, k + 1, answers.drop_first())
        },
    }
}

/// The commands that put the settings `ks` to the values they have in
/// `target`, one for each.
pub open spec fn setters(ks: Seq<nat>, target: TwoBState) -> Seq<TwoBCommand> {
    Seq::new(ks.len(), |i: int| setter(ks[i], target))
}

/// What is remembered after the answers `answers`, where `before` was
/// remembered before them: the last of them, if there is one.
pub open spec fn last_answer(before: Answer, answers: Seq<Answer>) -> Answer {
    if answers.len() == 0 {
        before
    } else {
        answers.last()
    }
}

/// The command that puts the `k`-th setting to the value it has in `state`.
fn setter_of(k: usize, state: &TwoBState) -> (command: TwoBCommand)
    ensures
        command == setter(k as nat, *state),
{
    if k == 0 {
        TwoBCommand::SetMode(state.mode)
    } else if k == 1 {
        TwoBCommand::SetPower(state.power)
    } else if k == 2 {
        TwoBCommand::SetBias(state.bias)
    } else if k == 3 {
        TwoBCommand::SetJoinedChannels(state.joined_channels)
    } else if k == 4 {
        TwoBCommand::SetMap(state.map)
    } else if k == 5 {
        TwoBCommand::SetRamp(state.ramp)
    } else if k == 6 {
        TwoBCommand::SetWarp(state.warp)
    } else if k == 7 {
        TwoBCommand::SetChannel(TwoBChannel::A, state.channel_a)
    } else if k == 8 {
        TwoBCommand::SetChannel(TwoBChannel::B, state.channel_b)
    } else if k == 9 {
        TwoBCommand::SetChannel(TwoBChannel::C, state.channel_c)
    } else {
        TwoBCommand::SetChannel(TwoBChannel::D, state.channel_d)
    }
}

/// The way to the unit: a command goes out, terminator included, and the
/// line that the unit answers with comes back. An implementation writes the
/// command to its port, reads one line, and reports what fails on the way as
/// an error. Nothing is taken for granted of what comes back.
pub trait Link: Send {
    fn exchange(&mut self, command: &str) -> (answer: Result<String, TwoBError>);
}

/// The unit behind a link. It remembers the state and the firmware version of
/// the last answer that made sense, and keeps count, for the proofs only, of
/// every command it has handed to the link and every answer it has taken in.
pub struct USBTwoB<L: Link> {
    state: TwoBState,
    version: String,
    io: L,
    sent: Ghost<Seq<TwoBCommand>>,
    heard: Ghost<Seq<Answer>>,
}

impl<L: Link> USBTwoB<L> {
    /// The commands handed to the link so far, oldest first.
    pub closed spec fn sent(&self) -> Seq<TwoBCommand> {
        self.sent@
    }

    /// The answers taken in so far, oldest first.
    pub closed spec fn heard(&self) -> Seq<Answer> {
        self.heard@
    }

    /// What is remembered: state and version together.
    pub open spec fn remembered(&self) -> Answer {
        (self.state(), self.version())
    }

    /// How a handle stands after one exchange, compared with `before` it:
    /// where the exchange went well, the answer is remembered and counted;
    /// where it failed, everything but the count of commands is as before.
    pub open spec fn exchanged(&self, before: USBTwoB<L>, well: bool) -> bool {
        if well {
            &&& self.heard() == before.heard().push(self.remembered())
            &&& exists|line: Seq<char>|
                decode_response(line) == Ok::<Answer, Seq<char>>(self.remembered())
        } else {
            &&& self.remembered() == before.remembered()
            &&& self.heard() == before.heard()
        }
    }

    /// Reads the state and the firmware version from a response line.
    pub fn parse(answer: String) -> (r: Result<(TwoBState, String), TwoBError>)
        ensures
            match r {
                Ok((state, version)) => decode_response(answer@) == Ok::<Answer, Seq<char>>(
                    (state, version@),
                ),
                Err(e) => decode_response(answer@) is Err && e.is_parser_error(
                    decode_response(answer@)->Err_0,
                ),
            },
    {
        parse_response(answer.as_str())
    }

    /// Opens the conversation over `io`: asks the unit for its state and
    /// remembers the answer. There is no handle without an answer that makes
    /// sense: where the link fails or the answer does not parse, the error
    /// is all that comes back.
    pub fn new(io: L) -> (r: Result<USBTwoB<L>, TwoBError>)
        ensures
            r matches Ok(unit) ==> {
                &&& unit.sent() == seq![TwoBCommand::Refresh]
                &&& unit.heard() == seq![unit.remembered()]
                &&& exists|line: Seq<char>|
                    decode_response(line) == Ok::<Answer, Seq<char>>(unit.remembered())
            },
            exists|outcome: Result<Seq<char>, TwoBError>| Self::greeted(r, outcome),
    {
        let mut io = io;
        let outcome = io.exchange(TwoBCommand::Refresh.frame().as_str());
        let ghost brought = Self::brought(outcome);
        let r = Self::with_answer(io, outcome);
        assert(Self::greeted(r, brought));
        r
    }

    /// What the link brought back, as the contracts speak of it: the line's
    /// characters, or the link's error.
    pub open spec fn brought(outcome: Result<String, TwoBError>) -> Result<Seq<char>, TwoBError> {
        match outcome {
            Ok(line) => Ok(line@),
            Err(e) => Err(e),
        }
    }

    /// How a handshake ends with what the link brought back. The link's own
    /// error is handed on as it is. A line that does not parse gives the
    /// parser's error. A line that parses gives a handle that remembers it;
    /// its records begin with the one command sent and the one answer taken
    /// in.
    pub open spec fn greeted(
        r: Result<USBTwoB<L>, TwoBError>,
        outcome: Result<Seq<char>, TwoBError>,
    ) -> bool {
        match outcome {
            Err(e) => r == Err::<USBTwoB<L>, TwoBError>(e),
            Ok(line) => match decode_response(line) {
                Err(complaint) => r is Err && r->Err_0.is_parser_error(complaint),
                Ok(answer) => {
                    &&& r is Ok
                    &&& r->Ok_0.remembered() == answer
                    &&& r->Ok_0.sent() == seq![TwoBCommand::Refresh]
                    &&& r->Ok_0.heard() == seq![answer]
                },
            },
        }
    }

    /// The handle over `io` once the handshake has been answered with
    /// `outcome`, or the reason why there is none.
    pub fn with_answer(io: L, outcome: Result<String, TwoBError>) -> (r: Result<
        USBTwoB<L>,
        TwoBError,
    >)
        ensures
            Self::greeted(r, Self::brought(outcome)),
    {
        match outcome {
            Err(e) => Err(e),
            Ok(answer) => match parse_response(answer.as_str()) {
                Err(e) => Err(e),
                Ok((state, version)) => {
                    let ghost asked = Seq::<TwoBCommand>::empty().push(TwoBCommand::Refresh);
                    let ghost answered = Seq::<Answer>::empty().push((state, version@));
                    let sent = Ghost(asked);
                    let heard = Ghost(answered);
                    Ok(USBTwoB { state, version, io, sent, heard })
                },
            },
        }
    }

    /// Takes in the unit's answer to a command. An answer that makes sense
    /// replaces what is remembered, state and version. Any other is a parser
    /// error and leaves both as they were.
    pub fn receive(&mut self, answer: &str) -> (r: Result<(), TwoBError>)
        ensures
            final(self).sent() == old(self).sent(),
            match r {
                Ok(_) => {
                    &&& decode_response(answer@) == Ok::<Answer, Seq<char>>(
                        final(self).remembered(),
                    )
                    &&& final(self).heard() == old(self).heard().push(final(self).remembered())
                },
                Err(e) => {
                    &&& decode_response(answer@) is Err
                    &&& e.is_parser_error(decode_response(answer@)->Err_0)
                    &&& final(self).remembered() == old(self).remembered()
                    &&& final(self).heard() == old(self).heard()
                },
            },
    {
        match parse_response(answer) {
            Ok((state, version)) => {
                self.heard = Ghost(self.heard@.push((state, version@)));
                self.state = state;
                self.version = version;
                Ok(())
            },
            Err(e) => Err(e),
        }
    }

    /// One exchange: the command goes to the link, and the answer is taken
    /// in. Where the link fails or the answer makes no sense, what is
    /// remembered stays as it was, though the command has gone out.
    pub fn send(&mut self, command: TwoBCommand) -> (r: Result<(), TwoBError>)
        ensures
            final(self).sent() == old(self).sent().push(command),
            match r {
                Ok(_) => {
                    &&& final(self).heard() == old(self).heard().push(final(self).remembered())
                    &&& exists|line: Seq<char>|
                        decode_response(line) == Ok::<Answer, Seq<char>>(final(self).remembered())
                },
                Err(_) => {
                    &&& final(self).remembered() == old(self).remembered()
                    &&& final(self).heard() == old(self).heard()
                },
            },
    {
        let framed = command.frame();
        self.sent = Ghost(self.sent@.push(command));
        match self.io.exchange(framed.as_str()) {
            Ok(answer) => self.receive(answer.as_str()),
            Err(e) => Err(e),
        }
    }

    /// The next command on the way to `target`, and the setting that it
    /// sets: the first setting from the `from`-th on in which what is
    /// remembered differs from `target`. `None` when there is none left.
    pub fn next_command(&self, target: &TwoBState, from: usize) -> (r: Option<
        (usize, TwoBCommand),
    >)
        ensures
            match r {
                Some((k, command)) => next_change(self.state(), *target, from as nat) == Some(
                    k as nat,
                ) && k < SETTINGS && command == setter(k as nat, *target),
                None => next_change(self.state(), *target, from as nat) is None,
            },
    {
        let mut k: usize = from;
        while k < SETTINGS
            invariant
                from <= k,
                next_change(self.state(), *target, from as nat) == next_change(
                    self.state(),
                    *target,
                    k as nat,
                ),
            decreases SETTINGS - k,
        {
            let wanted = setter_of(k, target);
            if setter_of(k, &self.state) != wanted {
                return Some((k, wanted));
            }
            k += 1;
        }
        None
    }
}

impl<L: Link> TwoB for USBTwoB<L> {
    closed spec fn state(&self) -> TwoBState {
        self.state
    }

    closed spec fn version(&self) -> Seq<char> {
        self.version@
    }

    fn refresh_state(&mut self) -> (r: Result<(), TwoBError>)
        ensures
            final(self).sent() == old(self).sent().push(TwoBCommand::Refresh),
            final(self).exchanged(*old(self), r is Ok),
    {
        self.send(TwoBCommand::Refresh)
    }

    fn reset(&mut self) -> (r: Result<(), TwoBError>)
        ensures
            final(self).sent() == old(self).sent().push(TwoBCommand::Reset),
            final(self).exchanged(*old(self), r is Ok),
    {
        self.send(TwoBCommand::Reset)
    }

    fn kill(&mut self) -> (r: Result<(), TwoBError>)
        ensures
            final(self).sent() == old(self).sent().push(TwoBCommand::Kill),
            final(self).exchanged(*old(self), r is Ok),
    {
        self.send(TwoBCommand::Kill)
    }

    fn set_joined_channels(&mut self, enable: bool) -> (r: Result<(), TwoBError>)
        ensures
            final(self).sent() == old(self).sent().push(TwoBCommand::SetJoinedChannels(enable)),
            final(self).exchanged(*old(self), r is Ok),
    {
        self.send(TwoBCommand::SetJoinedChannels(enable))
    }

    fn set_mode(&mut self, mode: TwoBMode) -> (r: Result<(), TwoBError>)
        ensures
            final(self).sent() == old(self).sent().push(TwoBCommand::SetMode(mode)),
            final(self).exchanged(*old(self), r is Ok),
    {
        self.send(TwoBCommand::SetMode(mode))
    }

    fn set_power(&mut self, power: TwoBPower) -> (r: Result<(), TwoBError>)
        ensures
            final(self).sent() == old(self).sent().push(TwoBCommand::SetPower(power)),
            final(self).exchanged(*old(self), r is Ok),
    {
        self.send(TwoBCommand::SetPower(power))
    }

    fn set_map(&mut self, map: TwoBMap) -> (r: Result<(), TwoBError>)
        ensures
            final(self).sent() == old(self).sent().push(TwoBCommand::SetMap(map)),
            final(self).exchanged(*old(self), r is Ok),
    {
        self.send(TwoBCommand::SetMap(map))
    }

    fn set_bias(&mut self, bias: TwoBBias) -> (r: Result<(), TwoBError>)
        ensures
            final(self).sent() == old(self).sent().push(TwoBCommand::SetBias(bias)),
            final(self).exchanged(*old(self), r is Ok),
    {
        self.send(TwoBCommand::SetBias(bias))
    }

    fn set_ramp(&mut self, ramp: TwoBRamp) -> (r: Result<(), TwoBError>)
        ensures
            final(self).sent() == old(self).sent().push(TwoBCommand::SetRamp(ramp)),
            final(self).exchanged(*old(self), r is Ok),
    {
        self.send(TwoBCommand::SetRamp(ramp))
    }

    fn set_warp(&mut self, warp: TwoBWarp) -> (r: Result<(), TwoBError>)
        ensures
            final(self).sent() == old(self).sent().push(TwoBCommand::SetWarp(warp)),
            final(self).exchanged(*old(self), r is Ok),
    {
        self.send(TwoBCommand::SetWarp(warp))
    }

    fn increment_channel(&mut self, channel: TwoBChannel) -> (r: Result<(), TwoBError>)
        ensures
            final(self).sent() == old(self).sent().push(TwoBCommand::IncrementChannel(channel)),
            final(self).exchanged(*old(self), r is Ok),
    {
        self.send(TwoBCommand::IncrementChannel(channel))
    }

    fn decrement_channel(&mut self, channel: TwoBChannel) -> (r: Result<(), TwoBError>)
        ensures
            final(self).sent() == old(self).sent().push(TwoBCommand::DecrementChannel(channel)),
            final(self).exchanged(*old(self), r is Ok),
    {
        self.send(TwoBCommand::DecrementChannel(channel))
    }

    fn set_channel(&mut self, channel: TwoBChannel, value: u8) -> (r: Result<(), TwoBError>)
        ensures
            final(self).sent() == old(self).sent().push(TwoBCommand::SetChannel(channel, value)),
            final(self).exchanged(*old(self), r is Ok),
    {
        self.send(TwoBCommand::SetChannel(channel, value))
    }

    /// Walks the settings in their fixed order and sends a command for each
    /// in which what is remembered, at that moment, differs from `state`;
    /// for no other. The first command that fails ends the walk: what was
    /// answered before stays remembered, and nothing is taken back. The
    /// battery reading of `state` plays no part.
    fn set_state(&mut self, state: TwoBState) -> (r: Result<(), TwoBError>)
        ensures
            old(self).heard().is_prefix_of(final(self).heard()),
            final(self).sent() == old(self).sent() + setters(
                sent_settings(
                    old(self).state(),
                    state,
                    0,
                    final(self).heard().skip(old(self).heard().len() as int),
                ),
                state,
            ),
            final(self).remembered() == last_answer(
                old(self).remembered(),
                final(self).heard().skip(old(self).heard().len() as int),
            ),
            final(self).sent().len() - old(self).sent().len() == final(self).heard().len() - old(
                self,
            ).heard().len() + (if r is Ok {
                0int
            } else {
                1int
            }),
    {
        let mut from: usize = 0;
        let ghost answers: Seq<Answer> = Seq::empty();
        let ghost done: Seq<nat> = Seq::empty();
        assert(old(self).heard() + answers == old(self).heard());
        assert(old(self).sent() + setters(done, state) == old(self).sent());
        assert forall|rest: Seq<Answer>| #[trigger]
            sent_settings(old(self).state(), state, 0, answers + rest) == done + sent_settings(
                self.state(),
                state,
                from as nat,
                rest,
            ) by {
            assert(answers + rest == rest);
            assert(done + sent_settings(self.state(), state, from as nat, rest) == sent_settings(
                self.state(),
                state,
                from as nat,
                rest,
            ));
        }
        loop
            invariant
                from <= SETTINGS,
                self.heard() == old(self).heard() + answers,
                self.sent() == old(self).sent() + setters(done, state),
                done.len() == answers.len(),
                self.remembered() == last_answer(old(self).remembered(), answers),
                forall|rest: Seq<Answer>| #[trigger]
                    sent_settings(old(self).state(), state, 0, answers + rest) == done
                        + sent_settings(self.state(), state, from as nat, rest),
            decreases SETTINGS - from,
        {
            let ghost before = *self;
            match self.next_command(&state, from) {
                None => {
                    proof {
                        let none = Seq::<Answer>::empty();
                        assert(answers + none == answers);
                        assert(sent_settings(self.state(), state, from as nat, none) == Seq::<
                            nat,
                        >::empty());
                        assert(done + Seq::<nat>::empty() == done);
                        assert(sent_settings(old(self).state(), state, 0, answers + none) == done);
                        assert(self.heard().skip(old(self).heard().len() as int) == answers);
                    }
                    return Ok(());
                },
                Some((k, command)) => {
                    match self.send(command) {
                        Err(e) => {
                            proof {
                                let none = Seq::<Answer>::empty();
                                assert(answers + none == answers);
                                assert(sent_settings(self.state(), state, from as nat, none)
                                    == seq![k as nat]);
                                assert(sent_settings(old(self).state(), state, 0, answers + none)
                                    == done + seq![k as nat]);
                                assert(self.heard().skip(old(self).heard().len() as int)
                                    == answers);
                                assert(setters(done + seq![k as nat], state) == setters(
                                    done,
                                    state,
                                ).push(command));
                            }
                            return Err(e);
                        },
                        Ok(_) => {
                            proof {
                                lemma_next_change_bounds(before.state(), state, from as nat);
                                let answer = self.remembered();
                                let more = answers.push(answer);
                                assert forall|rest: Seq<Answer>| #[trigger]
                                    sent_settings(old(self).state(), state, 0, more + rest)
                                        == done.push(k as nat) + sent_settings(
                                        self.state(),
                                        state,
                                        (k + 1) as nat,
                                        rest,
                                    ) by {
                                    let longer = seq![answer] + rest;
                                    assert(answers + longer == more + rest);
                                    assert(longer[0] == answer);
                                    assert(longer.drop_first() == rest);
                                    assert(sent_settings(
                                        old(self).state(),
                                        state,
                                        0,
                                        answers + longer,
                                    ) == done + sent_settings(
                                        before.state(),
                                        state,
                                        from as nat,
                                        longer,
                                    ));
                                    assert(sent_settings(
                                        before.state(),
                                        state,
                                        from as nat,
                                        longer,
                                    ) == seq![k as nat] + sent_settings(
                                        answer.0,
                                        state,
                                        (k + 1) as nat,
                                        rest,
                                    ));
                                    assert(done + (seq![k as nat] + sent_settings(
                                        answer.0,
                                        state,
                                        (k + 1) as nat,
                                        rest,
                                    )) == done.push(k as nat) + sent_settings(
                                        answer.0,
                                        state,
                                        (k + 1) as nat,
                                        rest,
                                    ));
                                }
                                assert(setters(done.push(k as nat), state) == setters(
                                    done,
                                    state,
                                ).push(command));
                                assert(old(self).heard() + more == (old(self).heard()
                                    + answers).push(answer));
                                assert(old(self).sent() + setters(done, state).push(command) == (
                                old(self).sent() + setters(done, state)).push(command));
                                answers = more;
                                done = done.push(k as nat);
                            }
                            from = k + 1;
                        },
                    }
                },
            }
        }
    }

    fn get_state(&self) -> (s: TwoBState) {
        self.state.clone()
    }

    /// The level of one channel, as it is remembered.
    fn get_channel(&self, channel: TwoBChannel) -> (value: u8) {
        match channel {
            TwoBChannel::A => self.state.channel_a,
            TwoBChannel::B => self.state.channel_b,
            TwoBChannel::C => self.state.channel_c,
            TwoBChannel::D => self.state.channel_d,
        }
    }

    fn get_version(&self) -> (v: String) {
        self.version.clone()
    }
}

/// Where the wanted state has every setting as it is remembered, nothing is
/// sent, whatever the unit would answer. The battery reading may differ: no
/// command sets it.
pub proof fn lemma_same_state_sends_nothing(
    cache: TwoBState,
    target: TwoBState,
    from: nat,
    answers: Seq<Answer>,
)
    requires
        cache == (TwoBState { battery: cache.battery, ..target }),
    ensures
        next_change(cache, target, from) is None,
        sent_settings(cache, target, from, answers) == Seq::<nat>::empty(),
        setters(sent_settings(cache, target, from, answers), target) == Seq::<TwoBCommand>::empty(),
    decreases SETTINGS - from,
{
    if from < SETTINGS {
        lemma_same_state_sends_nothing(cache, target, from + 1, answers);
    }
}

/// A change that is found lies at or behind the place where the search
/// began, among the settings; the two states differ in it, and in no setting
/// between. Where none is found, they differ in no setting from there on.
pub proof fn lemma_next_change_bounds(cache: TwoBState, target: TwoBState, from: nat)
    ensures
        match next_change(cache, target, from) {
            Some(k) => {
                &&& from <= k < SETTINGS
                &&& differs(k, cache, target)
                &&& forall|j: nat| from <= j < k ==> !differs(j, cache, target)
            },
            None => forall|j: nat| from <= j < SETTINGS ==> !differs(j, cache, target),
        },
    decreases SETTINGS - from,
{
    if from < SETTINGS && !differs(from, cache, target) {
        lemma_next_change_bounds(cache, target, from + 1);
    }
}

/// What is remembered when the `i`-th command of a walk goes out: what was
/// remembered at its start, or the unit's answer to the command before.
pub open spec fn remembered_at(cache: TwoBState, answers: Seq<Answer>, i: int) -> TwoBState {
    if i == 0 {
        cache
    } else {
        answers[i - 1].0
    }
}

/// The commands of one walk follow the fixed order of the settings: each
/// sets a later setting than the one before it, so no setting is sent twice.
/// And each sets a setting in which what is remembered at that moment differs
/// from the target: for a setting that is already as wanted nothing goes out.
pub proof fn lemma_sent_in_order(
    cache: TwoBState,
    target: TwoBState,
    from: nat,
    answers: Seq<Answer>,
)
    ensures
        sent_settings(cache, target, from, answers).len() <= answers.len() + 1,
        forall|i: int|
            0 <= i < sent_settings(cache, target, from, answers).len() ==> from + i
                <= #[trigger] sent_settings(cache, target, from, answers)[i] < SETTINGS,
        forall|i: int, j: int|
            0 <= i < j < sent_settings(cache, target, from, answers).len() ==> sent_settings(
                cache,
                target,
                from,
                answers,
            )[i] < sent_settings(cache, target, from, answers)[j],
        forall|i: int|
            0 <= i < sent_settings(cache, target, from, answers).len() ==> differs(
                #[trigger] sent_settings(cache, target, from, answers)[i],
                remembered_at(cache, answers, i),
                target,
            ),
    decreases answers.len(),
{
    lemma_next_change_bounds(cache, target, from);
    match next_change(cache, target, from) {
        None => {},
        Some(k) => {
            if answers.len() > 0 {
                let later = answers.drop_first();
                lemma_sent_in_order(answers[0].0, target, k + 1, later);
                let rest = sent_settings(answers[0].0, target, k + 1, later);
                let all = sent_settings(cache, target, from, answers);
                assert(all == seq![k] + rest);
                assert forall|i: int| 0 <= i < all.len() implies from + i <= #[trigger] all[i]
                    < SETTINGS by {
                    if i > 0 {
                        assert(all[i] == rest[i - 1]);
                    }
                }
                assert forall|i: int, j: int| 0 <= i < j < all.len() implies all[i] < all[j] by {
                    assert(all[j] == rest[j - 1]);
                    if i > 0 {
                        assert(all[i] == rest[i - 1]);
                    }
                }
                assert forall|i: int| 0 <= i < all.len() implies differs(
                    #[trigger] all[i],
                    remembered_at(cache, answers, i),
                    target,
                ) by {
                    if i > 0 {
                        assert(all[i] == rest[i - 1]);
                        assert(remembered_at(cache, answers, i) == remembered_at(
                            answers[0].0,
                            later,
                            i - 1,
                        ));
                    }
                }
            }
        },
    }
}

/// Where the mode has to change, its command is the first to go out; and
/// whenever a mode command and a command for the first channel both go out,
/// the mode command goes first.
pub proof fn lemma_mode_before_channel(cache: TwoBState, target: TwoBState, answers: Seq<Answer>)
    ensures
        cache.mode != target.mode ==> {
            &&& setters(sent_settings(cache, target, 0, answers), target).len() >= 1
            &&& setters(sent_settings(cache, target, 0, answers), target)[0]
                == TwoBCommand::SetMode(target.mode)
        },
        forall|i: int, j: int|
            {
                &&& 0 <= i < setters(sent_settings(cache, target, 0, answers), target).len()
                &&& 0 <= j < setters(sent_settings(cache, target, 0, answers), target).len()
                &&& #[trigger] setters(sent_settings(cache, target, 0, answers), target)[i]
                    is SetMode
                &&& #[trigger] setters(sent_settings(cache, target, 0, answers), target)[j]
                    == TwoBCommand::SetChannel(TwoBChannel::A, target.channel_a)
            } ==> i < j,
{
    lemma_sent_in_order(cache, target, 0, answers);
    let ks = sent_settings(cache, target, 0, answers);
    let commands = setters(ks, target);
    assert forall|i: int, j: int|
        {
            &&& 0 <= i < commands.len()
            &&& 0 <= j < commands.len()
            &&& #[trigger] commands[i] is SetMode
            &&& #[trigger] commands[j] == TwoBCommand::SetChannel(TwoBChannel::A, target.channel_a)
        } implies i < j by {
        assert(ks[i] == 0);
        assert(ks[j] == 7);
        if j < i {
            assert(ks[j] < ks[i]);
        }
    }
}

/// `state` with its `k`-th setting as `target` has it.
pub open spec fn with_setting(k: nat, state: TwoBState, target: TwoBState) -> TwoBState {
    if k == 0 {
        TwoBState { mode: target.mode, ..state }
    } else if k == 1 {
        TwoBState { power: target.power, ..state }
    } else if k == 2 {
        TwoBState { bias: target.bias, ..state }
    } else if k == 3 {
        TwoBState { joined_channels: target.joined_channels, ..state }
    } else if k == 4 {
        TwoBState { map: target.map, ..state }
    } else if k == 5 {
        TwoBState { ramp: target.ramp, ..state }
    } else if k == 6 {
        TwoBState { warp: target.warp, ..state }
    } else if k == 7 {
        TwoBState { channel_a: target.channel_a, ..state }
    } else if k == 8 {
        TwoBState { channel_b: target.channel_b, ..state }
    } else if k == 9 {
        TwoBState { channel_c: target.channel_c, ..state }
    } else if k == 10 {
        TwoBState { channel_d: target.channel_d, ..state }
    } else {
        state
    }
}

/// Whether two states have every setting alike. Their battery readings may
/// differ.
pub open spec fn same_settings(a: TwoBState, b: TwoBState) -> bool {
    a == (TwoBState { battery: a.battery, ..b })
}

/// The settings from the `from`-th on in which `cache` differs from `target`,
/// in their fixed order.
pub open spec fn changed_settings(cache: TwoBState, target: TwoBState, from: nat) -> Seq<nat>
    decreases SETTINGS - from,
{
    if from >= SETTINGS {
        Seq::empty()
    } else if differs(from, cache, target) {
        seq![from] + changed_settings(cache, target, from + 1)
    } else {
        changed_settings(cache, target, from + 1)
    }
}

/// Whether the unit does just what it is told during a walk: each of its
/// answers shows the state that was remembered before, with the one setting
/// changed that the command was for.
pub open spec fn obedient(
    cache: TwoBState,
    target: TwoBState,
    from: nat,
    answers: Seq<Answer>,
) -> bool
    decreases answers.len(),
{
    match next_change(cache, target, from) {
        None => true,
        Some(k) => answers.len() == 0 || {
            &&& same_settings(answers[0].0, with_setting(k, cache, target))
            &&& obedient(answers[0].0, target, k + 1, answers.drop_first())
        },
    }
}

/// The changed settings begin with the next change and go on behind it.
proof fn lemma_changed_from_next(cache: TwoBState, target: TwoBState, from: nat)
    ensures
        match next_change(cache, target, from) {
            Some(k) => changed_settings(cache, target, from) == seq![k] + changed_settings(
                cache,
                target,
                k + 1,
            ),
            None => changed_settings(cache, target, from) == Seq::<nat>::empty(),
        },
    decreases SETTINGS - from,
{
    if from < SETTINGS && !differs(from, cache, target) {
        lemma_changed_from_next(cache, target, from + 1);
    }
}

/// Two states that differ from the target in the same settings from `from`
/// on have the same changed settings there.
proof fn lemma_changed_alike(a: TwoBState, b: TwoBState, target: TwoBState, from: nat)
    requires
        forall|j: nat| from <= j < SETTINGS ==> differs(j, a, target) == differs(j, b, target),
    ensures
        changed_settings(a, target, from) == changed_settings(b, target, from),
    decreases SETTINGS - from,
{
    if from < SETTINGS {
        lemma_changed_alike(a, b, target, from + 1);
    }
}

/// With a unit that does just what it is told, and answers every command,
/// one walk over all settings sends exactly one command for each setting
/// that differs at the start, in the fixed order, and none for any other. At
/// the end every setting is remembered as wanted.
pub proof fn lemma_obedient_unit(
    cache: TwoBState,
    target: TwoBState,
    from: nat,
    answers: Seq<Answer>,
)
    requires
        obedient(cache, target, from, answers),
        answers.len() >= changed_settings(cache, target, from).len(),
        forall|j: nat| j < from ==> !differs(j, cache, target),
    ensures
        sent_settings(cache, target, from, answers) == changed_settings(cache, target, from),
        same_settings(
            remembered_at(cache, answers, changed_settings(cache, target, from).len() as int),
            target,
        ),
    decreases answers.len(),
{
    lemma_next_change_bounds(cache, target, from);
    lemma_changed_from_next(cache, target, from);
    match next_change(cache, target, from) {
        None => {
            assert forall|j: nat| j < SETTINGS implies !differs(j, cache, target) by {
                if j >= from {
                    assert(!differs(j, cache, target));
                }
            }
            assert(!differs(0, cache, target) && !differs(1, cache, target) && !differs(
                2,
                cache,
                target,
            ) && !differs(3, cache, target) && !differs(4, cache, target) && !differs(
                5,
                cache,
                target,
            ) && !differs(6, cache, target) && !differs(7, cache, target) && !differs(
                8,
                cache,
                target,
            ) && !differs(9, cache, target) && !differs(10, cache, target));
        },
        Some(k) => {
            let next = answers[0].0;
            let later = answers.drop_first();
            assert forall|j: nat| k + 1 <= j < SETTINGS implies differs(j, next, target)
                == differs(j, cache, target) by {}
            lemma_changed_alike(next, cache, target, k + 1);
            assert forall|j: nat| j < k + 1 implies !differs(j, next, target) by {
                if j < from {
                    assert(!differs(j, cache, target));
                } else if j < k {
                    assert(!differs(j, cache, target));
                }
            }
            lemma_obedient_unit(next, target, k + 1, later);
            let m = changed_settings(next, target, k + 1).len() as int;
            assert(changed_settings(cache, target, from).len() == m + 1);
            assert(remembered_at(cache, answers, m + 1) == remembered_at(next, later, m)) by {
                if m > 0 {
                    assert(answers[m] == later[m - 1]);
                }
            }
        },
    }
}

} // verus!
