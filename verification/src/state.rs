//! The state of a unit, and how a response line is read into it.
//!
//! A response is one line of colon-separated fields in a fixed order:
//! battery, the four channels, mode, power, bias, joined channels, map, warp,
//! ramp, and the firmware version. The channels arrive doubled.

use vstd::prelude::*;
use crate::error::{TwoBError, invalid_field, missing_field, sentence_error};
use crate::text::{
    chars_of,
    decimal,
    fields,
    joined,
    lemma_decimal_reads_back,
    lemma_joined_comes_apart,
    number_of,
    parse_number,
    split_fields,
    string_of,
    trim_end,
    trimmed_len,
    unbroken,
};
use crate::values::{TwoBBias, TwoBChannel, TwoBMap, TwoBMode, TwoBPower, TwoBRamp, TwoBWarp};

verus! {

/// How many fields of a response line make up the state.
pub const STATE_FIELDS: usize = 12;

/// The largest number that the battery field can hold.
pub const BATTERY_MAX: u32 = 65535;

/// The largest number that any other numeric field can hold.
pub const BYTE_MAX: u32 = 255;

/// Everything that can be known of a unit's configuration.
#[derive(Debug, PartialEq, Eq, Structural)]
pub struct TwoBState {
    pub mode: TwoBMode,
    pub channel_a: u8,
    pub channel_b: u8,
    pub channel_c: u8,
    pub channel_d: u8,
    pub power: TwoBPower,
    pub bias: TwoBBias,
    pub joined_channels: bool,
    pub map: TwoBMap,
    pub ramp: TwoBRamp,
    pub warp: TwoBWarp,
    /// What the unit reports of its battery; nothing can set it.
    pub battery: u16,
}

impl Clone for TwoBState {
    fn clone(&self) -> (s: TwoBState)
        ensures
            s == *self,
    {
        TwoBState {
            mode: self.mode,
            channel_a: self.channel_a,
            channel_b: self.channel_b,
            channel_c: self.channel_c,
            channel_d: self.channel_d,
            power: self.power,
            bias: self.bias,
            joined_channels: self.joined_channels,
            map: self.map,
            ramp: self.ramp,
            warp: self.warp,
            battery: self.battery,
        }
    }
}

/// The name of the `k`-th field of a response line, from zero.
pub open spec fn field_name(k: nat) -> Seq<char> {
    if k == 0 {
        "battery"@
    } else if k == 1 {
        "channel_a"@
    } else if k == 2 {
        "channel_b"@
    } else if k == 3 {
        "channel_c"@
    } else if k == 4 {
        "channel_d"@
    } else if k == 5 {
        "mode"@
    } else if k == 6 {
        "power"@
    } else if k == 7 {
        "bias"@
    } else if k == 8 {
        "joined_channels"@
    } else if k == 9 {
        "map"@
    } else if k == 10 {
        "warp"@
    } else if k == 11 {
        "ramp"@
    } else {
        "version"@
    }
}

/// The number below 256 that `text` writes, if it writes one.
pub open spec fn byte_of(text: Seq<char>) -> Option<nat> {
    number_of(text, BYTE_MAX as nat)
}

/// Whether `text` can stand in the `k`-th field of a response line: a number
/// that fits the field, which for an enumeration is one of its wire ordinals;
/// for the power, one of the letters that are read.
pub open spec fn field_valid(k: nat, text: Seq<char>) -> bool {
    if k == 0 {
        number_of(text, BATTERY_MAX as nat) is Some
    } else if k == 5 {
        byte_of(text) is Some && TwoBMode::from_ordinal(byte_of(text)->0) is Some
    } else if k == 6 {
        TwoBPower::from_letter(text) is Some
    } else if k == 7 {
        byte_of(text) is Some && TwoBBias::from_ordinal(byte_of(text)->0) is Some
    } else if k == 9 {
        byte_of(text) is Some && TwoBMap::from_ordinal(byte_of(text)->0) is Some
    } else if k == 10 {
        byte_of(text) is Some && TwoBWarp::from_ordinal(byte_of(text)->0) is Some
    } else if k == 11 {
        byte_of(text) is Some && TwoBRamp::from_ordinal(byte_of(text)->0) is Some
    } else {
        byte_of(text) is Some
    }
}

/// What is wrong with the `k`-th field, if anything: it is missing, or its
/// text cannot stand there.
pub open spec fn field_error(fs: Seq<Seq<char>>, k: nat) -> Option<Seq<char>> {
    if k >= fs.len() {
        Some(missing_field(field_name(k)))
    } else if !field_valid(k, fs[k as int]) {
        Some(invalid_field(field_name(k), fs[k as int]))
    } else {
        None
    }
}

/// The complaint about the first of the state's fields from `from` on that is
/// missing or wrong.
pub open spec fn first_error(fs: Seq<Seq<char>>, from: nat) -> Option<Seq<char>>
    decreases STATE_FIELDS - from,
{
    if from >= STATE_FIELDS {
        None
    } else if field_error(fs, from) is Some {
        field_error(fs, from)
    } else {
        first_error(fs, from + 1)
    }
}

/// The state that twelve fitting fields spell. Each channel is half of what
/// its field says, rounded down; the channels are joined where the field
/// says 1.
pub open spec fn state_of(fs: Seq<Seq<char>>) -> TwoBState {
    TwoBState {
        battery: number_of(fs[0], BATTERY_MAX as nat)->0 as u16,
        channel_a: (byte_of(fs[1])->0 / 2) as u8,
        channel_b: (byte_of(fs[2])->0 / 2) as u8,
        channel_c: (byte_of(fs[3])->0 / 2) as u8,
        channel_d: (byte_of(fs[4])->0 / 2) as u8,
        mode: TwoBMode::from_ordinal(byte_of(fs[5])->0)->0,
        power: TwoBPower::from_letter(fs[6])->0,
        bias: TwoBBias::from_ordinal(byte_of(fs[7])->0)->0,
        joined_channels: byte_of(fs[8])->0 == 1,
        map: TwoBMap::from_ordinal(byte_of(fs[9])->0)->0,
        warp: TwoBWarp::from_ordinal(byte_of(fs[10])->0)->0,
        ramp: TwoBRamp::from_ordinal(byte_of(fs[11])->0)->0,
    }
}

/// The state that a response line carries, or the complaint about its first
/// field that is missing or wrong. What follows the twelfth field is not
/// looked at.
pub open spec fn decode_state(line: Seq<char>) -> Result<TwoBState, Seq<char>> {
    match first_error(fields(line), 0) {
        Some(complaint) => Err(complaint),
        None => Ok(state_of(fields(line))),
    }
}

/// The firmware version in a response line: what follows its last separator,
/// without the white space at the end.
pub open spec fn version_of(line: Seq<char>) -> Seq<char> {
    trim_end(fields(line).last())
}

/// The state and the firmware version that a response line carries. The
/// line must have a thirteenth field, or the version is missing. Where it
/// has more, the last one is the version.
pub open spec fn decode_response(line: Seq<char>) -> Result<(TwoBState, Seq<char>), Seq<char>> {
    match decode_state(line) {
        Err(complaint) => Err(complaint),
        Ok(state) => if fields(line).len() <= STATE_FIELDS {
            Err(missing_field(field_name(STATE_FIELDS as nat)))
        } else {
            Ok((state, version_of(line)))
        },
    }
}

/// Whether the cut line `fs` is `line` in fields.
spec fn is_cut(fs: Seq<Vec<char>>, line: Seq<char>) -> bool {
    &&& fs.len() == fields(line).len()
    &&& forall|k: int| 0 <= k < fs.len() ==> (#[trigger] fs[k])@ == fields(line)[k]
}

/// The name of the `k`-th field of a response line.
fn name_of_field(k: usize) -> (name: &'static str)
    ensures
        name@ == field_name(k as nat),
{
    if k == 0 {
        "battery"
    } else if k == 1 {
        "channel_a"
    } else if k == 2 {
        "channel_b"
    } else if k == 3 {
        "channel_c"
    } else if k == 4 {
        "channel_d"
    } else if k == 5 {
        "mode"
    } else if k == 6 {
        "power"
    } else if k == 7 {
        "bias"
    } else if k == 8 {
        "joined_channels"
    } else if k == 9 {
        "map"
    } else if k == 10 {
        "warp"
    } else if k == 11 {
        "ramp"
    } else {
        "version"
    }
}

/// The parser error for a response line that ends before its `k`-th field.
fn missing(k: usize) -> (e: TwoBError)
    ensures
        e.is_parser_error(missing_field(field_name(k as nat))),
{
    let nothing: Vec<char> = Vec::new();
    proof {
        reveal_strlit("");
    }
    assert(""@ =~= nothing@);
    sentence_error("Missing field `", name_of_field(k), "", &nothing)
}

/// The parser error for a `k`-th field that holds `text`.
fn invalid(k: usize, text: &Vec<char>) -> (e: TwoBError)
    ensures
        e.is_parser_error(invalid_field(field_name(k as nat), text@)),
{
    sentence_error("Cannot parse field `", name_of_field(k), "` from `", text)
}

/// The number in the `k`-th field, which must be there and be at most `max`.
fn number_field(fs: &Vec<Vec<char>>, k: usize, max: u32) -> (r: Result<u32, TwoBError>)
    ensures
        match r {
            Ok(n) => k < fs.len() && number_of(fs[k as int]@, max as nat) == Some(n as nat),
            Err(e) => if k < fs.len() {
                &&& number_of(fs[k as int]@, max as nat) is None
                &&& e.is_parser_error(invalid_field(field_name(k as nat), fs[k as int]@))
            } else {
                e.is_parser_error(missing_field(field_name(k as nat)))
            },
        },
{
    if k >= fs.len() {
        return Err(missing(k));
    }
    match parse_number(&fs[k], max) {
        Some(n) => Ok(n),
        None => Err(invalid(k, &fs[k])),
    }
}

/// The state that the fields of a response line carry.
fn state_from_fields(fs: &Vec<Vec<char>>, Ghost(line): Ghost<Seq<char>>) -> (r: Result<
    TwoBState,
    TwoBError,
>)
    requires
        is_cut(fs@, line),
    ensures
        match r {
            Ok(state) => decode_state(line) == Ok::<TwoBState, Seq<char>>(state),
            Err(e) => decode_state(line) is Err && e.is_parser_error(decode_state(line)->Err_0),
        },
{
    reveal_with_fuel(first_error, 13);
    let battery = number_field(fs, 0, BATTERY_MAX)?;
    let channel_a = number_field(fs, 1, BYTE_MAX)?;
    let channel_b = number_field(fs, 2, BYTE_MAX)?;
    let channel_c = number_field(fs, 3, BYTE_MAX)?;
    let channel_d = number_field(fs, 4, BYTE_MAX)?;
    let mode = match TwoBMode::try_from(number_field(fs, 5, BYTE_MAX)? as u8) {
        Ok(mode) => mode,
        Err(_) => return Err(invalid(5, &fs[5])),
    };
    if fs.len() <= 6 {
        return Err(missing(6));
    }
    let power = match TwoBPower::from_chars(&fs[6]) {
        Ok(power) => power,
        Err(_) => return Err(invalid(6, &fs[6])),
    };
    let bias = match TwoBBias::try_from(number_field(fs, 7, BYTE_MAX)? as u8) {
        Ok(bias) => bias,
        Err(_) => return Err(invalid(7, &fs[7])),
    };
    let joined = number_field(fs, 8, BYTE_MAX)?;
    let map = match TwoBMap::try_from(number_field(fs, 9, BYTE_MAX)? as u8) {
        Ok(map) => map,
        Err(_) => return Err(invalid(9, &fs[9])),
    };
    let warp = match TwoBWarp::try_from(number_field(fs, 10, BYTE_MAX)? as u8) {
        Ok(warp) => warp,
        Err(_) => return Err(invalid(10, &fs[10])),
    };
    let ramp = match TwoBRamp::try_from(number_field(fs, 11, BYTE_MAX)? as u8) {
        Ok(ramp) => ramp,
        Err(_) => return Err(invalid(11, &fs[11])),
    };
    Ok(
        TwoBState {
            battery: battery as u16,
            channel_a: (channel_a / 2) as u8,
            channel_b: (channel_b / 2) as u8,
            channel_c: (channel_c / 2) as u8,
            channel_d: (channel_d / 2) as u8,
            mode,
            power,
            bias,
            joined_channels: joined == 1,
            map,
            warp,
            ramp,
        },
    )
}

impl TwoBState {
    /// The level of one channel.
    pub open spec fn channel(self, channel: TwoBChannel) -> u8 {
        match channel {
            TwoBChannel::A => self.channel_a,
            TwoBChannel::B => self.channel_b,
            TwoBChannel::C => self.channel_c,
            TwoBChannel::D => self.channel_d,
        }
    }

    /// This state with one channel at another level.
    pub open spec fn with_channel(self, channel: TwoBChannel, value: u8) -> TwoBState {
        match channel {
            TwoBChannel::A => TwoBState { channel_a: value, ..self },
            TwoBChannel::B => TwoBState { channel_b: value, ..self },
            TwoBChannel::C => TwoBState { channel_c: value, ..self },
            TwoBChannel::D => TwoBState { channel_d: value, ..self },
        }
    }

    /// The state of a unit after a reset, but for the battery: the first two
    /// channels at rest, the other two at 50, and every setting at its first
    /// value, with low power.
    pub open spec fn baseline(battery: u16) -> TwoBState {
        TwoBState {
            channel_a: 0,
            channel_b: 0,
            channel_c: 50,
            channel_d: 50,
            mode: TwoBMode::Pulse,
            joined_channels: false,
            power: TwoBPower::LOW,
            bias: TwoBBias::A,
            map: TwoBMap::A,
            ramp: TwoBRamp::X1,
            warp: TwoBWarp::X1,
            battery,
        }
    }

    /// Reads the state from a response line. The line is refused as a whole,
    /// with a parser error that names the first field that is missing or
    /// wrong and quotes its text.
    pub fn try_from(s: &String) -> (r: Result<TwoBState, TwoBError>)
        ensures
            match r {
                Ok(state) => decode_state(s@) == Ok::<TwoBState, Seq<char>>(state),
                Err(e) => decode_state(s@) is Err && e.is_parser_error(decode_state(s@)->Err_0),
            },
    {
        let line = chars_of(s.as_str());
        let fs = split_fields(&line);
        state_from_fields(&fs, Ghost(line@))
    }
}

/// Reads the state and the firmware version from a response line. The line is
/// refused as a whole, with a parser error that names the first field that is
/// missing or wrong.
pub fn parse_response(answer: &str) -> (r: Result<(TwoBState, String), TwoBError>)
    ensures
        match r {
            Ok((state, version)) => decode_response(answer@) == Ok::<
                (TwoBState, Seq<char>),
                Seq<char>,
            >((state, version@)),
            Err(e) => decode_response(answer@) is Err && e.is_parser_error(
                decode_response(answer@)->Err_0,
            ),
        },
{
    let line = chars_of(answer);
    let fs = split_fields(&line);
    let state = state_from_fields(&fs, Ghost(line@))?;
    if fs.len() <= STATE_FIELDS {
        return Err(missing(STATE_FIELDS));
    }
    let last = &fs[fs.len() - 1];
    let n = trimmed_len(last);
    let mut kept: Vec<char> = Vec::new();
    let mut i: usize = 0;
    while i < n
        invariant
            i <= n <= last.len(),
            kept@ == last@.take(i as int),
        decreases n - i,
    {
        kept.push(last[i]);
        i += 1;
    }
    Ok((state, string_of(&kept)))
}

/// Each channel of a decoded state is half of the number in its field,
/// rounded down.
pub proof fn lemma_channels_are_halved(line: Seq<char>)
    requires
        decode_state(line) is Ok,
    ensures
        forall|k: int| 1 <= k <= 4 ==> byte_of(#[trigger] fields(line)[k]) is Some,
        decode_state(line)->Ok_0.channel_a == byte_of(fields(line)[1])->0 / 2,
        decode_state(line)->Ok_0.channel_b == byte_of(fields(line)[2])->0 / 2,
        decode_state(line)->Ok_0.channel_c == byte_of(fields(line)[3])->0 / 2,
        decode_state(line)->Ok_0.channel_d == byte_of(fields(line)[4])->0 / 2,
{
    reveal_with_fuel(first_error, 13);
}

/// The fields with which a unit reports `state` and `version`: every number
/// in its shortest decimal text, each channel doubled, every enumeration as
/// its wire ordinal, the power as its letter.
pub open spec fn response_fields(state: TwoBState, version: Seq<char>) -> Seq<Seq<char>> {
    seq![
        decimal(state.battery as nat),
        decimal(2 * state.channel_a as nat),
        decimal(2 * state.channel_b as nat),
        decimal(2 * state.channel_c as nat),
        decimal(2 * state.channel_d as nat),
        decimal(state.mode.ordinal()),
        seq![state.power.letter()],
        decimal(state.bias.ordinal()),
        decimal(if state.joined_channels { 1 } else { 0 }),
        decimal(state.map.ordinal()),
        decimal(state.warp.ordinal()),
        decimal(state.ramp.ordinal()),
        version,
    ]
}

/// A number's decimal text holds no separator, and reads back as the number
/// where the number is within the limit.
proof fn lemma_decimal_field(n: nat, max: nat)
    requires
        n <= max,
    ensures
        unbroken(decimal(n)),
        number_of(decimal(n), max) == Some(n),
{
    lemma_decimal_reads_back(n, max);
    assert forall|i: int| 0 <= i < decimal(n).len() implies #[trigger] decimal(n)[i]
        != crate::text::SEPARATOR by {
        assert(crate::text::is_digit(decimal(n)[i]));
    }
}

/// The fields that a unit reports come apart again as they were.
proof fn lemma_response_comes_apart(state: TwoBState, version: Seq<char>)
    requires
        unbroken(version),
    ensures
        fields(joined(response_fields(state, version))) == response_fields(state, version),
{
    let fs = response_fields(state, version);
    assert forall|k: int| 0 <= k < fs.len() implies unbroken(#[trigger] fs[k]) by {
        if k == 0 {
            lemma_decimal_field(state.battery as nat, state.battery as nat);
        } else if k == 1 {
            lemma_decimal_field(2 * state.channel_a as nat, 2 * state.channel_a as nat);
        } else if k == 2 {
            lemma_decimal_field(2 * state.channel_b as nat, 2 * state.channel_b as nat);
        } else if k == 3 {
            lemma_decimal_field(2 * state.channel_c as nat, 2 * state.channel_c as nat);
        } else if k == 4 {
            lemma_decimal_field(2 * state.channel_d as nat, 2 * state.channel_d as nat);
        } else if k == 5 {
            lemma_decimal_field(state.mode.ordinal(), state.mode.ordinal());
        } else if k == 6 {
            assert(fs[k] == seq![state.power.letter()]);
        } else if k == 7 {
            lemma_decimal_field(state.bias.ordinal(), state.bias.ordinal());
        } else if k == 8 {
            lemma_decimal_field(1, 1);
            lemma_decimal_field(0, 0);
        } else if k == 9 {
            lemma_decimal_field(state.map.ordinal(), state.map.ordinal());
        } else if k == 10 {
            lemma_decimal_field(state.warp.ordinal(), state.warp.ordinal());
        } else if k == 11 {
            lemma_decimal_field(state.ramp.ordinal(), state.ramp.ordinal());
        } else {
            assert(fs[k] == version);
        }
    }
    lemma_joined_comes_apart(fs);
}

/// Each field that a unit reports can stand in its place, and together they
/// spell the state.
proof fn lemma_response_fields_fit(state: TwoBState, version: Seq<char>)
    requires
        state.channel_a <= 127,
        state.channel_b <= 127,
        state.channel_c <= 127,
        state.channel_d <= 127,
        state.power != TwoBPower::DYNAMIC,
    ensures
        forall|k: nat| k < STATE_FIELDS ==> field_error(response_fields(state, version), k) is None,
        state_of(response_fields(state, version)) == state,
{
    let fs = response_fields(state, version);
    let max = BYTE_MAX as nat;
    lemma_decimal_field(state.battery as nat, BATTERY_MAX as nat);
    lemma_decimal_field(2 * state.channel_a as nat, max);
    lemma_decimal_field(2 * state.channel_b as nat, max);
    lemma_decimal_field(2 * state.channel_c as nat, max);
    lemma_decimal_field(2 * state.channel_d as nat, max);
    lemma_decimal_field(state.mode.ordinal(), max);
    lemma_decimal_field(state.bias.ordinal(), max);
    lemma_decimal_field(0, max);
    lemma_decimal_field(1, max);
    lemma_decimal_field(state.map.ordinal(), max);
    lemma_decimal_field(state.warp.ordinal(), max);
    lemma_decimal_field(state.ramp.ordinal(), max);
    state.mode.lemma_ordinal_round_trip();
    state.bias.lemma_ordinal_round_trip();
    state.map.lemma_ordinal_round_trip();
    state.warp.lemma_ordinal_round_trip();
    state.ramp.lemma_ordinal_round_trip();
    state.power.lemma_letter_round_trip();
    assert(field_valid(0, fs[0]));
    assert(field_valid(1, fs[1]));
    assert(field_valid(2, fs[2]));
    assert(field_valid(3, fs[3]));
    assert(field_valid(4, fs[4]));
    assert(field_valid(5, fs[5]));
    assert(field_valid(6, fs[6]));
    assert(field_valid(7, fs[7]));
    assert(field_valid(8, fs[8]));
    assert(field_valid(9, fs[9]));
    assert(field_valid(10, fs[10]));
    assert(field_valid(11, fs[11]));
}

/// What a unit reports is read back as it was, state and version, within
/// the limits of the line: a channel's doubled level has to fit a byte, so
/// the level is at most 127; the power is high or low, because the letter of
/// dynamic is not read; and the version holds no separator and does not end
/// in white space.
pub proof fn lemma_response_round_trip(state: TwoBState, version: Seq<char>)
    requires
        state.channel_a <= 127,
        state.channel_b <= 127,
        state.channel_c <= 127,
        state.channel_d <= 127,
        state.power != TwoBPower::DYNAMIC,
        unbroken(version),
        trim_end(version) == version,
    ensures
        decode_response(joined(response_fields(state, version))) == Ok::<
            (TwoBState, Seq<char>),
            Seq<char>,
        >((state, version)),
{
    let fs = response_fields(state, version);
    lemma_response_comes_apart(state, version);
    lemma_response_fields_fit(state, version);
    assert(first_error(fs, 0) is None) by {
        reveal_with_fuel(first_error, 13);
        assert(field_error(fs, 0) is None && field_error(fs, 1) is None && field_error(fs, 2)
            is None && field_error(fs, 3) is None && field_error(fs, 4) is None && field_error(
            fs,
            5,
        ) is None && field_error(fs, 6) is None && field_error(fs, 7) is None && field_error(
            fs,
            8,
        ) is None && field_error(fs, 9) is None && field_error(fs, 10) is None && field_error(
            fs,
            11,
        ) is None);
    }
    assert(fs.len() == 13);
    assert(fs.last() == version);
}

} // verus!
