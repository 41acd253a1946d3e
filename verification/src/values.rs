//! The values that a unit can be set to: its enumerations, each with its wire
//! form (an ordinal or a letter) and its name, and the conversions between
//! them.

use vstd::prelude::*;
use vstd::string::*;
use crate::error::{TwoBError, unknown_name, unknown_ordinal, unknown_power, sentence_error};
use crate::text::{chars_of, push_decimal, spells};

verus! {

/// The parser error for a number that is no wire ordinal of `kind`.
fn ordinal_error(kind: &str, n: u8) -> (e: TwoBError)
    ensures
        e.is_parser_error(unknown_ordinal(kind@, n as nat)),
{
    let mut digits = String::new();
    push_decimal(&mut digits, n);
    let text = chars_of(digits.as_str());
    sentence_error("No discriminant in enum `", kind, "` matches the value `", &text)
}

/// The parser error for a text that names no variant of `kind`.
fn name_error(kind: &str, text: &Vec<char>) -> (e: TwoBError)
    ensures
        e.is_parser_error(unknown_name(kind@, text@)),
{
    sentence_error("No variant of enum `", kind, "` is named `", text)
}

/// The seventeen stimulation patterns, in the order of their wire ordinals.
#[derive(Clone, Copy, Debug, PartialEq, Eq, PartialOrd, Structural)]
pub enum TwoBMode {
    Pulse,
    Bounce,
    Continuous,
    Flo,
    ASplit,
    BSplit,
    Wave,
    Waterfall,
    Squeeze,
    Milk,
    Throb,
    Thrust,
    Cycle,
    Twist,
    Random,
    Step,
    Training,
}

impl TwoBMode {
    /// The wire ordinal: the variant's place in the declaration, from zero.
    pub open spec fn ordinal(self) -> nat {
        match self {
            TwoBMode::Pulse => 0,
            TwoBMode::Bounce => 1,
            TwoBMode::Continuous => 2,
            TwoBMode::Flo => 3,
            TwoBMode::ASplit => 4,
            TwoBMode::BSplit => 5,
            TwoBMode::Wave => 6,
            TwoBMode::Waterfall => 7,
            TwoBMode::Squeeze => 8,
            TwoBMode::Milk => 9,
            TwoBMode::Throb => 10,
            TwoBMode::Thrust => 11,
            TwoBMode::Cycle => 12,
            TwoBMode::Twist => 13,
            TwoBMode::Random => 14,
            TwoBMode::Step => 15,
            TwoBMode::Training => 16,
        }
    }

    /// The variant with the wire ordinal `n`, if there is one.
    pub open spec fn from_ordinal(n: nat) -> Option<TwoBMode> {
        if n == 0 {
            Some(TwoBMode::Pulse)
        } else if n == 1 {
            Some(TwoBMode::Bounce)
        } else if n == 2 {
            Some(TwoBMode::Continuous)
        } else if n == 3 {
            Some(TwoBMode::Flo)
        } else if n == 4 {
            Some(TwoBMode::ASplit)
        } else if n == 5 {
            Some(TwoBMode::BSplit)
        } else if n == 6 {
            Some(TwoBMode::Wave)
        } else if n == 7 {
            Some(TwoBMode::Waterfall)
        } else if n == 8 {
            Some(TwoBMode::Squeeze)
        } else if n == 9 {
            Some(TwoBMode::Milk)
        } else if n == 10 {
            Some(TwoBMode::Throb)
        } else if n == 11 {
            Some(TwoBMode::Thrust)
        } else if n == 12 {
            Some(TwoBMode::Cycle)
        } else if n == 13 {
            Some(TwoBMode::Twist)
        } else if n == 14 {
            Some(TwoBMode::Random)
        } else if n == 15 {
            Some(TwoBMode::Step)
        } else if n == 16 {
            Some(TwoBMode::Training)
        } else {
            None
        }
    }

    /// The variant's name, as it is declared.
    pub open spec fn name(self) -> Seq<char> {
        match self {
            TwoBMode::Pulse => "Pulse"@,
            TwoBMode::Bounce => "Bounce"@,
            TwoBMode::Continuous => "Continuous"@,
            TwoBMode::Flo => "Flo"@,
            TwoBMode::ASplit => "ASplit"@,
            TwoBMode::BSplit => "BSplit"@,
            TwoBMode::Wave => "Wave"@,
            TwoBMode::Waterfall => "Waterfall"@,
            TwoBMode::Squeeze => "Squeeze"@,
            TwoBMode::Milk => "Milk"@,
            TwoBMode::Throb => "Throb"@,
            TwoBMode::Thrust => "Thrust"@,
            TwoBMode::Cycle => "Cycle"@,
            TwoBMode::Twist => "Twist"@,
            TwoBMode::Random => "Random"@,
            TwoBMode::Step => "Step"@,
            TwoBMode::Training => "Training"@,
        }
    }

    /// The variant with the name `s`, if there is one.
    pub open spec fn from_name(s: Seq<char>) -> Option<TwoBMode> {
        if s == "Pulse"@ {
            Some(TwoBMode::Pulse)
        } else if s == "Bounce"@ {
            Some(TwoBMode::Bounce)
        } else if s == "Continuous"@ {
            Some(TwoBMode::Continuous)
        } else if s == "Flo"@ {
            Some(TwoBMode::Flo)
        } else if s == "ASplit"@ {
            Some(TwoBMode::ASplit)
        } else if s == "BSplit"@ {
            Some(TwoBMode::BSplit)
        } else if s == "Wave"@ {
            Some(TwoBMode::Wave)
        } else if s == "Waterfall"@ {
            Some(TwoBMode::Waterfall)
        } else if s == "Squeeze"@ {
            Some(TwoBMode::Squeeze)
        } else if s == "Milk"@ {
            Some(TwoBMode::Milk)
        } else if s == "Throb"@ {
            Some(TwoBMode::Throb)
        } else if s == "Thrust"@ {
            Some(TwoBMode::Thrust)
        } else if s == "Cycle"@ {
            Some(TwoBMode::Cycle)
        } else if s == "Twist"@ {
            Some(TwoBMode::Twist)
        } else if s == "Random"@ {
            Some(TwoBMode::Random)
        } else if s == "Step"@ {
            Some(TwoBMode::Step)
        } else if s == "Training"@ {
            Some(TwoBMode::Training)
        } else {
            None
        }
    }

    /// Reads a stimulation pattern from its wire ordinal; a number past the last ordinal is
    /// a parser error that quotes it.
    pub fn try_from(n: u8) -> (r: Result<TwoBMode, TwoBError>)
        ensures
            match r {
                Ok(v) => TwoBMode::from_ordinal(n as nat) == Some(v),
                Err(e) => TwoBMode::from_ordinal(n as nat) is None && e.is_parser_error(
                    unknown_ordinal("TwoBMode"@, n as nat),
                ),
            },
    {
        if n == 0 {
            Ok(TwoBMode::Pulse)
        } else if n == 1 {
            Ok(TwoBMode::Bounce)
        } else if n == 2 {
            Ok(TwoBMode::Continuous)
        } else if n == 3 {
            Ok(TwoBMode::Flo)
        } else if n == 4 {
            Ok(TwoBMode::ASplit)
        } else if n == 5 {
            Ok(TwoBMode::BSplit)
        } else if n == 6 {
            Ok(TwoBMode::Wave)
        } else if n == 7 {
            Ok(TwoBMode::Waterfall)
        } else if n == 8 {
            Ok(TwoBMode::Squeeze)
        } else if n == 9 {
            Ok(TwoBMode::Milk)
        } else if n == 10 {
            Ok(TwoBMode::Throb)
        } else if n == 11 {
            Ok(TwoBMode::Thrust)
        } else if n == 12 {
            Ok(TwoBMode::Cycle)
        } else if n == 13 {
            Ok(TwoBMode::Twist)
        } else if n == 14 {
            Ok(TwoBMode::Random)
        } else if n == 15 {
            Ok(TwoBMode::Step)
        } else if n == 16 {
            Ok(TwoBMode::Training)
        } else {
            Err(ordinal_error("TwoBMode", n))
        }
    }

    /// The variant's name as a text.
    pub fn to_string(&self) -> (s: String)
        ensures
            s@ == self.name(),
    {
        match self {
            TwoBMode::Pulse => String::from_str("Pulse"),
            TwoBMode::Bounce => String::from_str("Bounce"),
            TwoBMode::Continuous => String::from_str("Continuous"),
            TwoBMode::Flo => String::from_str("Flo"),
            TwoBMode::ASplit => String::from_str("ASplit"),
            TwoBMode::BSplit => String::from_str("BSplit"),
            TwoBMode::Wave => String::from_str("Wave"),
            TwoBMode::Waterfall => String::from_str("Waterfall"),
            TwoBMode::Squeeze => String::from_str("Squeeze"),
            TwoBMode::Milk => String::from_str("Milk"),
            TwoBMode::Throb => String::from_str("Throb"),
            TwoBMode::Thrust => String::from_str("Thrust"),
            TwoBMode::Cycle => String::from_str("Cycle"),
            TwoBMode::Twist => String::from_str("Twist"),
            TwoBMode::Random => String::from_str("Random"),
            TwoBMode::Step => String::from_str("Step"),
            TwoBMode::Training => String::from_str("Training"),
        }
    }

    /// Reads a stimulation pattern from its name; any other text is a parser error that
    /// quotes it.
    pub fn from_str(s: &str) -> (r: Result<TwoBMode, TwoBError>)
        ensures
            match r {
                Ok(v) => TwoBMode::from_name(s@) == Some(v),
                Err(e) => TwoBMode::from_name(s@) is None && e.is_parser_error(
                    unknown_name("TwoBMode"@, s@),
                ),
            },
    {
        let text = chars_of(s);
        if spells(&text, "Pulse") {
            Ok(TwoBMode::Pulse)
        } else if spells(&text, "Bounce") {
            Ok(TwoBMode::Bounce)
        } else if spells(&text, "Continuous") {
            Ok(TwoBMode::Continuous)
        } else if spells(&text, "Flo") {
            Ok(TwoBMode::Flo)
        } else if spells(&text, "ASplit") {
            Ok(TwoBMode::ASplit)
        } else if spells(&text, "BSplit") {
            Ok(TwoBMode::BSplit)
        } else if spells(&text, "Wave") {
            Ok(TwoBMode::Wave)
        } else if spells(&text, "Waterfall") {
            Ok(TwoBMode::Waterfall)
        } else if spells(&text, "Squeeze") {
            Ok(TwoBMode::Squeeze)
        } else if spells(&text, "Milk") {
            Ok(TwoBMode::Milk)
        } else if spells(&text, "Throb") {
            Ok(TwoBMode::Throb)
        } else if spells(&text, "Thrust") {
            Ok(TwoBMode::Thrust)
        } else if spells(&text, "Cycle") {
            Ok(TwoBMode::Cycle)
        } else if spells(&text, "Twist") {
            Ok(TwoBMode::Twist)
        } else if spells(&text, "Random") {
            Ok(TwoBMode::Random)
        } else if spells(&text, "Step") {
            Ok(TwoBMode::Step)
        } else if spells(&text, "Training") {
            Ok(TwoBMode::Training)
        } else {
            Err(name_error("TwoBMode", &text))
        }
    }

    /// Every variant comes back from its own wire ordinal, and no other
    /// variant does.
    pub proof fn lemma_ordinal_round_trip(self)
        ensures
            TwoBMode::from_ordinal(self.ordinal()) == Some(self),
            forall|n: nat| TwoBMode::from_ordinal(n) == Some(self) ==> n == self.ordinal(),
    {
    }

    /// Every variant comes back from its own name, and from no other text.
    pub proof fn lemma_name_round_trip(self)
        ensures
            TwoBMode::from_name(self.name()) == Some(self),
            forall|s: Seq<char>| TwoBMode::from_name(s) == Some(self) ==> s == self.name(),
    {
        reveal_strlit("Pulse");
        assert("Pulse"@.len() == 5 && "Pulse"@[0] == 'P' && "Pulse"@[1] == 'u');
        reveal_strlit("Bounce");
        assert("Bounce"@.len() == 6 && "Bounce"@[0] == 'B' && "Bounce"@[1] == 'o');
        reveal_strlit("Continuous");
        assert("Continuous"@.len() == 10 && "Continuous"@[0] == 'C' && "Continuous"@[1] == 'o');
        reveal_strlit("Flo");
        assert("Flo"@.len() == 3 && "Flo"@[0] == 'F' && "Flo"@[1] == 'l');
        reveal_strlit("ASplit");
        assert("ASplit"@.len() == 6 && "ASplit"@[0] == 'A' && "ASplit"@[1] == 'S');
        reveal_strlit("BSplit");
        assert("BSplit"@.len() == 6 && "BSplit"@[0] == 'B' && "BSplit"@[1] == 'S');
        reveal_strlit("Wave");
        assert("Wave"@.len() == 4 && "Wave"@[0] == 'W' && "Wave"@[1] == 'a');
        reveal_strlit("Waterfall");
        assert("Waterfall"@.len() == 9 && "Waterfall"@[0] == 'W' && "Waterfall"@[1] == 'a');
        reveal_strlit("Squeeze");
        assert("Squeeze"@.len() == 7 && "Squeeze"@[0] == 'S' && "Squeeze"@[1] == 'q');
        reveal_strlit("Milk");
        assert("Milk"@.len() == 4 && "Milk"@[0] == 'M' && "Milk"@[1] == 'i');
        reveal_strlit("Throb");
        assert("Throb"@.len() == 5 && "Throb"@[0] == 'T' && "Throb"@[1] == 'h');
        reveal_strlit("Thrust");
        assert("Thrust"@.len() == 6 && "Thrust"@[0] == 'T' && "Thrust"@[1] == 'h');
        reveal_strlit("Cycle");
        assert("Cycle"@.len() == 5 && "Cycle"@[0] == 'C' && "Cycle"@[1] == 'y');
        reveal_strlit("Twist");
        assert("Twist"@.len() == 5 && "Twist"@[0] == 'T' && "Twist"@[1] == 'w');
        reveal_strlit("Random");
        assert("Random"@.len() == 6 && "Random"@[0] == 'R' && "Random"@[1] == 'a');
        reveal_strlit("Step");
        assert("Step"@.len() == 4 && "Step"@[0] == 'S' && "Step"@[1] == 't');
        reveal_strlit("Training");
        assert("Training"@.len() == 8 && "Training"@[0] == 'T' && "Training"@[1] == 'r');
    }
}

impl From<TwoBMode> for u8 {
    /// The wire ordinal of the variant.
    fn from(v: TwoBMode) -> (n: u8) {
        match v {
            TwoBMode::Pulse => 0,
            TwoBMode::Bounce => 1,
            TwoBMode::Continuous => 2,
            TwoBMode::Flo => 3,
            TwoBMode::ASplit => 4,
            TwoBMode::BSplit => 5,
            TwoBMode::Wave => 6,
            TwoBMode::Waterfall => 7,
            TwoBMode::Squeeze => 8,
            TwoBMode::Milk => 9,
            TwoBMode::Throb => 10,
            TwoBMode::Thrust => 11,
            TwoBMode::Cycle => 12,
            TwoBMode::Twist => 13,
            TwoBMode::Random => 14,
            TwoBMode::Step => 15,
            TwoBMode::Training => 16,
        }
    }
}

impl vstd::std_specs::convert::FromSpecImpl<TwoBMode> for u8 {
    open spec fn obeys_from_spec() -> bool {
        true
    }

    open spec fn from_spec(v: TwoBMode) -> u8 {
        v.ordinal() as u8
    }
}

/// Which side rules while the channels are joined, in the order of the wire ordinals.
#[derive(Clone, Copy, Debug, PartialEq, Eq, Structural)]
pub enum TwoBBias {
    A,
    B,
    AVERAGE,
    MAX,
}

impl TwoBBias {
    /// The wire ordinal: the variant's place in the declaration, from zero.
    pub open spec fn ordinal(self) -> nat {
        match self {
            TwoBBias::A => 0,
            TwoBBias::B => 1,
            TwoBBias::AVERAGE => 2,
            TwoBBias::MAX => 3,
        }
    }

    /// The variant with the wire ordinal `n`, if there is one.
    pub open spec fn from_ordinal(n: nat) -> Option<TwoBBias> {
        if n == 0 {
            Some(TwoBBias::A)
        } else if n == 1 {
            Some(TwoBBias::B)
        } else if n == 2 {
            Some(TwoBBias::AVERAGE)
        } else if n == 3 {
            Some(TwoBBias::MAX)
        } else {
            None
        }
    }

    /// The variant's name, as it is declared.
    pub open spec fn name(self) -> Seq<char> {
        match self {
            TwoBBias::A => "A"@,
            TwoBBias::B => "B"@,
            TwoBBias::AVERAGE => "AVERAGE"@,
            TwoBBias::MAX => "MAX"@,
        }
    }

    /// The variant with the name `s`, if there is one.
    pub open spec fn from_name(s: Seq<char>) -> Option<TwoBBias> {
        if s == "A"@ {
            Some(TwoBBias::A)
        } else if s == "B"@ {
            Some(TwoBBias::B)
        } else if s == "AVERAGE"@ {
            Some(TwoBBias::AVERAGE)
        } else if s == "MAX"@ {
            Some(TwoBBias::MAX)
        } else {
            None
        }
    }

    /// Reads a bias from its wire ordinal; a number past the last ordinal is
    /// a parser error that quotes it.
    pub fn try_from(n: u8) -> (r: Result<TwoBBias, TwoBError>)
        ensures
            match r {
                Ok(v) => TwoBBias::from_ordinal(n as nat) == Some(v),
                Err(e) => TwoBBias::from_ordinal(n as nat) is None && e.is_parser_error(
                    unknown_ordinal("TwoBBias"@, n as nat),
                ),
            },
    {
        if n == 0 {
            Ok(TwoBBias::A)
        } else if n == 1 {
            Ok(TwoBBias::B)
        } else if n == 2 {
            Ok(TwoBBias::AVERAGE)
        } else if n == 3 {
            Ok(TwoBBias::MAX)
        } else {
            Err(ordinal_error("TwoBBias", n))
        }
    }

    /// The variant's name as a text.
    pub fn to_string(&self) -> (s: String)
        ensures
            s@ == self.name(),
    {
        match self {
            TwoBBias::A => String::from_str("A"),
            TwoBBias::B => String::from_str("B"),
            TwoBBias::AVERAGE => String::from_str("AVERAGE"),
            TwoBBias::MAX => String::from_str("MAX"),
        }
    }

    /// Reads a bias from its name; any other text is a parser error that
    /// quotes it.
    pub fn from_str(s: &str) -> (r: Result<TwoBBias, TwoBError>)
        ensures
            match r {
                Ok(v) => TwoBBias::from_name(s@) == Some(v),
                Err(e) => TwoBBias::from_name(s@) is None && e.is_parser_error(
                    unknown_name("TwoBBias"@, s@),
                ),
            },
    {
        let text = chars_of(s);
        if spells(&text, "A") {
            Ok(TwoBBias::A)
        } else if spells(&text, "B") {
            Ok(TwoBBias::B)
        } else if spells(&text, "AVERAGE") {
            Ok(TwoBBias::AVERAGE)
        } else if spells(&text, "MAX") {
            Ok(TwoBBias::MAX)
        } else {
            Err(name_error("TwoBBias", &text))
        }
    }

    /// Every variant comes back from its own wire ordinal, and no other
    /// variant does.
    pub proof fn lemma_ordinal_round_trip(self)
        ensures
            TwoBBias::from_ordinal(self.ordinal()) == Some(self),
            forall|n: nat| TwoBBias::from_ordinal(n) == Some(self) ==> n == self.ordinal(),
    {
    }

    /// Every variant comes back from its own name, and from no other text.
    pub proof fn lemma_name_round_trip(self)
        ensures
            TwoBBias::from_name(self.name()) == Some(self),
            forall|s: Seq<char>| TwoBBias::from_name(s) == Some(self) ==> s == self.name(),
    {
        reveal_strlit("A");
        assert("A"@.len() == 1 && "A"@[0] == 'A');
        reveal_strlit("B");
        assert("B"@.len() == 1 && "B"@[0] == 'B');
        reveal_strlit("AVERAGE");
        assert("AVERAGE"@.len() == 7 && "AVERAGE"@[0] == 'A' && "AVERAGE"@[1] == 'V');
        reveal_strlit("MAX");
        assert("MAX"@.len() == 3 && "MAX"@[0] == 'M' && "MAX"@[1] == 'A');
    }
}

impl From<TwoBBias> for u8 {
    /// The wire ordinal of the variant.
    fn from(v: TwoBBias) -> (n: u8) {
        match v {
            TwoBBias::A => 0,
            TwoBBias::B => 1,
            TwoBBias::AVERAGE => 2,
            TwoBBias::MAX => 3,
        }
    }
}

impl vstd::std_specs::convert::FromSpecImpl<TwoBBias> for u8 {
    open spec fn obeys_from_spec() -> bool {
        true
    }

    open spec fn from_spec(v: TwoBBias) -> u8 {
        v.ordinal() as u8
    }
}

/// The output routings, in the order of their wire ordinals.
#[derive(Clone, Copy, Debug, PartialEq, Eq, Structural)]
pub enum TwoBMap {
    A,
    B,
    C,
}

impl TwoBMap {
    /// The wire ordinal: the variant's place in the declaration, from zero.
    pub open spec fn ordinal(self) -> nat {
        match self {
            TwoBMap::A => 0,
            TwoBMap::B => 1,
            TwoBMap::C => 2,
        }
    }

    /// The variant with the wire ordinal `n`, if there is one.
    pub open spec fn from_ordinal(n: nat) -> Option<TwoBMap> {
        if n == 0 {
            Some(TwoBMap::A)
        } else if n == 1 {
            Some(TwoBMap::B)
        } else if n == 2 {
            Some(TwoBMap::C)
        } else {
            None
        }
    }

    /// The variant's name, as it is declared.
    pub open spec fn name(self) -> Seq<char> {
        match self {
            TwoBMap::A => "A"@,
            TwoBMap::B => "B"@,
            TwoBMap::C => "C"@,
        }
    }

    /// The variant with the name `s`, if there is one.
    pub open spec fn from_name(s: Seq<char>) -> Option<TwoBMap> {
        if s == "A"@ {
            Some(TwoBMap::A)
        } else if s == "B"@ {
            Some(TwoBMap::B)
        } else if s == "C"@ {
            Some(TwoBMap::C)
        } else {
            None
        }
    }

    /// Reads an output routing from its wire ordinal; a number past the last ordinal is
    /// a parser error that quotes it.
    pub fn try_from(n: u8) -> (r: Result<TwoBMap, TwoBError>)
        ensures
            match r {
                Ok(v) => TwoBMap::from_ordinal(n as nat) == Some(v),
                Err(e) => TwoBMap::from_ordinal(n as nat) is None && e.is_parser_error(
                    unknown_ordinal("TwoBMap"@, n as nat),
                ),
            },
    {
        if n == 0 {
            Ok(TwoBMap::A)
        } else if n == 1 {
            Ok(TwoBMap::B)
        } else if n == 2 {
            Ok(TwoBMap::C)
        } else {
            Err(ordinal_error("TwoBMap", n))
        }
    }

    /// The variant's name as a text.
    pub fn to_string(&self) -> (s: String)
        ensures
            s@ == self.name(),
    {
        match self {
            TwoBMap::A => String::from_str("A"),
            TwoBMap::B => String::from_str("B"),
            TwoBMap::C => String::from_str("C"),
        }
    }

    /// Reads an output routing from its name; any other text is a parser error that
    /// quotes it.
    pub fn from_str(s: &str) -> (r: Result<TwoBMap, TwoBError>)
        ensures
            match r {
                Ok(v) => TwoBMap::from_name(s@) == Some(v),
                Err(e) => TwoBMap::from_name(s@) is None && e.is_parser_error(
                    unknown_name("TwoBMap"@, s@),
                ),
            },
    {
        let text = chars_of(s);
        if spells(&text, "A") {
            Ok(TwoBMap::A)
        } else if spells(&text, "B") {
            Ok(TwoBMap::B)
        } else if spells(&text, "C") {
            Ok(TwoBMap::C)
        } else {
            Err(name_error("TwoBMap", &text))
        }
    }

    /// Every variant comes back from its own wire ordinal, and no other
    /// variant does.
    pub proof fn lemma_ordinal_round_trip(self)
        ensures
            TwoBMap::from_ordinal(self.ordinal()) == Some(self),
            forall|n: nat| TwoBMap::from_ordinal(n) == Some(self) ==> n == self.ordinal(),
    {
    }

    /// Every variant comes back from its own name, and from no other text.
    pub proof fn lemma_name_round_trip(self)
        ensures
            TwoBMap::from_name(self.name()) == Some(self),
            forall|s: Seq<char>| TwoBMap::from_name(s) == Some(self) ==> s == self.name(),
    {
        reveal_strlit("A");
        assert("A"@.len() == 1 && "A"@[0] == 'A');
        reveal_strlit("B");
        assert("B"@.len() == 1 && "B"@[0] == 'B');
        reveal_strlit("C");
        assert("C"@.len() == 1 && "C"@[0] == 'C');
    }
}

impl From<TwoBMap> for u8 {
    /// The wire ordinal of the variant.
    fn from(v: TwoBMap) -> (n: u8) {
        match v {
            TwoBMap::A => 0,
            TwoBMap::B => 1,
            TwoBMap::C => 2,
        }
    }
}

impl vstd::std_specs::convert::FromSpecImpl<TwoBMap> for u8 {
    open spec fn obeys_from_spec() -> bool {
        true
    }

    open spec fn from_spec(v: TwoBMap) -> u8 {
        v.ordinal() as u8
    }
}

/// The ramp multipliers, in the order of their wire ordinals.
#[derive(Clone, Copy, Debug, PartialEq, Eq, Structural)]
pub enum TwoBRamp {
    X1,
    X2,
    X3,
    X4,
}

impl TwoBRamp {
    /// The wire ordinal: the variant's place in the declaration, from zero.
    pub open spec fn ordinal(self) -> nat {
        match self {
            TwoBRamp::X1 => 0,
            TwoBRamp::X2 => 1,
            TwoBRamp::X3 => 2,
            TwoBRamp::X4 => 3,
        }
    }

    /// The variant with the wire ordinal `n`, if there is one.
    pub open spec fn from_ordinal(n: nat) -> Option<TwoBRamp> {
        if n == 0 {
            Some(TwoBRamp::X1)
        } else if n == 1 {
            Some(TwoBRamp::X2)
        } else if n == 2 {
            Some(TwoBRamp::X3)
        } else if n == 3 {
            Some(TwoBRamp::X4)
        } else {
            None
        }
    }

    /// The variant's name, as it is declared.
    pub open spec fn name(self) -> Seq<char> {
        match self {
            TwoBRamp::X1 => "X1"@,
            TwoBRamp::X2 => "X2"@,
            TwoBRamp::X3 => "X3"@,
            TwoBRamp::X4 => "X4"@,
        }
    }

    /// The variant with the name `s`, if there is one.
    pub open spec fn from_name(s: Seq<char>) -> Option<TwoBRamp> {
        if s == "X1"@ {
            Some(TwoBRamp::X1)
        } else if s == "X2"@ {
            Some(TwoBRamp::X2)
        } else if s == "X3"@ {
            Some(TwoBRamp::X3)
        } else if s == "X4"@ {
            Some(TwoBRamp::X4)
        } else {
            None
        }
    }

    /// Reads a ramp multiplier from its wire ordinal; a number past the last ordinal is
    /// a parser error that quotes it.
    pub fn try_from(n: u8) -> (r: Result<TwoBRamp, TwoBError>)
        ensures
            match r {
                Ok(v) => TwoBRamp::from_ordinal(n as nat) == Some(v),
                Err(e) => TwoBRamp::from_ordinal(n as nat) is None && e.is_parser_error(
                    unknown_ordinal("TwoBRamp"@, n as nat),
                ),
            },
    {
        if n == 0 {
            Ok(TwoBRamp::X1)
        } else if n == 1 {
            Ok(TwoBRamp::X2)
        } else if n == 2 {
            Ok(TwoBRamp::X3)
        } else if n == 3 {
            Ok(TwoBRamp::X4)
        } else {
            Err(ordinal_error("TwoBRamp", n))
        }
    }

    /// The variant's name as a text.
    pub fn to_string(&self) -> (s: String)
        ensures
            s@ == self.name(),
    {
        match self {
            TwoBRamp::X1 => String::from_str("X1"),
            TwoBRamp::X2 => String::from_str("X2"),
            TwoBRamp::X3 => String::from_str("X3"),
            TwoBRamp::X4 => String::from_str("X4"),
        }
    }

    /// Reads a ramp multiplier from its name; any other text is a parser error that
    /// quotes it.
    pub fn from_str(s: &str) -> (r: Result<TwoBRamp, TwoBError>)
        ensures
            match r {
                Ok(v) => TwoBRamp::from_name(s@) == Some(v),
                Err(e) => TwoBRamp::from_name(s@) is None && e.is_parser_error(
                    unknown_name("TwoBRamp"@, s@),
                ),
            },
    {
        let text = chars_of(s);
        if spells(&text, "X1") {
            Ok(TwoBRamp::X1)
        } else if spells(&text, "X2") {
            Ok(TwoBRamp::X2)
        } else if spells(&text, "X3") {
            Ok(TwoBRamp::X3)
        } else if spells(&text, "X4") {
            Ok(TwoBRamp::X4)
        } else {
            Err(name_error("TwoBRamp", &text))
        }
    }

    /// Every variant comes back from its own wire ordinal, and no other
    /// variant does.
    pub proof fn lemma_ordinal_round_trip(self)
        ensures
            TwoBRamp::from_ordinal(self.ordinal()) == Some(self),
            forall|n: nat| TwoBRamp::from_ordinal(n) == Some(self) ==> n == self.ordinal(),
    {
    }

    /// Every variant comes back from its own name, and from no other text.
    pub proof fn lemma_name_round_trip(self)
        ensures
            TwoBRamp::from_name(self.name()) == Some(self),
            forall|s: Seq<char>| TwoBRamp::from_name(s) == Some(self) ==> s == self.name(),
    {
        reveal_strlit("X1");
        assert("X1"@.len() == 2 && "X1"@[0] == 'X' && "X1"@[1] == '1');
        reveal_strlit("X2");
        assert("X2"@.len() == 2 && "X2"@[0] == 'X' && "X2"@[1] == '2');
        reveal_strlit("X3");
        assert("X3"@.len() == 2 && "X3"@[0] == 'X' && "X3"@[1] == '3');
        reveal_strlit("X4");
        assert("X4"@.len() == 2 && "X4"@[0] == 'X' && "X4"@[1] == '4');
    }
}

impl From<TwoBRamp> for u8 {
    /// The wire ordinal of the variant.
    fn from(v: TwoBRamp) -> (n: u8) {
        match v {
            TwoBRamp::X1 => 0,
            TwoBRamp::X2 => 1,
            TwoBRamp::X3 => 2,
            TwoBRamp::X4 => 3,
        }
    }
}

impl vstd::std_specs::convert::FromSpecImpl<TwoBRamp> for u8 {
    open spec fn obeys_from_spec() -> bool {
        true
    }

    open spec fn from_spec(v: TwoBRamp) -> u8 {
        v.ordinal() as u8
    }
}

/// The warp multipliers, in the order of their wire ordinals.
#[derive(Clone, Copy, Debug, PartialEq, Eq, Structural)]
pub enum TwoBWarp {
    X1,
    X2,
    X4,
    X8,
    X16,
    X32,
}

impl TwoBWarp {
    /// The wire ordinal: the variant's place in the declaration, from zero.
    pub open spec fn ordinal(self) -> nat {
        match self {
            TwoBWarp::X1 => 0,
            TwoBWarp::X2 => 1,
            TwoBWarp::X4 => 2,
            TwoBWarp::X8 => 3,
            TwoBWarp::X16 => 4,
            TwoBWarp::X32 => 5,
        }
    }

    /// The variant with the wire ordinal `n`, if there is one.
    pub open spec fn from_ordinal(n: nat) -> Option<TwoBWarp> {
        if n == 0 {
            Some(TwoBWarp::X1)
        } else if n == 1 {
            Some(TwoBWarp::X2)
        } else if n == 2 {
            Some(TwoBWarp::X4)
        } else if n == 3 {
            Some(TwoBWarp::X8)
        } else if n == 4 {
            Some(TwoBWarp::X16)
        } else if n == 5 {
            Some(TwoBWarp::X32)
        } else {
            None
        }
    }

    /// The variant's name, as it is declared.
    pub open spec fn name(self) -> Seq<char> {
        match self {
            TwoBWarp::X1 => "X1"@,
            TwoBWarp::X2 => "X2"@,
            TwoBWarp::X4 => "X4"@,
            TwoBWarp::X8 => "X8"@,
            TwoBWarp::X16 => "X16"@,
            TwoBWarp::X32 => "X32"@,
        }
    }

    /// The variant with the name `s`, if there is one.
    pub open spec fn from_name(s: Seq<char>) -> Option<TwoBWarp> {
        if s == "X1"@ {
            Some(TwoBWarp::X1)
        } else if s == "X2"@ {
            Some(TwoBWarp::X2)
        } else if s == "X4"@ {
            Some(TwoBWarp::X4)
        } else if s == "X8"@ {
            Some(TwoBWarp::X8)
        } else if s == "X16"@ {
            Some(TwoBWarp::X16)
        } else if s == "X32"@ {
            Some(TwoBWarp::X32)
        } else {
            None
        }
    }

    /// Reads a warp multiplier from its wire ordinal; a number past the last ordinal is
    /// a parser error that quotes it.
    pub fn try_from(n: u8) -> (r: Result<TwoBWarp, TwoBError>)
        ensures
            match r {
                Ok(v) => TwoBWarp::from_ordinal(n as nat) == Some(v),
                Err(e) => TwoBWarp::from_ordinal(n as nat) is None && e.is_parser_error(
                    unknown_ordinal("TwoBWarp"@, n as nat),
                ),
            },
    {
        if n == 0 {
            Ok(TwoBWarp::X1)
        } else if n == 1 {
            Ok(TwoBWarp::X2)
        } else if n == 2 {
            Ok(TwoBWarp::X4)
        } else if n == 3 {
            Ok(TwoBWarp::X8)
        } else if n == 4 {
            Ok(TwoBWarp::X16)
        } else if n == 5 {
            Ok(TwoBWarp::X32)
        } else {
            Err(ordinal_error("TwoBWarp", n))
        }
    }

    /// The variant's name as a text.
    pub fn to_string(&self) -> (s: String)
        ensures
            s@ == self.name(),
    {
        match self {
            TwoBWarp::X1 => String::from_str("X1"),
            TwoBWarp::X2 => String::from_str("X2"),
            TwoBWarp::X4 => String::from_str("X4"),
            TwoBWarp::X8 => String::from_str("X8"),
            TwoBWarp::X16 => String::from_str("X16"),
            TwoBWarp::X32 => String::from_str("X32"),
        }
    }

    /// Reads a warp multiplier from its name; any other text is a parser error that
    /// quotes it.
    pub fn from_str(s: &str) -> (r: Result<TwoBWarp, TwoBError>)
        ensures
            match r {
                Ok(v) => TwoBWarp::from_name(s@) == Some(v),
                Err(e) => TwoBWarp::from_name(s@) is None && e.is_parser_error(
                    unknown_name("TwoBWarp"@, s@),
                ),
            },
    {
        let text = chars_of(s);
        if spells(&text, "X1") {
            Ok(TwoBWarp::X1)
        } else if spells(&text, "X2") {
            Ok(TwoBWarp::X2)
        } else if spells(&text, "X4") {
            Ok(TwoBWarp::X4)
        } else if spells(&text, "X8") {
            Ok(TwoBWarp::X8)
        } else if spells(&text, "X16") {
            Ok(TwoBWarp::X16)
        } else if spells(&text, "X32") {
            Ok(TwoBWarp::X32)
        } else {
            Err(name_error("TwoBWarp", &text))
        }
    }

    /// Every variant comes back from its own wire ordinal, and no other
    /// variant does.
    pub proof fn lemma_ordinal_round_trip(self)
        ensures
            TwoBWarp::from_ordinal(self.ordinal()) == Some(self),
            forall|n: nat| TwoBWarp::from_ordinal(n) == Some(self) ==> n == self.ordinal(),
    {
    }

    /// Every variant comes back from its own name, and from no other text.
    pub proof fn lemma_name_round_trip(self)
        ensures
            TwoBWarp::from_name(self.name()) == Some(self),
            forall|s: Seq<char>| TwoBWarp::from_name(s) == Some(self) ==> s == self.name(),
    {
        reveal_strlit("X1");
        assert("X1"@.len() == 2 && "X1"@[0] == 'X' && "X1"@[1] == '1');
        reveal_strlit("X2");
        assert("X2"@.len() == 2 && "X2"@[0] == 'X' && "X2"@[1] == '2');
        reveal_strlit("X4");
        assert("X4"@.len() == 2 && "X4"@[0] == 'X' && "X4"@[1] == '4');
        reveal_strlit("X8");
        assert("X8"@.len() == 2 && "X8"@[0] == 'X' && "X8"@[1] == '8');
        reveal_strlit("X16");
        assert("X16"@.len() == 3 && "X16"@[0] == 'X' && "X16"@[1] == '1');
        reveal_strlit("X32");
        assert("X32"@.len() == 3 && "X32"@[0] == 'X' && "X32"@[1] == '3');
    }
}

impl From<TwoBWarp> for u8 {
    /// The wire ordinal of the variant.
    fn from(v: TwoBWarp) -> (n: u8) {
        match v {
            TwoBWarp::X1 => 0,
            TwoBWarp::X2 => 1,
            TwoBWarp::X4 => 2,
            TwoBWarp::X8 => 3,
            TwoBWarp::X16 => 4,
            TwoBWarp::X32 => 5,
        }
    }
}

impl vstd::std_specs::convert::FromSpecImpl<TwoBWarp> for u8 {
    open spec fn obeys_from_spec() -> bool {
        true
    }

    open spec fn from_spec(v: TwoBWarp) -> u8 {
        v.ordinal() as u8
    }
}

/// The power levels. On the wire each is a letter, not an ordinal.
#[derive(Clone, Copy, Debug, PartialEq, Eq, Structural)]
pub enum TwoBPower {
    HIGH,
    LOW,
    DYNAMIC,
}

impl TwoBPower {
    /// The variant's name, as it is declared.
    pub open spec fn name(self) -> Seq<char> {
        match self {
            TwoBPower::HIGH => "HIGH"@,
            TwoBPower::LOW => "LOW"@,
            TwoBPower::DYNAMIC => "DYNAMIC"@,
        }
    }

    /// The variant with the name `s`, if there is one.
    pub open spec fn from_name(s: Seq<char>) -> Option<TwoBPower> {
        if s == "HIGH"@ {
            Some(TwoBPower::HIGH)
        } else if s == "LOW"@ {
            Some(TwoBPower::LOW)
        } else if s == "DYNAMIC"@ {
            Some(TwoBPower::DYNAMIC)
        } else {
            None
        }
    }

    /// The variant's name as a text.
    pub fn to_string(&self) -> (s: String)
        ensures
            s@ == self.name(),
    {
        match self {
            TwoBPower::HIGH => String::from_str("HIGH"),
            TwoBPower::LOW => String::from_str("LOW"),
            TwoBPower::DYNAMIC => String::from_str("DYNAMIC"),
        }
    }

    /// Reads a power level from its name; any other text is a parser error that
    /// quotes it.
    pub fn from_str(s: &str) -> (r: Result<TwoBPower, TwoBError>)
        ensures
            match r {
                Ok(v) => TwoBPower::from_name(s@) == Some(v),
                Err(e) => TwoBPower::from_name(s@) is None && e.is_parser_error(
                    unknown_name("TwoBPower"@, s@),
                ),
            },
    {
        let text = chars_of(s);
        if spells(&text, "HIGH") {
            Ok(TwoBPower::HIGH)
        } else if spells(&text, "LOW") {
            Ok(TwoBPower::LOW)
        } else if spells(&text, "DYNAMIC") {
            Ok(TwoBPower::DYNAMIC)
        } else {
            Err(name_error("TwoBPower", &text))
        }
    }

    /// Every variant comes back from its own name, and from no other text.
    pub proof fn lemma_name_round_trip(self)
        ensures
            TwoBPower::from_name(self.name()) == Some(self),
            forall|s: Seq<char>| TwoBPower::from_name(s) == Some(self) ==> s == self.name(),
    {
        reveal_strlit("HIGH");
        assert("HIGH"@.len() == 4 && "HIGH"@[0] == 'H' && "HIGH"@[1] == 'I');
        reveal_strlit("LOW");
        assert("LOW"@.len() == 3 && "LOW"@[0] == 'L' && "LOW"@[1] == 'O');
        reveal_strlit("DYNAMIC");
        assert("DYNAMIC"@.len() == 7 && "DYNAMIC"@[0] == 'D' && "DYNAMIC"@[1] == 'Y');
    }

    /// The letter that stands for the power level on the wire.
    pub open spec fn letter(self) -> char {
        match self {
            TwoBPower::HIGH => 'H',
            TwoBPower::LOW => 'L',
            TwoBPower::DYNAMIC => 'Y',
        }
    }

    /// The power level that a response field spells: `H` is high, `L` is
    /// low, and `D` is read as low too. No text is read as dynamic, not even
    /// its own letter.
    pub open spec fn from_letter(s: Seq<char>) -> Option<TwoBPower> {
        if s == seq!['H'] {
            Some(TwoBPower::HIGH)
        } else if s == seq!['L'] || s == seq!['D'] {
            Some(TwoBPower::LOW)
        } else {
            None
        }
    }

    /// The letter that stands for the power level on the wire.
    pub fn value(self) -> (c: char)
        ensures
            c == self.letter(),
    {
        match self {
            TwoBPower::HIGH => 'H',
            TwoBPower::LOW => 'L',
            TwoBPower::DYNAMIC => 'Y',
        }
    }

    /// Reads a power level from the text of a response field.
    pub fn from_chars(text: &Vec<char>) -> (r: Result<TwoBPower, TwoBError>)
        ensures
            match r {
                Ok(v) => TwoBPower::from_letter(text@) == Some(v),
                Err(e) => TwoBPower::from_letter(text@) is None && e.is_parser_error(
                    unknown_power(text@),
                ),
            },
    {
        if text.len() == 1 && text[0] == 'H' {
            assert(text@ == seq!['H']);
            Ok(TwoBPower::HIGH)
        } else if text.len() == 1 && (text[0] == 'L' || text[0] == 'D') {
            assert(text@ == seq![text[0]]);
            Ok(TwoBPower::LOW)
        } else {
            assert(text@ != seq!['H'] && text@ != seq!['L'] && text@ != seq!['D']) by {
                if text.len() == 1 {
                    assert(seq!['H'][0] == 'H' && seq!['L'][0] == 'L' && seq!['D'][0] == 'D');
                } else {
                    assert(seq!['H'].len() == 1 && seq!['L'].len() == 1 && seq!['D'].len() == 1);
                }
            }
            Err(sentence_error("Cannot parse ", "Power", " from `", text))
        }
    }

    /// Reads a power level from the text of a response field.
    pub fn try_from(s: String) -> (r: Result<TwoBPower, TwoBError>)
        ensures
            match r {
                Ok(v) => TwoBPower::from_letter(s@) == Some(v),
                Err(e) => TwoBPower::from_letter(s@) is None && e.is_parser_error(
                    unknown_power(s@),
                ),
            },
    {
        let text = chars_of(s.as_str());
        TwoBPower::from_chars(&text)
    }

    /// High and low come back from their own letters. Dynamic does not: its
    /// letter is not read at all.
    pub proof fn lemma_letter_round_trip(self)
        ensures
            self != TwoBPower::DYNAMIC ==> TwoBPower::from_letter(seq![self.letter()]) == Some(self),
            TwoBPower::from_letter(seq![TwoBPower::DYNAMIC.letter()]) is None,
    {
        assert(seq!['H'][0] == 'H' && seq!['L'][0] == 'L' && seq!['D'][0] == 'D' && seq!['Y'][0]
            == 'Y');
    }
}

/// The four output channels. On the wire each is a letter.
#[derive(Clone, Copy, Debug, PartialEq, Eq, Structural)]
pub enum TwoBChannel {
    A,
    B,
    C,
    D,
}

impl TwoBChannel {
    /// The variant's name, as it is declared.
    pub open spec fn name(self) -> Seq<char> {
        match self {
            TwoBChannel::A => "A"@,
            TwoBChannel::B => "B"@,
            TwoBChannel::C => "C"@,
            TwoBChannel::D => "D"@,
        }
    }

    /// The variant with the name `s`, if there is one.
    pub open spec fn from_name(s: Seq<char>) -> Option<TwoBChannel> {
        if s == "A"@ {
            Some(TwoBChannel::A)
        } else if s == "B"@ {
            Some(TwoBChannel::B)
        } else if s == "C"@ {
            Some(TwoBChannel::C)
        } else if s == "D"@ {
            Some(TwoBChannel::D)
        } else {
            None
        }
    }

    /// The variant's name as a text.
    pub fn to_string(&self) -> (s: String)
        ensures
            s@ == self.name(),
    {
        match self {
            TwoBChannel::A => String::from_str("A"),
            TwoBChannel::B => String::from_str("B"),
            TwoBChannel::C => String::from_str("C"),
            TwoBChannel::D => String::from_str("D"),
        }
    }

    /// Reads a channel from its name; any other text is a parser error that
    /// quotes it.
    pub fn from_str(s: &str) -> (r: Result<TwoBChannel, TwoBError>)
        ensures
            match r {
                Ok(v) => TwoBChannel::from_name(s@) == Some(v),
                Err(e) => TwoBChannel::from_name(s@) is None && e.is_parser_error(
                    unknown_name("TwoBChannel"@, s@),
                ),
            },
    {
        let text = chars_of(s);
        if spells(&text, "A") {
            Ok(TwoBChannel::A)
        } else if spells(&text, "B") {
            Ok(TwoBChannel::B)
        } else if spells(&text, "C") {
            Ok(TwoBChannel::C)
        } else if spells(&text, "D") {
            Ok(TwoBChannel::D)
        } else {
            Err(name_error("TwoBChannel", &text))
        }
    }

    /// Every variant comes back from its own name, and from no other text.
    pub proof fn lemma_name_round_trip(self)
        ensures
            TwoBChannel::from_name(self.name()) == Some(self),
            forall|s: Seq<char>| TwoBChannel::from_name(s) == Some(self) ==> s == self.name(),
    {
        reveal_strlit("A");
        assert("A"@.len() == 1 && "A"@[0] == 'A');
        reveal_strlit("B");
        assert("B"@.len() == 1 && "B"@[0] == 'B');
        reveal_strlit("C");
        assert("C"@.len() == 1 && "C"@[0] == 'C');
        reveal_strlit("D");
        assert("D"@.len() == 1 && "D"@[0] == 'D');
    }

    /// The letter that stands for the channel on the wire.
    pub open spec fn letter(self) -> char {
        match self {
            TwoBChannel::A => 'A',
            TwoBChannel::B => 'B',
            TwoBChannel::C => 'C',
            TwoBChannel::D => 'D',
        }
    }

    /// The letter that stands for the channel on the wire.
    pub fn value(self) -> (c: char)
        ensures
            c == self.letter(),
    {
        match self {
            TwoBChannel::A => 'A',
            TwoBChannel::B => 'B',
            TwoBChannel::C => 'C',
            TwoBChannel::D => 'D',
        }
    }
}

} // verus!
