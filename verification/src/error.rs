//! The two ways in which talking to a unit can fail, and the messages that
//! describe a failed parse.

use vstd::prelude::*;
use vstd::string::*;
use crate::text::{decimal, push_chars};

verus! {

/// What went wrong: the link failed, or what came over it made no sense.
/// Either carries a message for a human reader.
#[derive(Debug, PartialEq, Eq)]
pub enum TwoBError {
    ConnectionError(String),
    ParserError(String),
}

impl Clone for TwoBError {
    fn clone(&self) -> (e: TwoBError)
        ensures
            e == *self,
    {
        match self {
            TwoBError::ConnectionError(m) => TwoBError::ConnectionError(m.clone()),
            TwoBError::ParserError(m) => TwoBError::ParserError(m.clone()),
        }
    }
}

impl TwoBError {
    /// The message that the error carries.
    pub open spec fn message(self) -> Seq<char> {
        match self {
            TwoBError::ConnectionError(m) => m@,
            TwoBError::ParserError(m) => m@,
        }
    }

    /// Whether this is a parser error with exactly the message `msg`.
    pub open spec fn is_parser_error(self, msg: Seq<char>) -> bool {
        self is ParserError && self.message() == msg
    }

    /// The name of the error's kind.
    pub open spec fn kind_name(self) -> Seq<char> {
        match self {
            TwoBError::ConnectionError(_) => "ConnectionError"@,
            TwoBError::ParserError(_) => "ParserError"@,
        }
    }

    /// The name of the error's kind, without its message.
    pub fn to_string(&self) -> (s: String)
        ensures
            s@ == self.kind_name(),
    {
        match self {
            TwoBError::ConnectionError(_) => String::from_str("ConnectionError"),
            TwoBError::ParserError(_) => String::from_str("ParserError"),
        }
    }

    /// A parser error with the message `msg`.
    pub fn parser(msg: &str) -> (e: TwoBError)
        ensures
            e.is_parser_error(msg@),
    {
        TwoBError::ParserError(String::from_str(msg))
    }

    /// A connection error with the message `msg`.
    pub fn connection(msg: &str) -> (e: TwoBError)
        ensures
            e is ConnectionError,
            e.message() == msg@,
    {
        TwoBError::ConnectionError(String::from_str(msg))
    }
}

/// The sentence `head subject link text` followed by a closing backquote.
pub open spec fn sentence(
    head: Seq<char>,
    subject: Seq<char>,
    link: Seq<char>,
    text: Seq<char>,
) -> Seq<char> {
    head + subject + link + text + "`"@
}

/// The message for a number that is no wire ordinal of the enumeration `kind`.
pub open spec fn unknown_ordinal(kind: Seq<char>, n: nat) -> Seq<char> {
    sentence("No discriminant in enum `"@, kind, "` matches the value `"@, decimal(n))
}

/// The message for a text that names no variant of the enumeration `kind`.
pub open spec fn unknown_name(kind: Seq<char>, text: Seq<char>) -> Seq<char> {
    sentence("No variant of enum `"@, kind, "` is named `"@, text)
}

/// The message for a text that is no power letter.
pub open spec fn unknown_power(text: Seq<char>) -> Seq<char> {
    sentence("Cannot parse "@, "Power"@, " from `"@, text)
}

/// The message for a response line that ends before the field `name`.
pub open spec fn missing_field(name: Seq<char>) -> Seq<char> {
    sentence("Missing field `"@, name, ""@, ""@)
}

/// The message for a field `name` whose text does not parse.
pub open spec fn invalid_field(name: Seq<char>, text: Seq<char>) -> Seq<char> {
    sentence("Cannot parse field `"@, name, "` from `"@, text)
}

/// A parser error whose message is the sentence made of the four parts.
pub fn sentence_error(head: &str, subject: &str, link: &str, text: &Vec<char>) -> (e: TwoBError)
    ensures
        e.is_parser_error(sentence(head@, subject@, link@, text@)),
{
    let mut msg = String::from_str(head);
    msg.append(subject);
    msg.append(link);
    push_chars(&mut msg, text);
    msg.append("`");
    TwoBError::ParserError(msg)
}

} // verus!
