use vstd::prelude::*;
use vstd::string::StringExecFns;
use crate::error::text_view;

verus! {

/// An error that a receive operation reported in its metadata.
#[derive(Debug)]
pub struct ReceiveError {
    pub kind: ReceiveErrorKind,
    pub message: Option<String>,
}

#[non_exhaustive]
#[derive(Debug, Clone, Copy, PartialEq, Eq, Structural)]
pub enum ReceiveErrorKind {
    /// No packet received
    Timeout,
    /// Command timestamp was in the past
    LateCommand,
    /// Expected another stream command
    BrokenChain,
    /// An internal receive buffer has been filled
    Overflow,
    /// A packet was dropped or received out of order
    OutOfSequence,
    /// Multi-channel alignment failed
    Alignment,
    /// A packet could not be parsed
    BadPacket,
    /// Some other error
    Other,
}

impl ReceiveErrorKind {
    /// The sentence that describes this kind of error.
    pub open spec fn spec_description(self) -> Seq<char> {
        match self {
            ReceiveErrorKind::Timeout => "No packet received"@,
            ReceiveErrorKind::LateCommand => "Command timestamp was in the past"@,
            ReceiveErrorKind::BrokenChain => "Expected another stream command"@,
            ReceiveErrorKind::Overflow => "An internal receive buffer has been filled"@,
            ReceiveErrorKind::OutOfSequence => "Sequence error"@,
            ReceiveErrorKind::Alignment => "Multi-channel alignment failed"@,
            ReceiveErrorKind::BadPacket => "A packet could not be parsed"@,
            ReceiveErrorKind::Other => "Other error"@,
        }
    }

    /// Returns the sentence that describes this kind of error.
    pub fn description(self) -> (text: &'static str)
        ensures
            text@ == self.spec_description(),
    {
        match self {
            ReceiveErrorKind::Timeout => "No packet received",
            ReceiveErrorKind::LateCommand => "Command timestamp was in the past",
            ReceiveErrorKind::BrokenChain => "Expected another stream command",
            ReceiveErrorKind::Overflow => "An internal receive buffer has been filled",
            ReceiveErrorKind::OutOfSequence => "Sequence error",
            ReceiveErrorKind::Alignment => "Multi-channel alignment failed",
            ReceiveErrorKind::BadPacket => "A packet could not be parsed",
            ReceiveErrorKind::Other => "Other error",
        }
    }
}

impl ReceiveError {
    /// The characters of the text that this error carries.
    pub open spec fn spec_message(self) -> Option<Seq<char>> {
        text_view(self.message)
    }

    /// What `to_string` gives: the sentence for the kind, and behind it, where
    /// the error carries a text that is not empty, a colon, a space and that
    /// text.
    pub open spec fn spec_to_string(self) -> Seq<char> {
        match self.message {
            Some(message) if message@.len() > 0 => self.kind.spec_description() + ": "@
                + message@,
            _ => self.kind.spec_description(),
        }
    }

    pub fn kind(&self) -> (kind: ReceiveErrorKind)
        ensures
            kind == self.kind,
    {
        self.kind
    }

    pub fn message(&self) -> (message: Option<&str>)
        ensures
            message is Some == self.spec_message() is Some,
            message is Some ==> message->0@ == self.spec_message()->0,
    {
        match &self.message {
            Some(text) => Some(text.as_str()),
            None => None,
        }
    }

    /// Describes this error in words.
    pub fn to_string(&self) -> (text: String)
        ensures
            text@ == self.spec_to_string(),
    {
        let mut text = String::from_str(self.kind.description());
        match &self.message {
            Some(message) => {
                if !message.as_str().is_empty() {
                    text.append(": ");
                    text.append(message.as_str());
                }
            },
            None => {},
        }
        text
    }
}

} // verus!
