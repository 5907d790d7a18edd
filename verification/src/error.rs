//! The errors that reading, framing and parsing client messages can end in.

use vstd::prelude::*;
use vstd::string::StringExecFns;
use crate::text::{decimal, push_decimal};

verus! {

/// Everything that can go wrong while reading and parsing client traffic.
#[derive(Debug, PartialEq, Eq, Clone)]
pub enum Error {
    MessageReadingErrorNotUtf8,
    MessageReadingErrorNoMessageSeparatorProvided,
    MessageReadingErrorLastMessageMissingSeparator,
    MessageReadingErrorStreamClosed,
    MessageReadingErrorIoFailure,
    MessageParsingErrorMissingCommand,
    MessageParsingErrorMissingParameter { param_name: String },
    MessageParsingErrorInvalidChannelFormat { provided_channel: String },
    ErrorAcceptingConnection,
    UnableToBindToPort(u16),
}

/// An error with its strings taken by their views.
pub enum ErrorView {
    MessageReadingErrorNotUtf8,
    MessageReadingErrorNoMessageSeparatorProvided,
    MessageReadingErrorLastMessageMissingSeparator,
    MessageReadingErrorStreamClosed,
    MessageReadingErrorIoFailure,
    MessageParsingErrorMissingCommand,
    MessageParsingErrorMissingParameter { param_name: Seq<char> },
    MessageParsingErrorInvalidChannelFormat { provided_channel: Seq<char> },
    ErrorAcceptingConnection,
    UnableToBindToPort(u16),
}

impl View for Error {
    type V = ErrorView;

    open spec fn view(&self) -> ErrorView {
        match self {
            Error::MessageReadingErrorNotUtf8 => ErrorView::MessageReadingErrorNotUtf8,
            Error::MessageReadingErrorNoMessageSeparatorProvided =>
                ErrorView::MessageReadingErrorNoMessageSeparatorProvided,
            Error::MessageReadingErrorLastMessageMissingSeparator =>
                ErrorView::MessageReadingErrorLastMessageMissingSeparator,
            Error::MessageReadingErrorStreamClosed => ErrorView::MessageReadingErrorStreamClosed,
            Error::MessageReadingErrorIoFailure => ErrorView::MessageReadingErrorIoFailure,
            Error::MessageParsingErrorMissingCommand => ErrorView::MessageParsingErrorMissingCommand,
            Error::MessageParsingErrorMissingParameter { param_name } =>
                ErrorView::MessageParsingErrorMissingParameter { param_name: param_name@ },
            Error::MessageParsingErrorInvalidChannelFormat { provided_channel } =>
                ErrorView::MessageParsingErrorInvalidChannelFormat {
                    provided_channel: provided_channel@,
                },
            Error::ErrorAcceptingConnection => ErrorView::ErrorAcceptingConnection,
            Error::UnableToBindToPort(port) => ErrorView::UnableToBindToPort(*port),
        }
    }
}

/// The human readable text of an error.
pub open spec fn error_text(e: Error) -> Seq<char> {
    match e {
        Error::MessageReadingErrorNotUtf8 =>
            "Error reading message(s), must be valid UTF-8"@,
        Error::MessageReadingErrorNoMessageSeparatorProvided =>
            "Error reading message(s), no message separator provided"@,
        Error::MessageReadingErrorLastMessageMissingSeparator =>
            "Error reading message(s), last message is missing separator"@,
        Error::MessageReadingErrorStreamClosed =>
            "Error reading message(s), stream is closed"@,
        Error::MessageReadingErrorIoFailure =>
            "Error reading message(s), IO failure"@,
        Error::MessageParsingErrorMissingCommand =>
            "Error parsing message, command is missing"@,
        Error::MessageParsingErrorMissingParameter { param_name } =>
            "Error parsing message, missing parameter "@ + param_name@,
        Error::MessageParsingErrorInvalidChannelFormat { provided_channel } =>
            "Error parsing message, invalid channel format "@ + provided_channel@,
        Error::ErrorAcceptingConnection =>
            "Error accepting connection"@,
        Error::UnableToBindToPort(port) =>
            "Unable to bind to port "@ + decimal(port as nat),
    }
}

impl Error {
    /// Renders the error as the text shown to operators.
    pub fn message(&self) -> (s: String)
        ensures
            s@ == error_text(*self),
    {
        match self {
            Error::MessageReadingErrorNotUtf8 =>
                String::from_str("Error reading message(s), must be valid UTF-8"),
            Error::MessageReadingErrorNoMessageSeparatorProvided =>
                String::from_str("Error reading message(s), no message separator provided"),
            Error::MessageReadingErrorLastMessageMissingSeparator =>
                String::from_str("Error reading message(s), last message is missing separator"),
            Error::MessageReadingErrorStreamClosed =>
                String::from_str("Error reading message(s), stream is closed"),
            Error::MessageReadingErrorIoFailure =>
                String::from_str("Error reading message(s), IO failure"),
            Error::MessageParsingErrorMissingCommand =>
                String::from_str("Error parsing message, command is missing"),
            Error::MessageParsingErrorMissingParameter { param_name } => {
                let mut s = String::from_str("Error parsing message, missing parameter ");
                s.append(param_name.as_str());
                s
            },
            Error::MessageParsingErrorInvalidChannelFormat { provided_channel } => {
                let mut s = String::from_str("Error parsing message, invalid channel format ");
                s.append(provided_channel.as_str());
                s
            },
            Error::ErrorAcceptingConnection =>
                String::from_str("Error accepting connection"),
            Error::UnableToBindToPort(port) => {
                let mut s = String::from_str("Unable to bind to port ");
                push_decimal(&mut s, *port as u64);
                s
            },
        }
    }
}

} // verus!
