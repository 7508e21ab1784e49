//! What can go wrong in a client.

use vstd::prelude::*;
use vstd::string::*;

use crate::goval::{Command, CommandView};

verus! {

/// `tungstenite::Error`, carried from a failed dial to the caller and never
/// looked into.
#[verifier::external_type_specification]
#[verifier::external_body]
pub struct ExWebSocketError(tokio_tungstenite::tungstenite::Error);

/// The errors of a client.
#[derive(Debug)]
pub enum CrosisError {
    ConnectionMetadataFetchError,
    ConnectionMetadataParseError(String),
    ConnectionError(tokio_tungstenite::tungstenite::Error),
    Disconnected(String),
    UnexpectedReply(Command),
    GenericError(String),
}

/// The mathematical content of a [`CrosisError`].
pub enum ErrorView {
    ConnectionMetadataFetchError,
    ConnectionMetadataParseError(Seq<char>),
    ConnectionError(tokio_tungstenite::tungstenite::Error),
    Disconnected(Seq<char>),
    UnexpectedReply(CommandView),
    GenericError(Seq<char>),
}

impl View for CrosisError {
    type V = ErrorView;

    open spec fn view(&self) -> ErrorView {
        match *self {
            CrosisError::ConnectionMetadataFetchError => ErrorView::ConnectionMetadataFetchError,
            CrosisError::ConnectionMetadataParseError(text) =>
                ErrorView::ConnectionMetadataParseError(text@),
            CrosisError::ConnectionError(error) => ErrorView::ConnectionError(error),
            CrosisError::Disconnected(attempt) => ErrorView::Disconnected(attempt@),
            CrosisError::UnexpectedReply(reply) => ErrorView::UnexpectedReply(reply@),
            CrosisError::GenericError(text) => ErrorView::GenericError(text@),
        }
    }
}

/// The text that is shown for an error. `detail` renders the value that a
/// `ConnectionError` or an `UnexpectedReply` carries; the others ignore it.
pub open spec fn error_text(error: ErrorView, detail: Seq<char>) -> Seq<char> {
    match error {
        ErrorView::ConnectionMetadataFetchError => "Failed to fetch connection metadata"@,
        ErrorView::ConnectionMetadataParseError(text) =>
            "Failed to parse connection metadata: "@ + text,
        ErrorView::ConnectionError(_) => "Failed to connect to websocket: "@ + detail,
        ErrorView::Disconnected(attempt) => "Client isn't connected, cannot "@ + attempt,
        ErrorView::UnexpectedReply(_) => "Client got unexpected reply "@ + detail,
        ErrorView::GenericError(text) => "Client got error message "@ + text,
    }
}

impl CrosisError {
    /// The text that is shown for the error. `detail` renders the value that
    /// a `ConnectionError` or an `UnexpectedReply` carries.
    pub fn text(&self, detail: &str) -> (text: String)
        ensures
            text@ == error_text(self@, detail@),
            match *self {
                CrosisError::ConnectionMetadataFetchError => text@
                    == "Failed to fetch connection metadata"@,
                CrosisError::ConnectionMetadataParseError(cause) => text@
                    == "Failed to parse connection metadata: "@ + cause@,
                CrosisError::ConnectionError(_) => text@ == "Failed to connect to websocket: "@
                    + detail@,
                CrosisError::Disconnected(attempt) => text@ == "Client isn't connected, cannot "@
                    + attempt@,
                CrosisError::UnexpectedReply(_) => text@ == "Client got unexpected reply "@
                    + detail@,
                CrosisError::GenericError(cause) => text@ == "Client got error message "@ + cause@,
            },
    {
        match self {
            CrosisError::ConnectionMetadataFetchError =>
                "Failed to fetch connection metadata".to_string(),
            CrosisError::ConnectionMetadataParseError(text) =>
                "Failed to parse connection metadata: ".to_string().concat(text.as_str()),
            CrosisError::ConnectionError(_) =>
                "Failed to connect to websocket: ".to_string().concat(detail),
            CrosisError::Disconnected(attempt) =>
                "Client isn't connected, cannot ".to_string().concat(attempt.as_str()),
            CrosisError::UnexpectedReply(_) =>
                "Client got unexpected reply ".to_string().concat(detail),
            CrosisError::GenericError(text) =>
                "Client got error message ".to_string().concat(text.as_str()),
        }
    }
}

} // verus!
