//! The lines that the listener and its handlers log.

use vstd::prelude::*;
use vstd::string::StringExecFns;
use crate::decode::{DecodeError, DecodeErrorView};
use crate::record::Field;

verus! {

/// The host that the listener binds.
pub const SERVER_ADDRESS: &'static str = "localhost";

/// The port that the listener binds.
pub const SERVER_PORT: &'static str = "27745";

/// The address that the listener binds: host, a colon, port.
pub open spec fn listen_address() -> Seq<char> {
    SERVER_ADDRESS@ + ":"@ + SERVER_PORT@
}

/// The address that the listener binds: host, a colon, port.
pub fn server_address() -> (address: String)
    ensures
        address@ == listen_address(),
{
    String::from_str(SERVER_ADDRESS).concat(":").concat(SERVER_PORT)
}

impl DecodeErrorView {
    /// The cause, in words.
    pub open spec fn text(self) -> Seq<char> {
        match self {
            DecodeErrorView::Malformed(message) => message,
            DecodeErrorView::NotAnObject => "expected a JSON object"@,
            DecodeErrorView::InvalidField(field) => "invalid field `"@ + field.canonical_name()
                + "`: expected a string"@,
            DecodeErrorView::MissingField(field) => "missing field `"@ + field.canonical_name()
                + "`"@,
        }
    }
}

impl DecodeError {
    /// The cause, in words: the parser's message, or what is wrong with the
    /// document.
    pub fn describe(&self) -> (text: String)
        ensures
            text@ == self@.text(),
    {
        match self {
            DecodeError::Malformed(message) => message.clone(),
            DecodeError::NotAnObject => String::from_str("expected a JSON object"),
            DecodeError::InvalidField(field) => String::from_str("invalid field `").concat(
                field.canonical(),
            ).concat("`: expected a string"),
            DecodeError::MissingField(field) => String::from_str("missing field `").concat(
                field.canonical(),
            ).concat("`"),
        }
    }
}

/// One line of the log. The failures carry their cause as text.
#[derive(Clone, Debug, PartialEq, Eq)]
pub enum LogLine {
    /// The listener is bound and accepts connections.
    ServerStarted,
    /// The listener could not bind its address.
    BindFailed(String),
    /// An incoming connection could not be accepted.
    AcceptFailed(String),
    /// The peer's address could not be told.
    PeerUnresolved(String),
    /// The upgrade of the stream failed.
    UpgradeFailed(String),
    /// The upgrade succeeded; the line carries the peer's address.
    PeerConnected(String),
    /// A read failed, otherwise than by the peer's clean close.
    ReadFailed(String),
    /// A frame gave no record.
    DecodeFailed(DecodeError),
    /// The timestamp of a decoded record.
    CurrentTime(String),
    /// The playlist of a decoded record.
    PlaylistContents(String),
}

/// A log line, as plain text.
pub enum LogLineView {
    ServerStarted,
    BindFailed(Seq<char>),
    AcceptFailed(Seq<char>),
    PeerUnresolved(Seq<char>),
    UpgradeFailed(Seq<char>),
    PeerConnected(Seq<char>),
    ReadFailed(Seq<char>),
    DecodeFailed(DecodeErrorView),
    CurrentTime(Seq<char>),
    PlaylistContents(Seq<char>),
}

impl View for LogLine {
    type V = LogLineView;

    open spec fn view(&self) -> LogLineView {
        match self {
            LogLine::ServerStarted => LogLineView::ServerStarted,
            LogLine::BindFailed(cause) => LogLineView::BindFailed(cause@),
            LogLine::AcceptFailed(cause) => LogLineView::AcceptFailed(cause@),
            LogLine::PeerUnresolved(cause) => LogLineView::PeerUnresolved(cause@),
            LogLine::UpgradeFailed(cause) => LogLineView::UpgradeFailed(cause@),
            LogLine::PeerConnected(peer) => LogLineView::PeerConnected(peer@),
            LogLine::ReadFailed(cause) => LogLineView::ReadFailed(cause@),
            LogLine::DecodeFailed(error) => LogLineView::DecodeFailed(error@),
            LogLine::CurrentTime(value) => LogLineView::CurrentTime(value@),
            LogLine::PlaylistContents(value) => LogLineView::PlaylistContents(value@),
        }
    }
}

/// The views of a vector of log lines, in order.
pub open spec fn log_views(log: Seq<LogLine>) -> Seq<LogLineView> {
    log.map_values(|line: LogLine| line@)
}

impl LogLineView {
    /// Whether the line reports a failure.
    pub open spec fn is_failure(self) -> bool {
        match self {
            LogLineView::ServerStarted => false,
            LogLineView::PeerConnected(_) => false,
            LogLineView::CurrentTime(_) => false,
            LogLineView::PlaylistContents(_) => false,
            _ => true,
        }
    }

    /// The line as it is printed.
    pub open spec fn text(self) -> Seq<char> {
        match self {
            LogLineView::ServerStarted => "Server started at: "@ + listen_address(),
            LogLineView::BindFailed(cause) => "Unable to bind to the '"@ + SERVER_ADDRESS@
                + "' address and port '"@ + SERVER_PORT@ + "': "@ + cause,
            LogLineView::AcceptFailed(cause) => "Unable to handle the incoming TCP stream: "@
                + cause,
            LogLineView::PeerUnresolved(cause) => "Unable to retrieve the peer address: "@ + cause,
            LogLineView::UpgradeFailed(cause) => "Unable to accept connection: "@ + cause,
            LogLineView::PeerConnected(peer) => "Connected peer: "@ + peer,
            LogLineView::ReadFailed(cause) => "Error when receiving the message: "@ + cause,
            LogLineView::DecodeFailed(error) => "Unable to parse incoming message: "@
                + error.text(),
            LogLineView::CurrentTime(value) => "Current time: "@ + value,
            LogLineView::PlaylistContents(value) => "Playlist contents: "@ + value,
        }
    }
}

impl LogLine {
    /// Whether the line reports a failure.
    pub fn is_failure(&self) -> (failure: bool)
        ensures
            failure == self@.is_failure(),
    {
        match self {
            LogLine::ServerStarted => false,
            LogLine::PeerConnected(_) => false,
            LogLine::CurrentTime(_) => false,
            LogLine::PlaylistContents(_) => false,
            _ => true,
        }
    }

    /// The line as it is printed: what happened, then the cause or the value.
    pub fn render(&self) -> (text: String)
        ensures
            text@ == self@.text(),
    {
        match self {
            LogLine::ServerStarted => {
                let address = server_address();
                String::from_str("Server started at: ").concat(address.as_str())
            },
            LogLine::BindFailed(cause) => String::from_str("Unable to bind to the '").concat(
                SERVER_ADDRESS,
            ).concat("' address and port '").concat(SERVER_PORT).concat("': ").concat(
                cause.as_str(),
            ),
            LogLine::AcceptFailed(cause) => String::from_str(
                "Unable to handle the incoming TCP stream: ",
            ).concat(cause.as_str()),
            LogLine::PeerUnresolved(cause) => String::from_str(
                "Unable to retrieve the peer address: ",
            ).concat(cause.as_str()),
            LogLine::UpgradeFailed(cause) => String::from_str(
                "Unable to accept connection: ",
            ).concat(cause.as_str()),
            LogLine::PeerConnected(peer) => String::from_str("Connected peer: ").concat(
                peer.as_str(),
            ),
            LogLine::ReadFailed(cause) => String::from_str(
                "Error when receiving the message: ",
            ).concat(cause.as_str()),
            LogLine::DecodeFailed(error) => {
                let cause = error.describe();
                String::from_str("Unable to parse incoming message: ").concat(cause.as_str())
            },
            LogLine::CurrentTime(value) => String::from_str("Current time: ").concat(
                value.as_str(),
            ),
            LogLine::PlaylistContents(value) => String::from_str("Playlist contents: ").concat(
                value.as_str(),
            ),
        }
    }
}

} // verus!
