use vstd::prelude::*;

verus! {

/// The ways in which an operation can fail.
#[derive(Clone, Copy, Debug, PartialEq, Eq, Structural)]
pub enum ErrorKind {
    /// The session's connection to the system bus could not be set up.
    Connection,
    /// A remote call came back with an error of the bus.
    RemoteCall,
    /// The unit's name does not form an object path.
    PathEncoding,
    /// The call that starts the unit failed.
    StartFailed,
    /// The wait was over, and a closing read of the unit's status failed.
    FinalizeFailed,
}

/// The one error with which an operation ends: its kind, and the text that
/// the caller is shown.
#[derive(Debug, PartialEq, Eq)]
pub struct ControllerError {
    pub kind: ErrorKind,
    pub message: String,
}

/// A `ControllerError` as a mathematical value.
pub struct ControllerErrorView {
    pub kind: ErrorKind,
    pub message: Seq<char>,
}

impl View for ControllerError {
    type V = ControllerErrorView;

    open spec fn view(&self) -> ControllerErrorView {
        ControllerErrorView { kind: self.kind, message: self.message@ }
    }
}

/// Text of a failed connection, around what the transport said.
pub open spec fn connection_text(detail: Seq<char>) -> Seq<char> {
    "Failed to connect to D-Bus system socket: "@ + detail
}

/// Text for a service name that gives no object path.
pub open spec fn path_encoding_text(name: Seq<char>) -> Seq<char> {
    "Cannot convert unit name `"@ + name + "` to service path"@
}

/// Text for a failed start call.
pub open spec fn start_text(path: Seq<char>) -> Seq<char> {
    "Failed to start unit "@ + path
}

/// Text for a service proxy that could not be built.
pub open spec fn service_proxy_text(path: Seq<char>) -> Seq<char> {
    "Cannot build service proxy for "@ + path
}

/// Text for a failed read of the main process's status.
pub open spec fn status_text(path: Seq<char>) -> Seq<char> {
    "Failed to get main process status for "@ + path
}

/// Text for a failed read of the sub state.
pub open spec fn sub_state_text(path: Seq<char>) -> Seq<char> {
    "Failed to get unit sub state for "@ + path
}

/// The error of a connection that could not be set up.
pub open spec fn connection_error(detail: Seq<char>) -> ControllerErrorView {
    ControllerErrorView { kind: ErrorKind::Connection, message: connection_text(detail) }
}

/// The error of a remote call, with the bus's own text.
pub open spec fn remote_error(text: Seq<char>) -> ControllerErrorView {
    ControllerErrorView { kind: ErrorKind::RemoteCall, message: text }
}

/// The error of a service name that gives no object path.
pub open spec fn path_encoding_error(name: Seq<char>) -> ControllerErrorView {
    ControllerErrorView { kind: ErrorKind::PathEncoding, message: path_encoding_text(name) }
}

impl ControllerError {
    /// An error of the given kind whose text is `prefix` followed by
    /// `subject`.
    pub(crate) fn about(kind: ErrorKind, prefix: &str, subject: &str) -> (error: Self)
        ensures
            error@ == (ControllerErrorView { kind, message: prefix@ + subject@ }),
    {
        let mut message = String::from_str(prefix);
        message.append(subject);
        ControllerError { kind, message }
    }

    /// The error of a connection that could not be set up.
    pub(crate) fn connection(detail: &str) -> (error: Self)
        ensures
            error@ == connection_error(detail@),
    {
        Self::about(ErrorKind::Connection, "Failed to connect to D-Bus system socket: ", detail)
    }

    /// The error of a remote call, which carries the bus's text unchanged.
    pub(crate) fn remote(text: String) -> (error: Self)
        ensures
            error@ == remote_error(text@),
    {
        ControllerError { kind: ErrorKind::RemoteCall, message: text }
    }

    /// The error of a service name that gives no object path.
    pub(crate) fn path_encoding(name: &str) -> (error: Self)
        ensures
            error@ == path_encoding_error(name@),
    {
        let mut message = String::from_str("Cannot convert unit name `");
        message.append(name);
        message.append("` to service path");
        ControllerError { kind: ErrorKind::PathEncoding, message }
    }
}

} // verus!
