//! Errors raised while talking to a camera, and their messages.

use vstd::prelude::*;
use vstd::std_specs::convert::FromSpecImpl;

verus! {

/// What a failed SOAP transport reports: either the camera refused the
/// credentials, or some other failure, given by its message text.
#[derive(Debug)]
pub enum TransportFault {
    /// The camera rejected the credentials; the text says why.
    Authorization(String),
    /// Serialization, network or protocol failure; the text is its message.
    Other(String),
}

/// An error of a camera operation.
#[derive(Debug)]
pub enum DeviceError {
    /// Device acted in an unexpected way.
    UnexpectedBehavior(String),
    /// ONVIF transport error (serialization or network), by its message.
    Transport(String),
    /// Credentials were rejected for an operation.
    Unauthorized(String),
    /// Unknown device error.
    Unknown(Option<String>),
}

/// The abstract value of a `DeviceError`: its variant and message text.
pub enum DeviceErrorView {
    UnexpectedBehavior(Seq<char>),
    Transport(Seq<char>),
    Unauthorized(Seq<char>),
    Unknown(Option<Seq<char>>),
}

impl View for DeviceError {
    type V = DeviceErrorView;

    open spec fn view(&self) -> DeviceErrorView {
        match self {
            DeviceError::UnexpectedBehavior(err) => DeviceErrorView::UnexpectedBehavior(err@),
            DeviceError::Transport(err) => DeviceErrorView::Transport(err@),
            DeviceError::Unauthorized(err) => DeviceErrorView::Unauthorized(err@),
            DeviceError::Unknown(err) => DeviceErrorView::Unknown(err.deep_view()),
        }
    }
}

/// The error that a transport fault becomes: a rejected authorization is
/// reported as `Unauthorized`, every other fault as `Transport`.
pub open spec fn from_transport_spec(fault: TransportFault) -> DeviceError {
    match fault {
        TransportFault::Authorization(msg) => DeviceError::Unauthorized(msg),
        TransportFault::Other(msg) => DeviceError::Transport(msg),
    }
}

impl From<TransportFault> for DeviceError {
    fn from(fault: TransportFault) -> (res: DeviceError) {
        match fault {
            TransportFault::Authorization(msg) => DeviceError::Unauthorized(msg),
            TransportFault::Other(msg) => DeviceError::Transport(msg),
        }
    }
}

impl FromSpecImpl<TransportFault> for DeviceError {
    open spec fn obeys_from_spec() -> bool {
        true
    }

    open spec fn from_spec(fault: TransportFault) -> DeviceError {
        from_transport_spec(fault)
    }
}

impl From<String> for DeviceError {
    fn from(err: String) -> (res: DeviceError) {
        DeviceError::Unknown(Some(err))
    }
}

impl FromSpecImpl<String> for DeviceError {
    open spec fn obeys_from_spec() -> bool {
        true
    }

    open spec fn from_spec(err: String) -> DeviceError {
        DeviceError::Unknown(Some(err))
    }
}

impl Default for DeviceError {
    fn default() -> (res: DeviceError)
        ensures
            res == DeviceError::Unknown(None),
    {
        DeviceError::Unknown(None)
    }
}

impl DeviceError {
    /// The human readable message of the error.
    pub open spec fn message_spec(&self) -> Seq<char> {
        match self {
            DeviceError::UnexpectedBehavior(err) => "Unexpected behavior: "@ + err@,
            DeviceError::Transport(err) => "Transport error: "@ + err@,
            DeviceError::Unauthorized(err) => "Unauthorized: "@ + err@,
            DeviceError::Unknown(Some(err)) => "Unknown error: "@ + err@,
            DeviceError::Unknown(None) => "Unknown error"@,
        }
    }

    /// Renders the error as text, as it is shown to the user.
    pub fn message(&self) -> (res: String)
        ensures
            res@ == self.message_spec(),
    {
        match self {
            DeviceError::UnexpectedBehavior(err) => crate::text::joined(
                "Unexpected behavior: ",
                err.as_str(),
            ),
            DeviceError::Transport(err) => crate::text::joined("Transport error: ", err.as_str()),
            DeviceError::Unauthorized(err) => crate::text::joined("Unauthorized: ", err.as_str()),
            DeviceError::Unknown(Some(err)) => crate::text::joined(
                "Unknown error: ",
                err.as_str(),
            ),
            DeviceError::Unknown(None) => String::from_str("Unknown error"),
        }
    }
}

} // verus!
