//! The ways in which an operation of the hub client fails.

use vstd::prelude::*;

verus! {

/// An error of the hub client, by kind.
#[derive(Debug, PartialEq)]
pub enum HubError {
    /// Malformed domain, port or URL parts.
    Config(String),
    /// The transport failed to open.
    Connect(String),
    /// The handshake reply was missing, malformed, or carried an error.
    Handshake(String),
    /// Sending while not connected, or a failed write.
    Send(String),
    /// A frame, an argument or a result could not be read as asked.
    Deserialize(String),
    /// The server ended an invocation with an error.
    Remote { message: String },
    /// A completion was asked for an invocation that carried no id.
    NoInvocationId,
    /// The operation was abandoned because the client was torn down.
    Cancelled,
}

/// The mathematical value of a [`HubError`].
pub enum HubErrorView {
    Config(Seq<char>),
    Connect(Seq<char>),
    Handshake(Seq<char>),
    Send(Seq<char>),
    Deserialize(Seq<char>),
    Remote { message: Seq<char> },
    NoInvocationId,
    Cancelled,
}

impl View for HubError {
    type V = HubErrorView;

    open spec fn view(&self) -> HubErrorView {
        match self {
            HubError::Config(m) => HubErrorView::Config(m@),
            HubError::Connect(m) => HubErrorView::Connect(m@),
            HubError::Handshake(m) => HubErrorView::Handshake(m@),
            HubError::Send(m) => HubErrorView::Send(m@),
            HubError::Deserialize(m) => HubErrorView::Deserialize(m@),
            HubError::Remote { message } => HubErrorView::Remote { message: message@ },
            HubError::NoInvocationId => HubErrorView::NoInvocationId,
            HubError::Cancelled => HubErrorView::Cancelled,
        }
    }
}

impl HubErrorView {
    /// The words that describe the error.
    pub open spec fn message(self) -> Seq<char> {
        match self {
            HubErrorView::Config(m) => m,
            HubErrorView::Connect(m) => m,
            HubErrorView::Handshake(m) => m,
            HubErrorView::Send(m) => m,
            HubErrorView::Deserialize(m) => m,
            HubErrorView::Remote { message } => message,
            HubErrorView::NoInvocationId =>
                "The completion cannot be sent, because there was no invocation id for the call"@,
            HubErrorView::Cancelled => "The operation was cancelled"@,
        }
    }
}

impl HubError {
    /// The words that describe the error.
    pub fn message(&self) -> (message: String)
        ensures
            message@ == self@.message(),
    {
        match self {
            HubError::Config(m) => m.clone(),
            HubError::Connect(m) => m.clone(),
            HubError::Handshake(m) => m.clone(),
            HubError::Send(m) => m.clone(),
            HubError::Deserialize(m) => m.clone(),
            HubError::Remote { message } => message.clone(),
            HubError::NoInvocationId => "The completion cannot be sent, because there was no invocation id for the call".to_owned(),
            HubError::Cancelled => "The operation was cancelled".to_owned(),
        }
    }
}

} // verus!
