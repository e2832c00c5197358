//! What a delivery gives back: a receipt, or the reason it failed.
use vstd::prelude::*;
use crate::text::{concat_str, decimal, u64_to_decimal};

verus! {

/// Why a notification was not delivered.
#[derive(Debug)]
pub enum NotifyError {
    /// The channel configuration is unusable; the text says why.
    InvalidConfig(String),
    /// The HTTP exchange failed; the text is the transport's message.
    Request(String),
    /// The endpoint answered with a status outside 200..=299.
    Http { status: u16, body: String },
    /// The provider's answer says it refused the message.
    Provider(String),
    /// The mail server refused or could not be reached.
    Email(String),
}

pub enum NotifyErrorView {
    InvalidConfig(Seq<char>),
    Request(Seq<char>),
    Http { status: u16, body: Seq<char> },
    Provider(Seq<char>),
    Email(Seq<char>),
}

/// The text of an error, as the original `Display` writes it.
pub open spec fn error_message(e: NotifyErrorView) -> Seq<char> {
    match e {
        NotifyErrorView::InvalidConfig(m) => "invalid channel configuration: "@ + m,
        NotifyErrorView::Request(m) => "notification request failed: "@ + m,
        NotifyErrorView::Http { status, body } => "notification endpoint returned HTTP "@
            + decimal(status as nat) + ": "@ + body,
        NotifyErrorView::Provider(m) => "notification provider rejected the request: "@ + m,
        NotifyErrorView::Email(m) => "email delivery failed: "@ + m,
    }
}

impl NotifyError {
    pub open spec fn view(&self) -> NotifyErrorView {
        match self {
            NotifyError::InvalidConfig(m) => NotifyErrorView::InvalidConfig(m@),
            NotifyError::Request(m) => NotifyErrorView::Request(m@),
            NotifyError::Http { status, body } => NotifyErrorView::Http { status: *status, body: body@ },
            NotifyError::Provider(m) => NotifyErrorView::Provider(m@),
            NotifyError::Email(m) => NotifyErrorView::Email(m@),
        }
    }

    /// The error's text.
    pub fn message(&self) -> (r: String)
        ensures
            r@ == error_message(self.view()),
    {
        match self {
            NotifyError::InvalidConfig(m) => concat_str("invalid channel configuration: ", m.as_str()),
            NotifyError::Request(m) => concat_str("notification request failed: ", m.as_str()),
            NotifyError::Http { status, body } => {
                let code = u64_to_decimal(*status as u64);
                let head = concat_str("notification endpoint returned HTTP ", code.as_str());
                let head = concat_str(head.as_str(), ": ");
                concat_str(head.as_str(), body.as_str())
            },
            NotifyError::Provider(m) => concat_str(
                "notification provider rejected the request: ",
                m.as_str(),
            ),
            NotifyError::Email(m) => concat_str("email delivery failed: ", m.as_str()),
        }
    }
}

/// An `InvalidConfig` error with the given text.
pub fn invalid(value: String) -> (r: NotifyError)
    ensures
        r.view() == NotifyErrorView::InvalidConfig(value@),
{
    NotifyError::InvalidConfig(value)
}

/// A delivered notification: the provider, the HTTP status (250 for mail)
/// and a one-line summary of the answer.
#[derive(Debug, Clone, PartialEq)]
pub struct DeliveryReceipt {
    pub provider: String,
    pub status_code: u16,
    pub response_summary: String,
}

pub struct DeliveryReceiptView {
    pub provider: Seq<char>,
    pub status_code: u16,
    pub response_summary: Seq<char>,
}

impl DeliveryReceipt {
    pub open spec fn view(&self) -> DeliveryReceiptView {
        DeliveryReceiptView {
            provider: self.provider@,
            status_code: self.status_code,
            response_summary: self.response_summary@,
        }
    }
}

/// A notification to deliver. `custom_body`, when given, replaces the body
/// with text that the channel forwards as it is.
#[derive(Debug, Clone)]
pub struct NotificationMessage {
    pub title: String,
    pub body: String,
    pub custom_body: Option<String>,
}

} // verus!
