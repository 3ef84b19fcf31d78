//! The ways a query can fail.

use crate::kind::ResourceKind;
use vstd::prelude::*;
use vstd::string::StringExecFns;

verus! {

/// Why the host's answer could not be decoded.
#[derive(Debug)]
pub enum DecodeFailure {
    /// The answer is not UTF-8 text.
    InvalidUtf8,
    /// The text is not a list of the expected kind; the decoder's message is
    /// kept.
    Malformed(String),
}

/// The failure of a query. Nothing is retried and nothing is turned into an
/// empty result: the first failure is what the caller gets.
#[derive(Debug)]
pub enum AccessError {
    /// The call across the sandbox boundary failed; `reason` is what the host
    /// reported.
    Bridge { kind: ResourceKind, reason: String },
    /// The call succeeded, but its answer could not be decoded.
    Decode { kind: ResourceKind, failure: DecodeFailure },
}

/// The mathematical value of a [`DecodeFailure`].
pub enum DecodeFailureView {
    InvalidUtf8,
    Malformed(Seq<char>),
}

/// The mathematical value of an [`AccessError`].
pub enum AccessErrorView {
    Bridge { kind: ResourceKind, reason: Seq<char> },
    Decode { kind: ResourceKind, failure: DecodeFailureView },
}

impl View for DecodeFailure {
    type V = DecodeFailureView;

    open spec fn view(&self) -> DecodeFailureView {
        match self {
            DecodeFailure::InvalidUtf8 => DecodeFailureView::InvalidUtf8,
            DecodeFailure::Malformed(message) => DecodeFailureView::Malformed(message@),
        }
    }
}

impl View for AccessError {
    type V = AccessErrorView;

    open spec fn view(&self) -> AccessErrorView {
        match self {
            AccessError::Bridge { kind, reason } => AccessErrorView::Bridge {
                kind: *kind,
                reason: reason@,
            },
            AccessError::Decode { kind, failure } => AccessErrorView::Decode {
                kind: *kind,
                failure: failure@,
            },
        }
    }
}

impl DecodeFailureView {
    /// What the failure reads like in a message.
    pub open spec fn text(self) -> Seq<char> {
        match self {
            DecodeFailureView::InvalidUtf8 => "the response is not valid UTF-8"@,
            DecodeFailureView::Malformed(message) => message,
        }
    }
}

impl AccessErrorView {
    /// The kind of resource the failed query was about.
    pub open spec fn kind(self) -> ResourceKind {
        match self {
            AccessErrorView::Bridge { kind, .. } => kind,
            AccessErrorView::Decode { kind, .. } => kind,
        }
    }

    /// The message of the error: the underlying message, with the resource
    /// kind in front of it.
    pub open spec fn message(self) -> Seq<char> {
        match self {
            AccessErrorView::Bridge { kind, reason } => "failed to call "@ + kind.token()
                + " binding: "@ + reason,
            AccessErrorView::Decode { kind, failure } => "failed to unmarshal "@ + kind.noun()
                + " list: "@ + failure.text(),
        }
    }
}

impl AccessError {
    /// The kind of resource the failed query was about.
    pub fn kind(&self) -> (kind: ResourceKind)
        ensures
            kind == self@.kind(),
    {
        match self {
            AccessError::Bridge { kind, .. } => *kind,
            AccessError::Decode { kind, .. } => *kind,
        }
    }

    /// The message of the error.
    pub fn message(&self) -> (text: String)
        ensures
            text@ == self@.message(),
    {
        match self {
            AccessError::Bridge { kind, reason } => {
                let mut text = String::from_str("failed to call ");
                text.append(kind.plural());
                text.append(" binding: ");
                text.append(reason.as_str());
                text
            },
            AccessError::Decode { kind, failure } => {
                let mut text = String::from_str("failed to unmarshal ");
                text.append(kind.singular());
                text.append(" list: ");
                match failure {
                    DecodeFailure::InvalidUtf8 => text.append("the response is not valid UTF-8"),
                    DecodeFailure::Malformed(message) => text.append(message.as_str()),
                }
                text
            },
        }
    }
}

} // verus!
