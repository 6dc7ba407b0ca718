//! What can go wrong with a vault.

use vstd::prelude::*;
use vstd::string::StringExecFns;

verus! {

/// Why a vault operation failed.
#[derive(Debug)]
pub enum VaultError {
    /// The text names no known encryption format; it is kept as given.
    UnknownFormat(String),
    /// The text is not three fields behind the envelope tag.
    MalformedEnvelope,
    /// The payload field is not base64.
    Base64DecodeError,
    /// The transform that was handed in failed, with its own account of why.
    TransformFailure(String),
}

/// A [`VaultError`] with its texts as sequences of characters.
pub enum VaultErrorView {
    UnknownFormat(Seq<char>),
    MalformedEnvelope,
    Base64DecodeError,
    TransformFailure(Seq<char>),
}

impl View for VaultError {
    type V = VaultErrorView;

    open spec fn view(&self) -> VaultErrorView {
        match self {
            VaultError::UnknownFormat(name) => VaultErrorView::UnknownFormat(name@),
            VaultError::MalformedEnvelope => VaultErrorView::MalformedEnvelope,
            VaultError::Base64DecodeError => VaultErrorView::Base64DecodeError,
            VaultError::TransformFailure(reason) => VaultErrorView::TransformFailure(reason@),
        }
    }
}

/// The sentence that reports an error to a person.
pub open spec fn error_message(error: VaultErrorView) -> Seq<char> {
    match error {
        VaultErrorView::UnknownFormat(name) => "Unknown encryption format given: "@ + name,
        VaultErrorView::MalformedEnvelope => "Could not parse string into Culper vault."@,
        VaultErrorView::Base64DecodeError => "Failed to decode base64 payload"@,
        VaultErrorView::TransformFailure(reason) => reason,
    }
}

impl VaultError {
    /// The sentence that reports this error to a person.
    pub fn message(&self) -> (text: String)
        ensures
            text@ == error_message(self@),
    {
        match self {
            VaultError::UnknownFormat(name) => {
                let mut text = "Unknown encryption format given: ".to_owned();
                text.append(name.as_str());
                text
            },
            VaultError::MalformedEnvelope => "Could not parse string into Culper vault.".to_owned(),
            VaultError::Base64DecodeError => "Failed to decode base64 payload".to_owned(),
            VaultError::TransformFailure(reason) => reason.clone(),
        }
    }
}

} // verus!
