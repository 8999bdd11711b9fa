//! The failures that the sink tells apart.

use vstd::prelude::*;
use azure_core::error::{Error, ErrorKind};
use vstd::string::StringExecFns;
use crate::status::{status_line, StatusCode};

verus! {

/// `azure_core::error::Error`: what a call to the store fails with.
#[verifier::external_type_specification]
#[verifier::external_body]
pub struct ExTransportError(azure_core::error::Error);

/// The HTTP status that a failure of the storage client reports: the status in
/// its kind where the kind is `ErrorKind::HttpResponse`, none for every other
/// kind.
pub uninterp spec fn reported_status(error: Error) -> Option<u16>;

/// The text that a failure of the storage client shows through `Display`.
pub uninterp spec fn reported_text(error: Error) -> Seq<char>;

/// `Error::kind`, read for the HTTP status in it: the status of
/// `ErrorKind::HttpResponse`, and nothing for the kinds that carry none.
#[verifier::external_body]
fn response_status(error: &Error) -> (status: Option<u16>)
    ensures
        status == reported_status(*error),
{
    match error.kind() {
        ErrorKind::HttpResponse { status, .. } => Some(*status),
        ErrorKind::Io => None,
        ErrorKind::DataConversion => None,
        ErrorKind::Credential => None,
        ErrorKind::Other => None,
    }
}

/// `azure_core::error::Error`'s `Display`, through `to_string`: the text of the
/// failure.
#[verifier::external_body]
fn error_text(error: &Error) -> (text: String)
    ensures
        text@ == reported_text(*error),
{
    error.to_string()
}

/// What `str`'s `Debug` writes for a text: the text between double quotes, with
/// the characters escaped that cannot stand there as they are.
pub uninterp spec fn quoted(text: Seq<char>) -> Seq<char>;

/// `str`'s `Debug`, through `format!`.
#[verifier::external_body]
fn quote(text: &str) -> (written: String)
    ensures
        written@ == quoted(text@),
{
    format!("{:?}", text)
}

/// A failed call to the store, sorted once, where the transport hands it over.
#[derive(Debug)]
pub enum ClassifiedError {
    /// The store answered, with this status.
    Transport(u16),
    /// No status came back, only a description of what went wrong.
    Other(String),
}

/// A classified failure as contracts speak of it.
pub enum ClassifiedErrorView {
    Transport(u16),
    Other(Seq<char>),
}

impl View for ClassifiedError {
    type V = ClassifiedErrorView;

    open spec fn view(&self) -> ClassifiedErrorView {
        match *self {
            ClassifiedError::Transport(status) => ClassifiedErrorView::Transport(status),
            ClassifiedError::Other(text) => ClassifiedErrorView::Other(text@),
        }
    }
}

impl Clone for ClassifiedError {
    /// The same class, with the same status or text.
    fn clone(&self) -> (copy: ClassifiedError)
        ensures
            copy@ == self@,
    {
        match self {
            ClassifiedError::Transport(status) => ClassifiedError::Transport(*status),
            ClassifiedError::Other(text) => ClassifiedError::Other(text.clone()),
        }
    }
}

/// The class of a failure of which the transport reported the given status, if
/// any, and the given text: the status decides wherever there is one.
pub open spec fn classified(status: Option<u16>, text: Seq<char>) -> ClassifiedErrorView {
    match status {
        Some(code) => ClassifiedErrorView::Transport(code),
        None => ClassifiedErrorView::Other(text),
    }
}

impl ClassifiedError {
    /// Sorts a failure by what the transport reported of it.
    pub fn new(status: Option<u16>, text: String) -> (error: ClassifiedError)
        ensures
            error@ == classified(status, text@),
    {
        match status {
            Some(code) => ClassifiedError::Transport(code),
            None => ClassifiedError::Other(text),
        }
    }

    /// Sorts a failure of the storage client by the status that it reports:
    /// a transport failure with that status where it reports one, a failure
    /// with the client's text where it reports none.
    pub fn classify(error: &Error) -> (sorted: ClassifiedError)
        ensures
            sorted@ == classified(reported_status(*error), reported_text(*error)),
    {
        let status = response_status(error);
        let text = error_text(error);
        ClassifiedError::new(status, text)
    }
}

/// Why no container handle could be made from the configuration.
#[derive(Clone, Copy, Debug, PartialEq, Eq, Structural)]
pub enum ConfigurationError {
    /// Neither a connection string nor a storage account was given.
    MissingCredentials,
    /// A connection string and a storage account were both given.
    ConflictingCredentials,
}

impl ConfigurationError {
    /// The message for the operator.
    pub fn message(&self) -> (text: &'static str)
        ensures
            *self == ConfigurationError::MissingCredentials ==> text@
                == "Either `connection_string` or `storage_account` has to be provided"@,
            *self == ConfigurationError::ConflictingCredentials ==> text@
                == "`connection_string` and `storage_account` can't be provided at the same time"@,
    {
        match self {
            ConfigurationError::MissingCredentials => {
                "Either `connection_string` or `storage_account` has to be provided"
            },
            ConfigurationError::ConflictingCredentials => {
                "`connection_string` and `storage_account` can't be provided at the same time"
            },
        }
    }
}

/// What the startup probe found wrong with the container.
#[derive(Debug)]
pub enum HealthcheckError {
    /// The store refuses the credentials.
    InvalidCredentials,
    /// The store knows no container of this name.
    UnknownContainer { container: String },
    /// The store answered with a status that the probe has no name for.
    Unknown { status: StatusCode },
}

/// A probe finding as contracts speak of it.
pub enum HealthcheckErrorView {
    InvalidCredentials,
    UnknownContainer { container: Seq<char> },
    Unknown { status: int },
}

impl View for HealthcheckError {
    type V = HealthcheckErrorView;

    open spec fn view(&self) -> HealthcheckErrorView {
        match *self {
            HealthcheckError::InvalidCredentials => HealthcheckErrorView::InvalidCredentials,
            HealthcheckError::UnknownContainer { container } => HealthcheckErrorView::UnknownContainer {
                container: container@,
            },
            HealthcheckError::Unknown { status } => HealthcheckErrorView::Unknown { status: status@ },
        }
    }
}

/// The message about a container that is not there, around its quoted name.
pub open spec fn not_found_message(quoted_name: Seq<char>) -> Seq<char> {
    "Container: "@ + quoted_name + " not found"@
}

/// The message about a status that nobody expected, before its status line.
pub open spec fn unknown_status_message(line: Seq<char>) -> Seq<char> {
    "Unknown status code: "@ + line
}

/// The message that tells the operator what the probe found: bad credentials,
/// a container that is not there, or a status that nobody expected.
pub open spec fn finding_message(finding: HealthcheckErrorView) -> Seq<char> {
    match finding {
        HealthcheckErrorView::InvalidCredentials => "Invalid connection string specified"@,
        HealthcheckErrorView::UnknownContainer { container } => not_found_message(quoted(container)),
        HealthcheckErrorView::Unknown { status } => unknown_status_message(status_line(status)),
    }
}

impl HealthcheckError {
    /// Writes the message about a container that is not there around the
    /// name, which comes quoted.
    pub fn not_found(quoted_name: &str) -> (text: String)
        ensures
            text@ == not_found_message(quoted_name@),
    {
        let mut text = "Container: ".to_string();
        text.append(quoted_name);
        text.append(" not found");
        text
    }

    /// Writes the message about a status that nobody expected before the
    /// status line.
    pub fn unknown_status(line: &str) -> (text: String)
        ensures
            text@ == unknown_status_message(line@),
    {
        let mut text = "Unknown status code: ".to_string();
        text.append(line);
        text
    }

    /// The message for the operator.
    pub fn message(&self) -> (text: String)
        ensures
            text@ == finding_message(self@),
    {
        match self {
            HealthcheckError::InvalidCredentials => "Invalid connection string specified".to_string(),
            HealthcheckError::UnknownContainer { container } => {
                let name = quote(container.as_str());
                HealthcheckError::not_found(name.as_str())
            },
            HealthcheckError::Unknown { status } => {
                let line = status.describe();
                HealthcheckError::unknown_status(line.as_str())
            },
        }
    }
}

/// Why the startup probe did not pass.
#[derive(Debug)]
pub enum HealthcheckFailure {
    /// The store answered, and the answer names the trouble.
    Diagnosed(HealthcheckError),
    /// Anything else: the failure itself, as the transport handed it over.
    Other(ClassifiedError),
}

/// A probe failure as contracts speak of it.
pub enum HealthcheckFailureView {
    Diagnosed(HealthcheckErrorView),
    Other(ClassifiedErrorView),
}

impl View for HealthcheckFailure {
    type V = HealthcheckFailureView;

    open spec fn view(&self) -> HealthcheckFailureView {
        match *self {
            HealthcheckFailure::Diagnosed(finding) => HealthcheckFailureView::Diagnosed(finding@),
            HealthcheckFailure::Other(error) => HealthcheckFailureView::Other(error@),
        }
    }
}

} // verus!
