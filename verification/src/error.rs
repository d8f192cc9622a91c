//! What can go wrong with a call, and which call it was.

use crate::text::{decimal, push_decimal};
use vstd::prelude::*;
use vstd::string::*;

verus! {

/// The operations of the key/value namespace and of the session manager.
#[derive(Clone, Copy, Debug, PartialEq, Eq, Structural)]
pub enum Operation {
    KvGet,
    KvList,
    KvPut,
    KvDelete,
    KvAcquire,
    KvRelease,
    SessionCreate,
    SessionDestroy,
    SessionRenew,
    SessionInfo,
    SessionList,
    SessionListForNode,
}

/// Why an answer could not be decoded.
#[derive(Clone, Copy, Debug, PartialEq, Eq, Structural)]
pub enum Fault {
    /// The status was none that the operation knows how to read.
    UnexpectedStatus(u16),
    /// The answer does not carry the store's index, or what it carries
    /// there is no number.
    MissingIndex,
    /// The body is not of the shape that the operation answers with.
    MalformedBody,
}

/// A failed call. Every variant that stems from a call names the operation
/// and the key, prefix, node or session id that it was about.
///
/// That the store declined (a lock that is held, a session that has
/// expired) is no error: such calls succeed with `false` or with nothing.
/// Nor is a blocking read that returned unchanged.
#[derive(Debug, PartialEq, Eq)]
pub enum Error {
    /// The transport failed: the network, a timeout. Safe to try again.
    HttpError { operation: Operation, subject: String, detail: String },
    /// The answer arrived and could not be decoded. Not tried again.
    Decode { operation: Operation, subject: String, fault: Fault },
    /// A lock was asked for or given back without naming a session. The
    /// caller has to mend the call.
    MissingSession { operation: Operation, subject: String },
    /// A session was to be created with a behavior that is neither
    /// `release` nor `delete`.
    InvalidBehavior { operation: Operation, subject: String },
    /// A variable that the configuration is read from is not set.
    MissingEnvVar(String),
}

impl Clone for Error {
    fn clone(&self) -> (copy: Self)
        ensures
            copy == *self,
    {
        match self {
            Error::HttpError { operation, subject, detail } => Error::HttpError {
                operation: *operation,
                subject: subject.clone(),
                detail: detail.clone(),
            },
            Error::Decode { operation, subject, fault } => Error::Decode {
                operation: *operation,
                subject: subject.clone(),
                fault: *fault,
            },
            Error::MissingSession { operation, subject } => Error::MissingSession {
                operation: *operation,
                subject: subject.clone(),
            },
            Error::InvalidBehavior { operation, subject } => Error::InvalidBehavior {
                operation: *operation,
                subject: subject.clone(),
            },
            Error::MissingEnvVar(name) => Error::MissingEnvVar(name.clone()),
        }
    }
}

impl Operation {
    /// The operation's name in messages.
    pub open spec fn spec_name(self) -> Seq<char> {
        match self {
            Operation::KvGet => "kv get"@,
            Operation::KvList => "kv list"@,
            Operation::KvPut => "kv put"@,
            Operation::KvDelete => "kv delete"@,
            Operation::KvAcquire => "kv acquire"@,
            Operation::KvRelease => "kv release"@,
            Operation::SessionCreate => "session create"@,
            Operation::SessionDestroy => "session destroy"@,
            Operation::SessionRenew => "session renew"@,
            Operation::SessionInfo => "session info"@,
            Operation::SessionList => "session list"@,
            Operation::SessionListForNode => "session list for node"@,
        }
    }

    /// The operation's name in messages.
    pub fn name(&self) -> (name: &'static str)
        ensures
            name@ == self.spec_name(),
    {
        match self {
            Operation::KvGet => "kv get",
            Operation::KvList => "kv list",
            Operation::KvPut => "kv put",
            Operation::KvDelete => "kv delete",
            Operation::KvAcquire => "kv acquire",
            Operation::KvRelease => "kv release",
            Operation::SessionCreate => "session create",
            Operation::SessionDestroy => "session destroy",
            Operation::SessionRenew => "session renew",
            Operation::SessionInfo => "session info",
            Operation::SessionList => "session list",
            Operation::SessionListForNode => "session list for node",
        }
    }
}

impl Fault {
    /// What the fault is, in words.
    pub open spec fn spec_describe(self) -> Seq<char> {
        match self {
            Fault::UnexpectedStatus(status) => "unexpected status "@ + decimal(status as nat),
            Fault::MissingIndex => "the answer carries no index"@,
            Fault::MalformedBody => "the body is malformed"@,
        }
    }

    /// What the fault is, in words.
    pub fn describe(&self) -> (text: String)
        ensures
            text@ == self.spec_describe(),
    {
        match self {
            Fault::UnexpectedStatus(status) => {
                let mut text = String::from_str("unexpected status ");
                push_decimal(&mut text, *status as u64);
                text
            },
            Fault::MissingIndex => String::from_str("the answer carries no index"),
            Fault::MalformedBody => String::from_str("the body is malformed"),
        }
    }
}

impl Error {
    /// The operation that failed, where the error stems from a call.
    pub open spec fn spec_operation(self) -> Option<Operation> {
        match self {
            Error::HttpError { operation, .. } => Some(operation),
            Error::Decode { operation, .. } => Some(operation),
            Error::MissingSession { operation, .. } => Some(operation),
            Error::InvalidBehavior { operation, .. } => Some(operation),
            Error::MissingEnvVar(_) => None,
        }
    }

    /// The key, prefix, node or session id that the failed call was about.
    pub open spec fn spec_subject(self) -> Option<Seq<char>> {
        match self {
            Error::HttpError { subject, .. } => Some(subject@),
            Error::Decode { subject, .. } => Some(subject@),
            Error::MissingSession { subject, .. } => Some(subject@),
            Error::InvalidBehavior { subject, .. } => Some(subject@),
            Error::MissingEnvVar(_) => None,
        }
    }

    /// What went wrong, without the call that it went wrong with.
    pub open spec fn spec_cause(self) -> Seq<char> {
        match self {
            Error::HttpError { detail, .. } => "An error occured in the HTTP client: "@ + detail@,
            Error::Decode { fault, .. } => fault.spec_describe(),
            Error::MissingSession { .. } => "no session id was given"@,
            Error::InvalidBehavior { .. } => "the behavior is neither release nor delete"@,
            Error::MissingEnvVar(name) => "Missing environment variable: "@ + name@,
        }
    }

    /// The message: the operation and what it was about, where there is one,
    /// then the cause.
    pub open spec fn spec_message(self) -> Seq<char> {
        match self.spec_operation() {
            Some(operation) => operation.spec_name() + " "@ + self.spec_subject()->0 + ": "@
                + self.spec_cause(),
            None => self.spec_cause(),
        }
    }

    /// The operation that failed, where the error stems from a call.
    pub fn operation(&self) -> (operation: Option<Operation>)
        ensures
            operation == self.spec_operation(),
    {
        match self {
            Error::HttpError { operation, .. } => Some(*operation),
            Error::Decode { operation, .. } => Some(*operation),
            Error::MissingSession { operation, .. } => Some(*operation),
            Error::InvalidBehavior { operation, .. } => Some(*operation),
            Error::MissingEnvVar(_) => None,
        }
    }

    /// The key, prefix, node or session id that the failed call was about.
    pub fn subject(&self) -> (subject: Option<String>)
        ensures
            subject is Some == self.spec_subject() is Some,
            subject matches Some(text) ==> text@ == self.spec_subject()->0,
    {
        match self {
            Error::HttpError { subject, .. } => Some(subject.clone()),
            Error::Decode { subject, .. } => Some(subject.clone()),
            Error::MissingSession { subject, .. } => Some(subject.clone()),
            Error::InvalidBehavior { subject, .. } => Some(subject.clone()),
            Error::MissingEnvVar(_) => None,
        }
    }

    /// Whether trying the same call again may help: only where the transport
    /// failed.
    pub fn is_retryable(&self) -> (r: bool)
        ensures
            r == (*self is HttpError),
    {
        match self {
            Error::HttpError { .. } => true,
            _ => false,
        }
    }

    fn cause(&self) -> (text: String)
        ensures
            text@ == self.spec_cause(),
    {
        match self {
            Error::HttpError { detail, .. } => {
                String::from_str("An error occured in the HTTP client: ").concat(detail.as_str())
            },
            Error::Decode { fault, .. } => fault.describe(),
            Error::MissingSession { .. } => String::from_str("no session id was given"),
            Error::InvalidBehavior { .. } => String::from_str(
                "the behavior is neither release nor delete",
            ),
            Error::MissingEnvVar(name) => {
                String::from_str("Missing environment variable: ").concat(name.as_str())
            },
        }
    }

    /// The error as a line of text.
    pub fn message(&self) -> (text: String)
        ensures
            text@ == self.spec_message(),
    {
        let cause = self.cause();
        match (self.operation(), self.subject()) {
            (Some(operation), Some(subject)) => {
                let mut text = String::from_str(operation.name());
                text.append(" ");
                text.append(subject.as_str());
                text.append(": ");
                text.append(cause.as_str());
                text
            },
            _ => cause,
        }
    }
}

} // verus!
