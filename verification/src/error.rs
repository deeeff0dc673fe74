//! The ways a dispatched operation can fail.

use crate::field::Field;
use crate::text::join2;
use vstd::prelude::*;
use vstd::string::*;

verus! {

/// The class of a failure, for callers that branch on it.
#[derive(Clone, Copy, Debug, PartialEq, Eq, Structural)]
pub enum ErrorKind {
    MissingField,
    InvalidIdentifier,
    InvalidPayload,
    UnknownOperation,
    NotFound,
    Unauthorized,
    BackendInternal,
    NotImplemented,
}

/// How a failure is reported on: the classes that callers of the outer
/// protocol tell apart.
#[derive(Clone, Copy, Debug, PartialEq, Eq, Structural)]
pub enum ErrorClass {
    /// The request itself is at fault; trying again does not help.
    ClientInput,
    /// The entity referred to does not exist.
    NotFound,
    /// The backend rejected the credentials.
    Unauthorized,
    /// The backend or the way to it failed; trying again may help.
    BackendInternal,
    /// The operation is enumerated but cannot be performed.
    NotImplemented,
}

/// A failed dispatch.  `operation` is always the resolved operation's name on
/// the wire.
#[derive(Clone, Debug, PartialEq, Eq)]
pub enum RouterError {
    /// A field the operation requires was absent.
    MissingField { operation: String, field: Field },
    /// An identifier field did not hold a well-formed identifier.
    InvalidIdentifier { operation: String, field: Field, raw: String },
    /// A structured field could not be read in the shape the backend needs.
    InvalidPayload { operation: String, field: Field, reason: String },
    /// The discriminator named no operation of the router.
    UnknownOperation { raw: String },
    /// The backend reported that the entity does not exist.
    NotFound { operation: String, detail: String },
    /// The backend rejected the credentials.
    Unauthorized { operation: String, detail: String },
    /// The backend failed in any other way, transport failures included.
    BackendInternal { operation: String, detail: String },
    /// The operation is enumerated but the backend integration cannot do it.
    NotImplemented { operation: String, capability: String },
}

impl RouterError {
    pub open spec fn kind_spec(self) -> ErrorKind {
        match self {
            RouterError::MissingField { .. } => ErrorKind::MissingField,
            RouterError::InvalidIdentifier { .. } => ErrorKind::InvalidIdentifier,
            RouterError::InvalidPayload { .. } => ErrorKind::InvalidPayload,
            RouterError::UnknownOperation { .. } => ErrorKind::UnknownOperation,
            RouterError::NotFound { .. } => ErrorKind::NotFound,
            RouterError::Unauthorized { .. } => ErrorKind::Unauthorized,
            RouterError::BackendInternal { .. } => ErrorKind::BackendInternal,
            RouterError::NotImplemented { .. } => ErrorKind::NotImplemented,
        }
    }

    /// The class of the failure: missing fields, malformed identifiers and
    /// payloads and unknown operations are the client's input, and every
    /// other kind is a class of its own.
    pub open spec fn class_spec(self) -> ErrorClass {
        match self {
            RouterError::NotFound { .. } => ErrorClass::NotFound,
            RouterError::Unauthorized { .. } => ErrorClass::Unauthorized,
            RouterError::BackendInternal { .. } => ErrorClass::BackendInternal,
            RouterError::NotImplemented { .. } => ErrorClass::NotImplemented,
            _ => ErrorClass::ClientInput,
        }
    }

    /// The sentence shown to the caller.
    pub open spec fn message_spec(self) -> Seq<char> {
        match self {
            RouterError::MissingField { operation, field } => field.name_spec()
                + " is required for "@ + operation@ + " operation"@,
            RouterError::InvalidIdentifier { operation, field, raw } => "Invalid "@
                + field.name_spec() + " for "@ + operation@ + " operation: "@ + raw@,
            RouterError::InvalidPayload { operation, field, reason } => "Invalid "@
                + field.name_spec() + " for "@ + operation@ + " operation: "@ + reason@,
            RouterError::UnknownOperation { raw } => "Unknown operation: "@ + raw@,
            RouterError::NotFound { operation, detail } => "Not found: "@ + detail@,
            RouterError::Unauthorized { operation, detail } => "Authentication failed: "@
                + detail@,
            RouterError::BackendInternal { operation, detail } => detail@,
            RouterError::NotImplemented { operation, capability } => capability@,
        }
    }

    /// Only a backend failure may succeed when tried again; client-input
    /// errors, missing entities, rejected credentials and unimplemented
    /// operations never do.
    pub open spec fn retryable_spec(self) -> bool {
        self is BackendInternal
    }

    pub fn kind(&self) -> (k: ErrorKind)
        ensures
            k == self.kind_spec(),
    {
        match self {
            RouterError::MissingField { .. } => ErrorKind::MissingField,
            RouterError::InvalidIdentifier { .. } => ErrorKind::InvalidIdentifier,
            RouterError::InvalidPayload { .. } => ErrorKind::InvalidPayload,
            RouterError::UnknownOperation { .. } => ErrorKind::UnknownOperation,
            RouterError::NotFound { .. } => ErrorKind::NotFound,
            RouterError::Unauthorized { .. } => ErrorKind::Unauthorized,
            RouterError::BackendInternal { .. } => ErrorKind::BackendInternal,
            RouterError::NotImplemented { .. } => ErrorKind::NotImplemented,
        }
    }

    /// The class of the failure.
    pub fn class(&self) -> (c: ErrorClass)
        ensures
            c == self.class_spec(),
    {
        match self {
            RouterError::NotFound { .. } => ErrorClass::NotFound,
            RouterError::Unauthorized { .. } => ErrorClass::Unauthorized,
            RouterError::BackendInternal { .. } => ErrorClass::BackendInternal,
            RouterError::NotImplemented { .. } => ErrorClass::NotImplemented,
            _ => ErrorClass::ClientInput,
        }
    }

    pub fn retryable(&self) -> (b: bool)
        ensures
            b == self.retryable_spec(),
    {
        match self {
            RouterError::BackendInternal { .. } => true,
            _ => false,
        }
    }

    /// The sentence shown to the caller.
    pub fn message(&self) -> (m: String)
        ensures
            m@ == self.message_spec(),
    {
        match self {
            RouterError::MissingField { operation, field } => {
                let mut m = String::from_str(field.name());
                m.append(" is required for ");
                m.append(operation.as_str());
                m.append(" operation");
                m
            },
            RouterError::InvalidIdentifier { operation, field, raw } => {
                let mut m = String::from_str("Invalid ");
                m.append(field.name());
                m.append(" for ");
                m.append(operation.as_str());
                m.append(" operation: ");
                m.append(raw.as_str());
                m
            },
            RouterError::InvalidPayload { operation, field, reason } => {
                let mut m = String::from_str("Invalid ");
                m.append(field.name());
                m.append(" for ");
                m.append(operation.as_str());
                m.append(" operation: ");
                m.append(reason.as_str());
                m
            },
            RouterError::UnknownOperation { raw } => join2("Unknown operation: ", raw.as_str()),
            RouterError::NotFound { detail, .. } => join2("Not found: ", detail.as_str()),
            RouterError::Unauthorized { detail, .. } => join2(
                "Authentication failed: ",
                detail.as_str(),
            ),
            RouterError::BackendInternal { detail, .. } => detail.clone(),
            RouterError::NotImplemented { capability, .. } => capability.clone(),
        }
    }
}

} // verus!
