//! Payloads the gateway accepts from its callers.

use crate::errors::ServiceError;
use serde_json::Value;
use vstd::prelude::*;

verus! {

/// A request to create or update one record.
#[derive(Debug, Clone, PartialEq)]
pub struct CreateObjectRecordRequest {
    /// Type of the record, such as `Account`.
    pub object_type: String,
    /// Identifier of the record; an update names the record with it.
    pub id: Option<String>,
    /// Field values of the record, an arbitrary JSON document.
    pub fields: Option<Value>,
}

/// The first rule that a request breaks, if it breaks one.
#[derive(Debug, Clone, Copy, PartialEq, Eq, Structural)]
pub enum Violation {
    /// The type of the record is empty.
    ObjectTypeEmpty,
    /// The field values are missing.
    FieldsMissing,
}

/// Text that reports `violation`.
pub open spec fn violation_text(violation: Violation) -> Seq<char> {
    match violation {
        Violation::ObjectTypeEmpty => "object_type: must not be empty"@,
        Violation::FieldsMissing => "fields: required"@,
    }
}

impl CreateObjectRecordRequest {
    /// The first rule this request breaks: the record type is looked at
    /// before the field values.
    pub open spec fn spec_violation(&self) -> Option<Violation> {
        if self.object_type@.len() == 0 {
            Some(Violation::ObjectTypeEmpty)
        } else if self.fields is None {
            Some(Violation::FieldsMissing)
        } else {
            None
        }
    }

    /// Whether this request may be forwarded.
    pub open spec fn spec_is_valid(&self) -> bool {
        self.spec_violation() is None
    }

    /// The first rule this request breaks, if it breaks one.
    pub fn violation(&self) -> (violation: Option<Violation>)
        ensures
            violation == self.spec_violation(),
    {
        if self.object_type.as_str().is_empty() {
            Some(Violation::ObjectTypeEmpty)
        } else if self.fields.is_none() {
            Some(Violation::FieldsMissing)
        } else {
            None
        }
    }

    /// Accepts a request that names a record type and carries field values,
    /// and rejects any other with the text of the rule it breaks.
    pub fn validate(&self) -> (outcome: Result<(), ServiceError>)
        ensures
            match self.spec_violation() {
                None => outcome is Ok,
                Some(violation) => outcome matches Err(ServiceError::RequestInvalid(message))
                    && message@ == violation_text(violation),
            },
    {
        match self.violation() {
            None => Ok(()),
            Some(Violation::ObjectTypeEmpty) => Err(
                ServiceError::RequestInvalid("object_type: must not be empty".to_owned()),
            ),
            Some(Violation::FieldsMissing) => Err(
                ServiceError::RequestInvalid("fields: required".to_owned()),
            ),
        }
    }
}

/// A payload that has passed validation.
#[derive(Debug, Clone, Copy, Default, PartialEq)]
pub struct ValidatedJson<T>(pub T);

impl ValidatedJson<CreateObjectRecordRequest> {
    /// Wraps `request` if it is valid, and rejects it otherwise. A wrapped
    /// request is the one that was handed in.
    pub fn from_request(request: CreateObjectRecordRequest) -> (validated: Result<
        ValidatedJson<CreateObjectRecordRequest>,
        ServiceError,
    >)
        ensures
            match request.spec_violation() {
                None => validated matches Ok(wrapped) && wrapped.0 == request,
                Some(violation) => validated matches Err(ServiceError::RequestInvalid(message))
                    && message@ == violation_text(violation),
            },
    {
        match request.validate() {
            Ok(()) => Ok(ValidatedJson(request)),
            Err(error) => Err(error),
        }
    }
}

} // verus!
