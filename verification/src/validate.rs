//! The validation gates that every operation passes before a backend call is
//! issued: required fields first, in the operation's order, then the
//! identifier fields, in the operation's order.

use crate::error::RouterError;
use crate::field::Field;
use crate::ident::{canonical_id, well_formed_id, BackendId, IdOutcome};
use vstd::prelude::*;
use vstd::string::*;

verus! {

/// A request, seen as a bag of optional fields.
pub trait Fields {
    /// Whether the request holds the field.
    spec fn has_field(&self, f: Field) -> bool;

    /// The text of an identifier field that the request holds.
    spec fn raw_identifier(&self, f: Field) -> Option<Seq<char>>;
}

/// The first of `required`, from index `from` on, that the request lacks.
pub open spec fn first_missing_from<R: Fields>(
    required: Seq<Field>,
    request: R,
    from: int,
) -> Option<Field>
    decreases required.len() - from,
{
    if from < 0 || from >= required.len() {
        None
    } else if !request.has_field(required[from]) {
        Some(required[from])
    } else {
        first_missing_from(required, request, from + 1)
    }
}

/// The first of `required` that the request lacks.
pub open spec fn first_missing<R: Fields>(required: Seq<Field>, request: R) -> Option<Field> {
    first_missing_from(required, request, 0)
}

/// Whether the request holds identifier field `f` with text that is not a
/// well-formed identifier.
pub open spec fn malformed<R: Fields>(request: R, f: Field) -> bool {
    request.raw_identifier(f) matches Some(raw) && !well_formed_id(raw)
}

/// The first of `identifiers`, from index `from` on, that is malformed.
pub open spec fn first_malformed_from<R: Fields>(
    identifiers: Seq<Field>,
    request: R,
    from: int,
) -> Option<Field>
    decreases identifiers.len() - from,
{
    if from < 0 || from >= identifiers.len() {
        None
    } else if malformed(request, identifiers[from]) {
        Some(identifiers[from])
    } else {
        first_malformed_from(identifiers, request, from + 1)
    }
}

/// The first of `identifiers` that is malformed.
pub open spec fn first_malformed<R: Fields>(identifiers: Seq<Field>, request: R) -> Option<Field> {
    first_malformed_from(identifiers, request, 0)
}

/// Whether `error` reports that `field` is missing for `operation`.
pub open spec fn is_missing(error: RouterError, operation: Seq<char>, field: Field) -> bool {
    error matches RouterError::MissingField { operation: o, field: f } && o@ == operation && f
        == field
}

/// Whether `error` reports that `field` held the malformed identifier `raw`.
pub open spec fn is_invalid_identifier(
    error: RouterError,
    operation: Seq<char>,
    field: Field,
    raw: Seq<char>,
) -> bool {
    error matches RouterError::InvalidIdentifier { operation: o, field: f, raw: t } && o@
        == operation && f == field && t@ == raw
}

/// Whether `error` reports that `field` held an unusable payload.
pub open spec fn is_invalid_payload(
    error: RouterError,
    operation: Seq<char>,
    field: Field,
    reason: Seq<char>,
) -> bool {
    error matches RouterError::InvalidPayload { operation: o, field: f, reason: t } && o@
        == operation && f == field && t@ == reason
}

/// Whether `error` reports that `operation` is not implemented, in the words
/// of `capability`.
pub open spec fn is_not_implemented(
    error: RouterError,
    operation: Seq<char>,
    capability: Seq<char>,
) -> bool {
    error matches RouterError::NotImplemented { operation: o, capability: c } && o@ == operation
        && c@ == capability
}

/// The error for a missing field.
pub fn missing(operation: &str, field: Field) -> (error: RouterError)
    ensures
        is_missing(error, operation@, field),
{
    RouterError::MissingField { operation: String::from_str(operation), field }
}

/// The error for an operation that is not implemented.
pub fn not_implemented(operation: &str, capability: &str) -> (error: RouterError)
    ensures
        is_not_implemented(error, operation@, capability@),
{
    RouterError::NotImplemented {
        operation: String::from_str(operation),
        capability: String::from_str(capability),
    }
}

/// Takes a required field's value.
pub fn require<T>(value: Option<T>, operation: &str, field: Field) -> (r: Result<T, RouterError>)
    ensures
        match value {
            Some(v) => r == Ok::<T, RouterError>(v),
            None => r matches Err(e) && is_missing(e, operation@, field),
        },
{
    match value {
        Some(v) => Ok(v),
        None => Err(missing(operation, field)),
    }
}

/// Checks that a required field is there, leaving it in place.
pub fn require_present<T>(value: &Option<T>, operation: &str, field: Field) -> (r: Result<
    (),
    RouterError,
>)
    ensures
        match value {
            Some(_) => r is Ok,
            None => r matches Err(e) && is_missing(e, operation@, field),
        },
{
    match value {
        Some(_) => Ok(()),
        None => Err(missing(operation, field)),
    }
}

/// Parses a required identifier field that is known to be there.
pub fn identify(raw: &Option<String>, operation: &str, field: Field) -> (r: Result<
    BackendId,
    RouterError,
>)
    ensures
        match *raw {
            Some(text) => if well_formed_id(text@) {
                r matches Ok(id) && id@ == canonical_id(text@)
            } else {
                r matches Err(e) && is_invalid_identifier(e, operation@, field, text@)
            },
            None => r matches Err(e) && is_missing(e, operation@, field),
        },
{
    match raw {
        Some(text) => claim(BackendId::parse(text.as_str()), operation, field),
        None => Err(missing(operation, field)),
    }
}

/// Decides on the outcome of parsing an identifier field: the identifier is
/// accepted, and rejected text becomes the error that names the field.
pub fn claim(outcome: IdOutcome, operation: &str, field: Field) -> (r: Result<
    BackendId,
    RouterError,
>)
    ensures
        match outcome {
            Ok(id) => r == Ok::<BackendId, RouterError>(id),
            Err(raw) => r matches Err(e) && is_invalid_identifier(e, operation@, field, raw@),
        },
{
    match outcome {
        Ok(id) => Ok(id),
        Err(raw) => Err(
            RouterError::InvalidIdentifier { operation: String::from_str(operation), field, raw },
        ),
    }
}

/// A reported missing field is required, is absent, and everything required
/// before it is there.
pub proof fn lemma_first_missing<R: Fields>(required: Seq<Field>, request: R, from: int)
    requires
        0 <= from,
        first_missing_from(required, request, from) is Some,
    ensures
        exists|i: int|
            from <= i < required.len() && #[trigger] required[i] == first_missing_from(
                required,
                request,
                from,
            )->0 && !request.has_field(required[i]) && forall|j: int|
                from <= j < i ==> request.has_field(#[trigger] required[j]),
    decreases required.len() - from,
{
    if request.has_field(required[from]) {
        lemma_first_missing(required, request, from + 1);
        let i = choose|i: int|
            from + 1 <= i < required.len() && #[trigger] required[i] == first_missing_from(
                required,
                request,
                from + 1,
            )->0 && !request.has_field(required[i]) && forall|j: int|
                from + 1 <= j < i ==> request.has_field(#[trigger] required[j]);
        assert(from <= i < required.len() && required[i] == first_missing_from(
            required,
            request,
            from,
        )->0 && !request.has_field(required[i]) && forall|j: int|
            from <= j < i ==> request.has_field(#[trigger] required[j]));
    } else {
        assert(required[from] == first_missing_from(required, request, from)->0);
    }
}

/// A required field that is absent is reported, or an earlier one is.
pub proof fn lemma_absent_is_reported<R: Fields>(
    required: Seq<Field>,
    request: R,
    at: int,
    from: int,
)
    requires
        0 <= from <= at < required.len(),
        !request.has_field(required[at]),
    ensures
        first_missing_from(required, request, from) is Some,
    decreases at - from,
{
    if from < at && request.has_field(required[from]) {
        lemma_absent_is_reported(required, request, at, from + 1);
    }
}

/// A malformed identifier field is reported, or an earlier one is.
pub proof fn lemma_malformed_is_reported<R: Fields>(
    identifiers: Seq<Field>,
    request: R,
    at: int,
    from: int,
)
    requires
        0 <= from <= at < identifiers.len(),
        malformed(request, identifiers[at]),
    ensures
        first_malformed_from(identifiers, request, from) is Some,
    decreases at - from,
{
    if from < at && !malformed(request, identifiers[from]) {
        lemma_malformed_is_reported(identifiers, request, at, from + 1);
    }
}

/// A reported malformed identifier is one of the operation's identifier
/// fields, is malformed, and every identifier field before it is not.
pub proof fn lemma_first_malformed<R: Fields>(identifiers: Seq<Field>, request: R, from: int)
    requires
        0 <= from,
        first_malformed_from(identifiers, request, from) is Some,
    ensures
        exists|i: int|
            from <= i < identifiers.len() && #[trigger] identifiers[i] == first_malformed_from(
                identifiers,
                request,
                from,
            )->0 && malformed(request, identifiers[i]) && forall|j: int|
                from <= j < i ==> !malformed(request, #[trigger] identifiers[j]),
    decreases identifiers.len() - from,
{
    if !malformed(request, identifiers[from]) {
        lemma_first_malformed(identifiers, request, from + 1);
        let i = choose|i: int|
            from + 1 <= i < identifiers.len() && #[trigger] identifiers[i] == first_malformed_from(
                identifiers,
                request,
                from + 1,
            )->0 && malformed(request, identifiers[i]) && forall|j: int|
                from + 1 <= j < i ==> !malformed(request, #[trigger] identifiers[j]);
        assert(from <= i < identifiers.len() && identifiers[i] == first_malformed_from(
            identifiers,
            request,
            from,
        )->0 && malformed(request, identifiers[i]) && forall|j: int|
            from <= j < i ==> !malformed(request, #[trigger] identifiers[j]));
    } else {
        assert(identifiers[from] == first_malformed_from(identifiers, request, from)->0);
    }
}

/// Where a required field is absent, a missing field is reported: a
/// required field that is absent, and the absent field itself where
/// everything required before it is there.
pub proof fn lemma_missing_field_is_reported<R: Fields>(required: Seq<Field>, request: R, at: int)
    requires
        0 <= at < required.len(),
        !request.has_field(required[at]),
    ensures
        first_missing(required, request) is Some,
        required.contains(first_missing(required, request)->0),
        !request.has_field(first_missing(required, request)->0),
        (forall|j: int| 0 <= j < at ==> request.has_field(#[trigger] required[j]))
            ==> first_missing(required, request)->0 == required[at],
{
    lemma_absent_is_reported(required, request, at, 0);
    lemma_first_missing(required, request, 0);
}

/// Where an identifier field is malformed, a malformed identifier is
/// reported: an identifier field that is malformed, and the field itself
/// where no identifier field before it is malformed.
pub proof fn lemma_malformed_identifier_is_reported<R: Fields>(
    identifiers: Seq<Field>,
    request: R,
    at: int,
)
    requires
        0 <= at < identifiers.len(),
        malformed(request, identifiers[at]),
    ensures
        first_malformed(identifiers, request) is Some,
        identifiers.contains(first_malformed(identifiers, request)->0),
        malformed(request, first_malformed(identifiers, request)->0),
        (forall|j: int| 0 <= j < at ==> !malformed(request, #[trigger] identifiers[j]))
            ==> first_malformed(identifiers, request)->0 == identifiers[at],
{
    lemma_malformed_is_reported(identifiers, request, at, 0);
    lemma_first_malformed(identifiers, request, 0);
}

} // verus!
