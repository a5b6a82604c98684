//! The error taxonomy, the translation rules from collaborator failures into
//! it, and the renderer that turns a kind into a status code and a body.

use crate::wire::body_wire;
use crate::wire::json_string;
use crate::wire::ErrorResponseBody;
use vstd::prelude::*;

verus! {

/// A minimal immutable error carrier for low-level call sites that need an
/// error value without constructing a taxonomy payload. It takes no part in
/// the HTTP-facing taxonomy; a caller folds it into `ServiceError` itself.
#[derive(Clone, Copy, Debug)]
pub struct DefaultError {
    pub message: &'static str,
}

impl DefaultError {
    /// The carrier's display line: its message, unchanged.
    pub fn display_string(&self) -> (r: String)
        ensures
            r@ == self.message@,
    {
        String::from_str(self.message)
    }
}

/// The closed taxonomy of failures the service reports over HTTP. A value is
/// built where a failure is classified, passes up the call chain unchanged,
/// and is rendered exactly once at the transport boundary.
#[derive(Debug)]
pub enum ServiceError {
    InternalServerError(String),
    BadRequest(String),
    Unauthorized,
    Forbidden,
    NotFound,
}

/// The mathematical model of a `ServiceError`: the same five kinds with the
/// payload as a character sequence.
pub enum ServiceErrorView {
    InternalServerError(Seq<char>),
    BadRequest(Seq<char>),
    Unauthorized,
    Forbidden,
    NotFound,
}

impl View for ServiceError {
    type V = ServiceErrorView;

    open spec fn view(&self) -> ServiceErrorView {
        match self {
            ServiceError::InternalServerError(m) => ServiceErrorView::InternalServerError(m@),
            ServiceError::BadRequest(m) => ServiceErrorView::BadRequest(m@),
            ServiceError::Unauthorized => ServiceErrorView::Unauthorized,
            ServiceError::Forbidden => ServiceErrorView::Forbidden,
            ServiceError::NotFound => ServiceErrorView::NotFound,
        }
    }
}

/// What the persistence collaborator reported, reduced to the facts the
/// translation reads: either a structured database error, with whether it is
/// a uniqueness violation, the optional detail text and the message text, or
/// an unstructured failure.
pub enum PersistenceFailure {
    Database { unique_violation: bool, details: Option<String>, message: String },
    Other,
}

/// The mathematical model of a `PersistenceFailure`.
pub enum PersistenceFailureView {
    Database { unique_violation: bool, details: Option<Seq<char>>, message: Seq<char> },
    Other,
}

impl View for PersistenceFailure {
    type V = PersistenceFailureView;

    open spec fn view(&self) -> PersistenceFailureView {
        match self {
            PersistenceFailure::Database { unique_violation, details, message } => {
                PersistenceFailureView::Database {
                    unique_violation: *unique_violation,
                    details: match details {
                        Some(d) => Some(d@),
                        None => None,
                    },
                    message: message@,
                }
            },
            PersistenceFailure::Other => PersistenceFailureView::Other,
        }
    }
}

/// The fixed message for a structured database error that is not a
/// uniqueness violation.
pub open spec fn unknown_db_error_message() -> Seq<char> {
    "Unknown DB Error. Please try again later"@
}

/// The fixed message for an unstructured persistence failure.
pub open spec fn internal_error_message() -> Seq<char> {
    "Internal Server Error. Please try again later"@
}

/// The fixed message for a malformed identifier.
pub open spec fn invalid_uuid_message() -> Seq<char> {
    "Invalid UUID"@
}

/// The translation rule for persistence failures: a uniqueness violation
/// becomes BadRequest carrying its detail text, or its message text when no
/// detail was supplied; any other structured database error and any
/// unstructured failure become InternalServerError with the fixed message of
/// its case.
pub open spec fn spec_translate_persistence(f: PersistenceFailureView) -> ServiceErrorView {
    match f {
        PersistenceFailureView::Database { unique_violation, details, message } => {
            if unique_violation {
                match details {
                    Some(d) => ServiceErrorView::BadRequest(d),
                    None => ServiceErrorView::BadRequest(message),
                }
            } else {
                ServiceErrorView::InternalServerError(unknown_db_error_message())
            }
        },
        PersistenceFailureView::Other => ServiceErrorView::InternalServerError(
            internal_error_message(),
        ),
    }
}

/// The status code each kind renders to.
pub open spec fn spec_status(e: ServiceErrorView) -> u16 {
    match e {
        ServiceErrorView::InternalServerError(_) => 500,
        ServiceErrorView::BadRequest(_) => 400,
        ServiceErrorView::Unauthorized => 401,
        ServiceErrorView::Forbidden => 403,
        ServiceErrorView::NotFound => 404,
    }
}

/// The body each kind renders to: the two payload-carrying kinds render the
/// structured object, the other three a bare JSON string.
pub open spec fn spec_body(e: ServiceErrorView) -> Seq<char> {
    match e {
        ServiceErrorView::InternalServerError(m) => body_wire(m),
        ServiceErrorView::BadRequest(m) => body_wire(m),
        ServiceErrorView::Unauthorized => json_string("Unauthorized"@),
        ServiceErrorView::Forbidden => json_string("Forbidden"@),
        ServiceErrorView::NotFound => json_string("Record not found"@),
    }
}

/// The identifier parser's failure type, `uuid::Error`, declared so taxonomy
/// functions can take it; the translation reads nothing of it.
#[verifier::external_type_specification]
#[verifier::external_body]
pub struct ExUuidError(uuid::Error);

/// The persistence layer's failure type, `diesel::result::Error`, declared so
/// taxonomy functions can take it; what the translation reads of it comes
/// through `inspect_db_error`.
#[verifier::external_type_specification]
#[verifier::external_body]
pub struct ExDieselError(diesel::result::Error);

/// Relies on diesel::result::Error and diesel's DatabaseErrorInformation:
/// tells the DatabaseError variant from the others, reads whether its kind is
/// UniqueViolation, and reads the information's details and message texts.
#[verifier::external_body]
fn inspect_db_error(e: &diesel::result::Error) -> (r: PersistenceFailure) {
    match e {
        diesel::result::Error::DatabaseError(kind, info) => PersistenceFailure::Database {
            unique_violation: matches!(kind, diesel::result::DatabaseErrorKind::UniqueViolation),
            details: info.details().map(|d| d.to_string()),
            message: info.message().to_string(),
        },
        _ => PersistenceFailure::Other,
    }
}

impl ServiceError {
    /// Classifies a persistence failure, already reduced to its model, into
    /// the taxonomy.
    pub fn from_persistence(f: PersistenceFailure) -> (r: ServiceError)
        ensures
            r@ == spec_translate_persistence(f@),
    {
        match f {
            PersistenceFailure::Database { unique_violation, details, message } => {
                if unique_violation {
                    match details {
                        Some(d) => ServiceError::BadRequest(d),
                        None => ServiceError::BadRequest(message),
                    }
                } else {
                    ServiceError::InternalServerError(
                        String::from_str("Unknown DB Error. Please try again later"),
                    )
                }
            },
            PersistenceFailure::Other => ServiceError::InternalServerError(
                String::from_str("Internal Server Error. Please try again later"),
            ),
        }
    }

    /// Renders the kind at the transport boundary: the status code and the
    /// body text of the response, fixed for each kind.
    pub fn error_response(&self) -> (r: (u16, String))
        ensures
            r.0 == spec_status(self@),
            r.1@ == spec_body(self@),
    {
        match self {
            ServiceError::InternalServerError(message) => (
                500,
                ErrorResponseBody { message: message.clone() }.encode(),
            ),
            ServiceError::BadRequest(message) => (
                400,
                ErrorResponseBody { message: message.clone() }.encode(),
            ),
            ServiceError::Unauthorized => (401, crate::wire::json_quote("Unauthorized")),
            ServiceError::Forbidden => (403, crate::wire::json_quote("Forbidden")),
            ServiceError::NotFound => (404, crate::wire::json_quote("Record not found")),
        }
    }

    /// Classifies an identifier-parsing failure: every malformed identifier
    /// becomes BadRequest with the fixed message, whatever the parser's own
    /// diagnostic said.
    pub fn from_parse_error(_e: uuid::Error) -> (r: ServiceError)
        ensures
            r@ == ServiceErrorView::BadRequest(invalid_uuid_message()),
    {
        ServiceError::BadRequest(String::from_str("Invalid UUID"))
    }

    /// Classifies a failure raised by the persistence layer: its structured
    /// content is read by `inspect_db_error`, and the verified translation of
    /// the reduced failure does the rest. Whatever the layer reported, the
    /// result is a BadRequest (a uniqueness violation) or one of the two
    /// fixed internal errors.
    pub fn from_db_error(e: diesel::result::Error) -> (r: ServiceError)
        ensures
            r@ matches ServiceErrorView::BadRequest(_) || r@
                == ServiceErrorView::InternalServerError(unknown_db_error_message()) || r@
                == ServiceErrorView::InternalServerError(internal_error_message()),
    {
        let f = inspect_db_error(&e);
        ServiceError::from_persistence(f)
    }
}

/// The human-readable line each kind prints in logs and error chains.
pub open spec fn spec_display(e: ServiceErrorView) -> Seq<char> {
    match e {
        ServiceErrorView::InternalServerError(m) => "Internal Server Error: "@ + m,
        ServiceErrorView::BadRequest(m) => "BadRequest: "@ + m,
        ServiceErrorView::Unauthorized => "Unauthorized"@,
        ServiceErrorView::Forbidden => "Forbidden"@,
        ServiceErrorView::NotFound => "Not Found"@,
    }
}

impl ServiceError {
    /// The kind's display line, as `spec_display` states it.
    pub fn display_string(&self) -> (r: String)
        ensures
            r@ == spec_display(self@),
    {
        match self {
            ServiceError::InternalServerError(m) => String::from_str(
                "Internal Server Error: ",
            ).concat(m.as_str()),
            ServiceError::BadRequest(m) => String::from_str("BadRequest: ").concat(m.as_str()),
            ServiceError::Unauthorized => String::from_str("Unauthorized"),
            ServiceError::Forbidden => String::from_str("Forbidden"),
            ServiceError::NotFound => String::from_str("Not Found"),
        }
    }
}

/// A uniqueness violation with a non-empty detail text translates to
/// BadRequest carrying that detail, and renders as status 400 with the detail
/// inside the structured wire body.
pub proof fn lemma_unique_violation_detail(d: Seq<char>, msg: Seq<char>)
    requires
        d.len() > 0,
    ensures
        spec_translate_persistence(
            PersistenceFailureView::Database {
                unique_violation: true,
                details: Some(d),
                message: msg,
            },
        ) == ServiceErrorView::BadRequest(d),
        spec_status(ServiceErrorView::BadRequest(d)) == 400,
        spec_body(ServiceErrorView::BadRequest(d)) == body_wire(d),
{
}

/// A uniqueness violation without a detail text translates to BadRequest
/// carrying the failure's message text.
pub proof fn lemma_unique_violation_message(msg: Seq<char>)
    ensures
        spec_translate_persistence(
            PersistenceFailureView::Database {
                unique_violation: true,
                details: None,
                message: msg,
            },
        ) == ServiceErrorView::BadRequest(msg),
{
}

/// A structured database error that is not a uniqueness violation translates
/// to InternalServerError with the fixed message of that case, whatever its
/// detail and message texts were.
pub proof fn lemma_structured_db_error(details: Option<Seq<char>>, msg: Seq<char>)
    ensures
        spec_translate_persistence(
            PersistenceFailureView::Database { unique_violation: false, details, message: msg },
        ) == ServiceErrorView::InternalServerError(unknown_db_error_message()),
{
}

/// An unstructured persistence failure translates to InternalServerError
/// with the fixed message of that case.
pub proof fn lemma_unstructured_failure()
    ensures
        spec_translate_persistence(PersistenceFailureView::Other)
            == ServiceErrorView::InternalServerError(internal_error_message()),
{
}

/// The rendering table, kind by kind: each of the five kinds maps to exactly
/// one status code and one body.
pub proof fn lemma_render_table(m: Seq<char>)
    ensures
        spec_status(ServiceErrorView::InternalServerError(m)) == 500,
        spec_body(ServiceErrorView::InternalServerError(m)) == body_wire(m),
        spec_status(ServiceErrorView::BadRequest(m)) == 400,
        spec_body(ServiceErrorView::BadRequest(m)) == body_wire(m),
        spec_status(ServiceErrorView::Unauthorized) == 401,
        spec_body(ServiceErrorView::Unauthorized) == json_string("Unauthorized"@),
        spec_status(ServiceErrorView::Forbidden) == 403,
        spec_body(ServiceErrorView::Forbidden) == json_string("Forbidden"@),
        spec_status(ServiceErrorView::NotFound) == 404,
        spec_body(ServiceErrorView::NotFound) == json_string("Record not found"@),
{
}

/// Translation is deterministic: equal persistence failures translate to
/// equal kinds.
pub proof fn lemma_translation_deterministic(f1: PersistenceFailureView, f2: PersistenceFailureView)
    requires
        f1 == f2,
    ensures
        spec_translate_persistence(f1) == spec_translate_persistence(f2),
{
}

/// Rendering is deterministic: equal kinds render to the same status code
/// and the same body text, call after call.
pub proof fn lemma_rendering_deterministic(e1: ServiceErrorView, e2: ServiceErrorView)
    requires
        e1 == e2,
    ensures
        spec_status(e1) == spec_status(e2),
        spec_body(e1) == spec_body(e2),
{
}

} // verus!
