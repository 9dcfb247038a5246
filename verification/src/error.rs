//! The failures of the gateway, and how each is shown to the caller.
//!
//! `GatewayError` names every way in which building or submitting a batch can
//! fail. `RestApiResponseError` is what the layer in front of the gateway shows;
//! each failure of the gateway is mapped to one of its variants, and each variant
//! to one of four categories of answer.

use crate::status::{status_name, status_text, BatchStatus};
use vstd::prelude::*;
use vstd::std_specs::convert::FromSpecImpl;
use vstd::string::*;

verus! {

/// Every way in which building or submitting a batch can fail.
#[derive(Debug, PartialEq, Eq)]
pub enum GatewayError {
    /// The namespace or the key of an address is malformed.
    AddressingError,
    /// The payload of an action could not be serialized.
    PayloadError,
    /// The signer could not produce a signature that verifies.
    SigningError,
    /// A batch was finished without any transaction in it.
    EmptyBatchError,
    /// The caller asked for a wait that is neither a number of seconds nor the
    /// word that declines to wait; the text names the value.
    BadRequestError(String),
    /// The validator refused the submission; the text is what it answered.
    ValidatorRejectionError(String),
    /// The wait was used up before the batch was decided; the status is the
    /// last one seen.
    TimeoutError(BatchStatus),
    /// The validator could not be reached.
    TransportError(String),
}

/// The mathematical content of a `GatewayError`.
pub ghost enum GatewayErrorView {
    AddressingError,
    PayloadError,
    SigningError,
    EmptyBatchError,
    BadRequestError(Seq<char>),
    ValidatorRejectionError(Seq<char>),
    TimeoutError(BatchStatus),
    TransportError(Seq<char>),
}

impl View for GatewayError {
    type V = GatewayErrorView;

    open spec fn view(&self) -> GatewayErrorView {
        match self {
            GatewayError::AddressingError => GatewayErrorView::AddressingError,
            GatewayError::PayloadError => GatewayErrorView::PayloadError,
            GatewayError::SigningError => GatewayErrorView::SigningError,
            GatewayError::EmptyBatchError => GatewayErrorView::EmptyBatchError,
            GatewayError::BadRequestError(text) => GatewayErrorView::BadRequestError(text@),
            GatewayError::ValidatorRejectionError(text) => GatewayErrorView::ValidatorRejectionError(
                text@,
            ),
            GatewayError::TimeoutError(status) => GatewayErrorView::TimeoutError(*status),
            GatewayError::TransportError(text) => GatewayErrorView::TransportError(text@),
        }
    }
}

/// A failure as the layer in front of the gateway shows it.
#[derive(Debug, PartialEq, Eq)]
pub enum RestApiResponseError {
    BadRequest(String),
    SawtoothConnectionError(String),
    SawtoothValidatorResponseError(String),
    RequestHandlerError(String),
    DatabaseError(String),
    NotFoundError(String),
    UserError(String),
    GridProtoError(String),
    SabreProtoError(String),
}

/// The mathematical content of a `RestApiResponseError`.
pub ghost enum RestApiResponseErrorView {
    BadRequest(Seq<char>),
    SawtoothConnectionError(Seq<char>),
    SawtoothValidatorResponseError(Seq<char>),
    RequestHandlerError(Seq<char>),
    DatabaseError(Seq<char>),
    NotFoundError(Seq<char>),
    UserError(Seq<char>),
    GridProtoError(Seq<char>),
    SabreProtoError(Seq<char>),
}

impl View for RestApiResponseError {
    type V = RestApiResponseErrorView;

    open spec fn view(&self) -> RestApiResponseErrorView {
        match self {
            RestApiResponseError::BadRequest(text) => RestApiResponseErrorView::BadRequest(text@),
            RestApiResponseError::SawtoothConnectionError(text) => {
                RestApiResponseErrorView::SawtoothConnectionError(text@)
            },
            RestApiResponseError::SawtoothValidatorResponseError(text) => {
                RestApiResponseErrorView::SawtoothValidatorResponseError(text@)
            },
            RestApiResponseError::RequestHandlerError(text) => {
                RestApiResponseErrorView::RequestHandlerError(text@)
            },
            RestApiResponseError::DatabaseError(text) => RestApiResponseErrorView::DatabaseError(
                text@,
            ),
            RestApiResponseError::NotFoundError(text) => RestApiResponseErrorView::NotFoundError(
                text@,
            ),
            RestApiResponseError::UserError(text) => RestApiResponseErrorView::UserError(text@),
            RestApiResponseError::GridProtoError(text) => RestApiResponseErrorView::GridProtoError(
                text@,
            ),
            RestApiResponseError::SabreProtoError(text) => {
                RestApiResponseErrorView::SabreProtoError(text@)
            },
        }
    }
}

/// The four kinds of answer that a failure can get.
#[derive(Clone, Copy, Debug, PartialEq, Eq, Structural)]
pub enum ResponseCategory {
    /// The request was at fault.
    BadRequest,
    /// The ledger or the store behind the service could not be reached.
    ServiceUnavailable,
    /// What was asked for does not exist.
    NotFound,
    /// Any other failure; its detail is not shown.
    InternalServerError,
}

impl ResponseCategory {
    /// The HTTP status code of the category.
    pub open spec fn code(self) -> u16 {
        match self {
            ResponseCategory::BadRequest => 400,
            ResponseCategory::ServiceUnavailable => 503,
            ResponseCategory::NotFound => 404,
            ResponseCategory::InternalServerError => 500,
        }
    }

    /// Computes the HTTP status code of the category.
    pub fn status_code(&self) -> (code: u16)
        ensures
            code == self.code(),
    {
        match self {
            ResponseCategory::BadRequest => 400,
            ResponseCategory::ServiceUnavailable => 503,
            ResponseCategory::NotFound => 404,
            ResponseCategory::InternalServerError => 500,
        }
    }
}

/// An answer to a request that failed: its category and the text of its body.
#[derive(Debug, PartialEq, Eq)]
pub struct ErrorResponse {
    pub category: ResponseCategory,
    pub body: String,
}

/// The category in which a failure is answered.
pub open spec fn category_of(error: RestApiResponseErrorView) -> ResponseCategory {
    match error {
        RestApiResponseErrorView::BadRequest(_) => ResponseCategory::BadRequest,
        RestApiResponseErrorView::SawtoothConnectionError(_) => ResponseCategory::ServiceUnavailable,
        RestApiResponseErrorView::SawtoothValidatorResponseError(_) => {
            ResponseCategory::ServiceUnavailable
        },
        RestApiResponseErrorView::DatabaseError(_) => ResponseCategory::ServiceUnavailable,
        RestApiResponseErrorView::NotFoundError(_) => ResponseCategory::NotFound,
        _ => ResponseCategory::InternalServerError,
    }
}

/// The body with which a failure is answered: its own text in the three
/// categories that show it, a fixed text in the fourth.
pub open spec fn body_of(error: RestApiResponseErrorView) -> Seq<char> {
    match error {
        RestApiResponseErrorView::BadRequest(text) => text,
        RestApiResponseErrorView::SawtoothConnectionError(text) => text,
        RestApiResponseErrorView::SawtoothValidatorResponseError(text) => text,
        RestApiResponseErrorView::DatabaseError(text) => text,
        RestApiResponseErrorView::NotFoundError(text) => text,
        _ => "Internal Server Error"@,
    }
}

/// The words that introduce a failure of each kind.
pub open spec fn label_of(error: RestApiResponseErrorView) -> Seq<char> {
    match error {
        RestApiResponseErrorView::BadRequest(_) => "Bad Request: "@,
        RestApiResponseErrorView::SawtoothConnectionError(_) => "Zmq Connection Error: "@,
        RestApiResponseErrorView::SawtoothValidatorResponseError(_) => {
            "Sawtooth Validator Response Error: "@
        },
        RestApiResponseErrorView::RequestHandlerError(_) => "Request Handler Error Error: "@,
        RestApiResponseErrorView::DatabaseError(_) => "Database Error: "@,
        RestApiResponseErrorView::NotFoundError(_) => "Not Found Error: "@,
        RestApiResponseErrorView::UserError(_) => "Error: "@,
        RestApiResponseErrorView::GridProtoError(_) => "Grid Proto Error: "@,
        RestApiResponseErrorView::SabreProtoError(_) => "Sabre Proto Error: "@,
    }
}

/// The text that a failure carries.
pub open spec fn detail_of(error: RestApiResponseErrorView) -> Seq<char> {
    match error {
        RestApiResponseErrorView::BadRequest(text) => text,
        RestApiResponseErrorView::SawtoothConnectionError(text) => text,
        RestApiResponseErrorView::SawtoothValidatorResponseError(text) => text,
        RestApiResponseErrorView::RequestHandlerError(text) => text,
        RestApiResponseErrorView::DatabaseError(text) => text,
        RestApiResponseErrorView::NotFoundError(text) => text,
        RestApiResponseErrorView::UserError(text) => text,
        RestApiResponseErrorView::GridProtoError(text) => text,
        RestApiResponseErrorView::SabreProtoError(text) => text,
    }
}

/// How each failure of the gateway is shown. Faults of the request are bad
/// requests; a payload that cannot be written is a user error; a batch without
/// transactions is a fault of the handler; what the validator refuses is a
/// validator response error, shown with what the validator answered; a validator
/// that is out of reach, or that did not decide in time, is a connection error.
pub open spec fn shown_as(error: GatewayErrorView) -> RestApiResponseErrorView {
    match error {
        GatewayErrorView::AddressingError => RestApiResponseErrorView::BadRequest(
            "Namespace and key of an address must not be empty"@,
        ),
        GatewayErrorView::PayloadError => RestApiResponseErrorView::UserError(
            "Metadata is formated incorrectly"@,
        ),
        GatewayErrorView::SigningError => RestApiResponseErrorView::BadRequest(
            "Private key cannot sign"@,
        ),
        GatewayErrorView::EmptyBatchError => RestApiResponseErrorView::RequestHandlerError(
            "Batch holds no transaction"@,
        ),
        GatewayErrorView::BadRequestError(text) => RestApiResponseErrorView::BadRequest(text),
        GatewayErrorView::ValidatorRejectionError(text) => {
            RestApiResponseErrorView::SawtoothValidatorResponseError(text)
        },
        GatewayErrorView::TimeoutError(status) => RestApiResponseErrorView::SawtoothConnectionError(
            "Batch was not decided in time; last status: "@ + status_name(status),
        ),
        GatewayErrorView::TransportError(text) => RestApiResponseErrorView::SawtoothConnectionError(
            text,
        ),
    }
}

/// Every failure of the gateway is answered in one of the four categories, and
/// only a fault of the request is answered as a bad request.
pub proof fn lemma_categories(error: GatewayErrorView)
    ensures
        category_of(shown_as(error)) == ResponseCategory::BadRequest <==> (error
            is AddressingError || error is SigningError || error is BadRequestError),
        category_of(shown_as(error)) == ResponseCategory::ServiceUnavailable <==> (error
            is ValidatorRejectionError || error is TimeoutError || error is TransportError),
        category_of(shown_as(error)) == ResponseCategory::InternalServerError <==> (error
            is PayloadError || error is EmptyBatchError),
        category_of(shown_as(error)) != ResponseCategory::NotFound,
        error matches GatewayErrorView::ValidatorRejectionError(text) ==> body_of(shown_as(error))
            == text,
        error matches GatewayErrorView::BadRequestError(text) ==> body_of(shown_as(error))
            == text,
{
}

impl RestApiResponseError {
    /// The answer that the failure gets: its category, and its own text as the
    /// body unless the category is the internal one, whose body is fixed.
    pub fn error_response(&self) -> (response: ErrorResponse)
        ensures
            response.category == category_of(self@),
            response.body@ == body_of(self@),
    {
        match self {
            RestApiResponseError::BadRequest(message) => ErrorResponse {
                category: ResponseCategory::BadRequest,
                body: message.clone(),
            },
            RestApiResponseError::SawtoothConnectionError(message) => ErrorResponse {
                category: ResponseCategory::ServiceUnavailable,
                body: message.clone(),
            },
            RestApiResponseError::SawtoothValidatorResponseError(message) => ErrorResponse {
                category: ResponseCategory::ServiceUnavailable,
                body: message.clone(),
            },
            RestApiResponseError::DatabaseError(message) => ErrorResponse {
                category: ResponseCategory::ServiceUnavailable,
                body: message.clone(),
            },
            RestApiResponseError::NotFoundError(message) => ErrorResponse {
                category: ResponseCategory::NotFound,
                body: message.clone(),
            },
            _ => ErrorResponse {
                category: ResponseCategory::InternalServerError,
                body: "Internal Server Error".to_owned(),
            },
        }
    }

    /// The failure as one line of text: the words that introduce its kind, then
    /// the text it carries.
    pub fn message(&self) -> (text: String)
        ensures
            text@ == label_of(self@) + detail_of(self@),
    {
        match self {
            RestApiResponseError::BadRequest(s) => "Bad Request: ".to_owned().concat(s.as_str()),
            RestApiResponseError::SawtoothConnectionError(s) => {
                "Zmq Connection Error: ".to_owned().concat(s.as_str())
            },
            RestApiResponseError::SawtoothValidatorResponseError(s) => {
                "Sawtooth Validator Response Error: ".to_owned().concat(s.as_str())
            },
            RestApiResponseError::RequestHandlerError(s) => {
                "Request Handler Error Error: ".to_owned().concat(s.as_str())
            },
            RestApiResponseError::NotFoundError(s) => {
                "Not Found Error: ".to_owned().concat(s.as_str())
            },
            RestApiResponseError::DatabaseError(s) => "Database Error: ".to_owned().concat(
                s.as_str(),
            ),
            RestApiResponseError::UserError(s) => "Error: ".to_owned().concat(s.as_str()),
            RestApiResponseError::GridProtoError(s) => "Grid Proto Error: ".to_owned().concat(
                s.as_str(),
            ),
            RestApiResponseError::SabreProtoError(s) => "Sabre Proto Error: ".to_owned().concat(
                s.as_str(),
            ),
        }
    }
}

impl RestApiResponseError {
    /// Shows a failure of the gateway.
    pub fn from_gateway_error(error: GatewayError) -> (shown: RestApiResponseError)
        ensures
            shown@ == shown_as(error@),
    {
        match error {
            GatewayError::AddressingError => RestApiResponseError::BadRequest(
                "Namespace and key of an address must not be empty".to_owned(),
            ),
            GatewayError::PayloadError => RestApiResponseError::UserError(
                "Metadata is formated incorrectly".to_owned(),
            ),
            GatewayError::SigningError => RestApiResponseError::BadRequest(
                "Private key cannot sign".to_owned(),
            ),
            GatewayError::EmptyBatchError => RestApiResponseError::RequestHandlerError(
                "Batch holds no transaction".to_owned(),
            ),
            GatewayError::BadRequestError(text) => RestApiResponseError::BadRequest(text),
            GatewayError::ValidatorRejectionError(text) => {
                RestApiResponseError::SawtoothValidatorResponseError(text)
            },
            GatewayError::TimeoutError(status) => RestApiResponseError::SawtoothConnectionError(
                "Batch was not decided in time; last status: ".to_owned().concat(
                    status_text(status),
                ),
            ),
            GatewayError::TransportError(text) => RestApiResponseError::SawtoothConnectionError(
                text,
            ),
        }
    }
}

/// An input or output error of the standard library; its content is opaque here.
#[verifier::external_type_specification]
#[verifier::external_body]
pub struct ExIoError(std::io::Error);

/// A failure of the service itself, outside any request.
#[derive(Debug)]
pub enum RestApiServerError {
    /// The service could not start; the text says why.
    StartUpError(String),
    /// The operating system refused an operation.
    StdError(std::io::Error),
}

impl From<std::io::Error> for RestApiServerError {
    fn from(err: std::io::Error) -> (error: RestApiServerError) {
        RestApiServerError::StdError(err)
    }
}

impl FromSpecImpl<std::io::Error> for RestApiServerError {
    open spec fn obeys_from_spec() -> bool {
        true
    }

    open spec fn from_spec(err: std::io::Error) -> RestApiServerError {
        RestApiServerError::StdError(err)
    }
}

/// Trusted: the `to_string` that std gives `std::io::Error` through `Display`.
/// Nothing is claimed of the text.
#[verifier::external_body]
fn io_error_text(error: &std::io::Error) -> (text: String) {
    error.to_string()
}

/// Writes the line for an error of the operating system whose own text is
/// `detail`: the words that introduce the kind, then that text.
pub fn std_error_line(detail: &str) -> (text: String)
    ensures
        text@ == "Std Error: "@ + detail@,
{
    "Std Error: ".to_owned().concat(detail)
}

impl RestApiServerError {
    /// The error of the operating system behind the failure, if there is one.
    pub fn source(&self) -> (cause: Option<&std::io::Error>)
        ensures
            match self {
                RestApiServerError::StartUpError(_) => cause is None,
                RestApiServerError::StdError(err) => cause == Some(err),
            },
    {
        match self {
            RestApiServerError::StartUpError(_) => None,
            RestApiServerError::StdError(err) => Some(err),
        }
    }

    /// The failure as one line of text: the words that introduce its kind, then
    /// the reason.
    pub fn message(&self) -> (text: String)
        ensures
            match self {
                RestApiServerError::StartUpError(reason) => text@ == "Start-up Error: "@
                    + reason@,
                RestApiServerError::StdError(_) => "Std Error: "@.is_prefix_of(text@),
            },
    {
        match self {
            RestApiServerError::StartUpError(reason) => "Start-up Error: ".to_owned().concat(
                reason.as_str(),
            ),
            RestApiServerError::StdError(err) => {
                let detail = io_error_text(err);
                let text = "Std Error: ".to_owned().concat(detail.as_str());
                text
            },
        }
    }
}

} // verus!
