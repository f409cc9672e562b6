//! Interpretation of what the transport hands back: status gating and
//! body decoding, with the error taxonomy the operations report.

use vstd::prelude::*;
use crate::json::{parse_json_text, parsed_json};
use crate::routes::{PageModel, RoutesPage, decode_routes_page, page_of_json};

verus! {

/// What the transport hands back when the network call itself went
/// through: the status code and the body text.
#[derive(Debug, PartialEq, Eq)]
pub struct HttpResponse {
    pub status: u16,
    pub body: String,
}

/// Why an operation failed.
#[derive(Debug, PartialEq, Eq)]
pub enum ApiError {
    /// The network call itself failed; the transport's own message.
    Transport(String),
    /// The remote service answered with a non-success status; the status
    /// and the response body are kept for diagnostics.
    HttpStatus(u16, String),
    /// A successful response's body could not be decoded.
    Decode,
}

/// The mathematical reading of an [`ApiError`].
pub enum ErrorModel {
    Transport(Seq<char>),
    HttpStatus(u16, Seq<char>),
    Decode,
}

impl View for ApiError {
    type V = ErrorModel;

    open spec fn view(&self) -> ErrorModel {
        match self {
            ApiError::Transport(m) => ErrorModel::Transport(m@),
            ApiError::HttpStatus(s, b) => ErrorModel::HttpStatus(*s, b@),
            ApiError::Decode => ErrorModel::Decode,
        }
    }
}

/// The statuses reported as errors: the client-error and server-error
/// ranges, 400 through 599.
pub open spec fn is_error_status(status: u16) -> bool {
    400 <= status < 600
}

/// The reading of a unit-result over models.
pub open spec fn unit_result_view(r: Result<(), ApiError>) -> Result<(), ErrorModel> {
    match r {
        Ok(u) => Ok(u),
        Err(e) => Err(e@),
    }
}

/// The reading of a page-result over models.
pub open spec fn page_result_view(r: Result<RoutesPage, ApiError>) -> Result<
    PageModel,
    ErrorModel,
> {
    match r {
        Ok(p) => Ok(p@),
        Err(e) => Err(e@),
    }
}

/// What a mutating operation reports for a given transport outcome: a
/// transport failure as `Transport`, a non-success status as `HttpStatus`,
/// anything else as success.  No body is consumed.
pub open spec fn mutation_result_model(o: Result<HttpResponse, String>) -> Result<
    (),
    ErrorModel,
> {
    match o {
        Err(m) => Err(ErrorModel::Transport(m@)),
        Ok(resp) => if is_error_status(resp.status) {
            Err(ErrorModel::HttpStatus(resp.status, resp.body@))
        } else {
            Ok(())
        },
    }
}

/// What a list operation reports: as a mutating one, except that a
/// successful response's body must decode into a page of routes, and a
/// body that does not is a `Decode` failure.
pub open spec fn list_result_model(o: Result<HttpResponse, String>) -> Result<
    PageModel,
    ErrorModel,
> {
    match o {
        Err(m) => Err(ErrorModel::Transport(m@)),
        Ok(resp) => if is_error_status(resp.status) {
            Err(ErrorModel::HttpStatus(resp.status, resp.body@))
        } else {
            match parsed_json(resp.body@) {
                None => Err(ErrorModel::Decode),
                Some(j) => match page_of_json(j) {
                    None => Err(ErrorModel::Decode),
                    Some(p) => Ok(p),
                },
            }
        },
    }
}

pub fn status_is_error(status: u16) -> (r: bool)
    ensures
        r == is_error_status(status),
{
    400 <= status && status < 600
}

/// Interprets the outcome of a sent mutating request (create, update or
/// delete).  Nothing is retried and no partial success exists: the one
/// request either went through with a success status or the error says
/// how it failed.
pub fn mutation_outcome(outcome: Result<HttpResponse, String>) -> (r: Result<(), ApiError>)
    ensures
        unit_result_view(r) == mutation_result_model(outcome),
{
    match outcome {
        Err(m) => Err(ApiError::Transport(m)),
        Ok(resp) => {
            if status_is_error(resp.status) {
                Err(ApiError::HttpStatus(resp.status, resp.body))
            } else {
                Ok(())
            }
        },
    }
}

/// Interprets the outcome of a sent list request: on a success status the
/// body is decoded into one page of routes.
pub fn list_outcome(outcome: Result<HttpResponse, String>) -> (r: Result<RoutesPage, ApiError>)
    ensures
        page_result_view(r) == list_result_model(outcome),
{
    match outcome {
        Err(m) => Err(ApiError::Transport(m)),
        Ok(resp) => {
            if status_is_error(resp.status) {
                return Err(ApiError::HttpStatus(resp.status, resp.body));
            }
            match parse_json_text(resp.body.as_str()) {
                None => Err(ApiError::Decode),
                Some(j) => match decode_routes_page(j) {
                    None => Err(ApiError::Decode),
                    Some(page) => Ok(page),
                },
            }
        },
    }
}

} // verus!
