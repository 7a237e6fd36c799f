use vstd::prelude::*;

verus! {

/// HTTP statuses the core answers with.
pub const STATUS_OK: u16 = 200;
pub const STATUS_NOT_FOUND: u16 = 404;
pub const STATUS_UNPROCESSABLE_ENTITY: u16 = 422;
pub const STATUS_INTERNAL_SERVER_ERROR: u16 = 500;

/// The error part of a response body.
#[derive(Clone, Debug)]
pub struct ErrorDto {
    pub message: String,
}

/// A failure surfaced to the caller: an HTTP status and a message.
#[derive(Clone, Debug)]
pub struct ApplicationError {
    pub status: u16,
    pub msg: String,
}

impl ApplicationError {
    pub fn new(msg: String, status: u16) -> (r: ApplicationError)
        ensures
            r.status == status,
            r.msg == msg,
    {
        ApplicationError { status, msg }
    }
}

/// What a storage read can fail with: the row is absent, or the storage
/// itself failed (with the driver's message).
#[derive(Clone, Debug)]
pub enum StoreError {
    NotFound,
    Fault(String),
}

/// The text a missing event is reported with.
pub open spec fn not_found_message() -> Seq<char> {
    "Event not found"@
}

impl ApplicationError {
    /// Maps a storage failure: a missing row is `404`, anything else `500`
    /// carrying the storage's own message.
    pub fn from_store(e: StoreError) -> (r: ApplicationError)
        ensures
            e is NotFound ==> r.status == STATUS_NOT_FOUND && r.msg@ == not_found_message(),
            e is Fault ==> r.status == STATUS_INTERNAL_SERVER_ERROR && r.msg == e->Fault_0,
    {
        match e {
            StoreError::NotFound => ApplicationError {
                status: STATUS_NOT_FOUND,
                msg: "Event not found".to_owned(),
            },
            StoreError::Fault(m) => ApplicationError { status: STATUS_INTERNAL_SERVER_ERROR, msg: m },
        }
    }
}

/// The envelope every endpoint answers with: a status, and either a result
/// or an error.
#[derive(Clone, Debug)]
pub struct UniversalResponseDto<T> {
    pub status: u16,
    pub result: Option<T>,
    pub error: Option<ErrorDto>,
}

/// A response carrying an error, with the error's own status.
pub fn error<T>(e: ApplicationError) -> (r: UniversalResponseDto<T>)
    ensures
        r.status == e.status,
        r.result is None,
        r.error == Some(ErrorDto { message: e.msg }),
{
    UniversalResponseDto { status: e.status, result: None, error: Some(ErrorDto { message: e.msg }) }
}

/// A response carrying an error, with status `500` whatever the error's own.
pub fn internal_server_error<T>(e: ApplicationError) -> (r: UniversalResponseDto<T>)
    ensures
        r.status == STATUS_INTERNAL_SERVER_ERROR,
        r.result is None,
        r.error == Some(ErrorDto { message: e.msg }),
{
    UniversalResponseDto {
        status: STATUS_INTERNAL_SERVER_ERROR,
        result: None,
        error: Some(ErrorDto { message: e.msg }),
    }
}

/// The response for an operation's outcome: `200` with the result, or the
/// error's response.
pub fn ok<T>(r: Result<T, ApplicationError>) -> (resp: UniversalResponseDto<T>)
    ensures
        r is Ok ==> resp.status == STATUS_OK && resp.result == Some(r->Ok_0) && resp.error is None,
        r is Err ==> resp.status == r->Err_0.status && resp.result is None && resp.error == Some(
            ErrorDto { message: r->Err_0.msg },
        ),
{
    match r {
        Ok(res) => UniversalResponseDto { status: STATUS_OK, result: Some(res), error: None },
        Err(err) => error(err),
    }
}

} // verus!
