//! Errors as HTTP responses: each kind of failure maps to a status code and
//! a reason that reveals no internal detail.
use vstd::prelude::*;
use crate::presigned::InitiateError;
use crate::tenant::ExtractTenantError;
use crate::text::{decimal, push_decimal};

verus! {

pub const STATUS_BAD_REQUEST: u16 = 400;

pub const STATUS_UNAUTHORIZED: u16 = 401;

pub const STATUS_NOT_FOUND: u16 = 404;

pub const STATUS_CONFLICT: u16 = 409;

pub const STATUS_INTERNAL_SERVER_ERROR: u16 = 500;

/// An error that can be answered with an HTTP response.
pub trait HttpError {
    /// The status code of the response.
    spec fn status_spec(&self) -> u16;

    /// The reason given in the response.
    spec fn reason_spec(&self) -> Seq<char>;

    fn status(&self) -> (r: u16)
        ensures
            r == self.status_spec(),
    ;

    fn reason(&self) -> (r: String)
        ensures
            r@ == self.reason_spec(),
    ;
}

/// Body of an error response.
#[derive(Debug)]
pub struct HttpErrorResponse {
    pub reason: String,
}

/// Any error, reduced to the status and reason of its response.
#[derive(Debug)]
pub struct DynHttpError {
    pub status: u16,
    pub reason: String,
}

impl DynHttpError {
    /// The response for `error`.
    pub fn from_error<E: HttpError>(error: &E) -> (r: DynHttpError)
        ensures
            r.status == error.status_spec(),
            r.reason@ == error.reason_spec(),
    {
        DynHttpError { status: error.status(), reason: error.reason() }
    }

    /// The response body.
    pub fn body(&self) -> (r: HttpErrorResponse)
        ensures
            r.reason@ == self.reason@,
    {
        HttpErrorResponse { reason: self.reason.clone() }
    }
}

/// The reason given for a declared size above the maximum.
pub open spec fn too_large_reason(size: i32, max: i32) -> Seq<char> {
    "file size is larger than the maximum allowed size (requested: "@ + decimal(size as int)
        + ", maximum: "@ + decimal(max as int) + ")"@
}

/// File failures.
#[derive(Debug, PartialEq, Eq, Structural)]
pub enum HttpFileError {
    UnknownFile,
    UnknownTask,
    /// The declared size and the maximum.
    FileTooLarge(i32, i32),
    NoMatchingGenerated,
    UnsupportedFileType,
}

impl HttpError for HttpFileError {
    open spec fn status_spec(&self) -> u16 {
        match self {
            HttpFileError::FileTooLarge(_, _) => 400,
            HttpFileError::UnknownFile => 404,
            HttpFileError::NoMatchingGenerated => 404,
            HttpFileError::UnknownTask => 404,
            HttpFileError::UnsupportedFileType => 400,
        }
    }

    open spec fn reason_spec(&self) -> Seq<char> {
        match self {
            HttpFileError::UnknownFile => "unknown file"@,
            HttpFileError::UnknownTask => "unknown task"@,
            HttpFileError::FileTooLarge(size, max) => too_large_reason(*size, *max),
            HttpFileError::NoMatchingGenerated => "no matching generated file"@,
            HttpFileError::UnsupportedFileType => "unsupported file type"@,
        }
    }

    fn status(&self) -> (r: u16) {
        match self {
            HttpFileError::FileTooLarge(_, _) => 400,
            HttpFileError::UnknownFile => 404,
            HttpFileError::NoMatchingGenerated => 404,
            HttpFileError::UnknownTask => 404,
            HttpFileError::UnsupportedFileType => 400,
        }
    }

    fn reason(&self) -> (r: String) {
        match self {
            HttpFileError::UnknownFile => "unknown file".to_owned(),
            HttpFileError::UnknownTask => "unknown task".to_owned(),
            HttpFileError::FileTooLarge(size, max) => {
                let mut r = String::new();
                r.push_str("file size is larger than the maximum allowed size (requested: ");
                push_decimal(&mut r, *size as i64);
                r.push_str(", maximum: ");
                push_decimal(&mut r, *max as i64);
                r.push_str(")");
                r
            },
            HttpFileError::NoMatchingGenerated => "no matching generated file".to_owned(),
            HttpFileError::UnsupportedFileType => "unsupported file type".to_owned(),
        }
    }
}

impl HttpError for ExtractTenantError {
    open spec fn status_spec(&self) -> u16 {
        400
    }

    open spec fn reason_spec(&self) -> Seq<char> {
        match self {
            ExtractTenantError::MissingTenantId => "tenant id is required"@,
            ExtractTenantError::InvalidTenantId => "tenant id must be a valid uuid"@,
            ExtractTenantError::MissingTenantEnv => "tenant env is required"@,
            ExtractTenantError::InvalidTenantEnv => "tenant env must be a valid uuid"@,
            ExtractTenantError::TenantNotFound => "tenant not found"@,
        }
    }

    fn status(&self) -> (r: u16) {
        400
    }

    fn reason(&self) -> (r: String) {
        match self {
            ExtractTenantError::MissingTenantId => "tenant id is required".to_owned(),
            ExtractTenantError::InvalidTenantId => "tenant id must be a valid uuid".to_owned(),
            ExtractTenantError::MissingTenantEnv => "tenant env is required".to_owned(),
            ExtractTenantError::InvalidTenantEnv => "tenant env must be a valid uuid".to_owned(),
            ExtractTenantError::TenantNotFound => "tenant not found".to_owned(),
        }
    }
}

/// A user identifier header that is not text.
#[derive(Debug, PartialEq, Eq, Structural)]
pub struct InvalidUserId;

impl HttpError for InvalidUserId {
    open spec fn status_spec(&self) -> u16 {
        400
    }

    open spec fn reason_spec(&self) -> Seq<char> {
        "user id was not a valid utf8 string"@
    }

    fn status(&self) -> (r: u16) {
        400
    }

    fn reason(&self) -> (r: String) {
        "user id was not a valid utf8 string".to_owned()
    }
}

/// The response for a refused upload grant: a size above the maximum and a
/// missing folder are the client's; the rest are the service's own.
pub open spec fn initiate_error_response(e: InitiateError) -> (u16, Seq<char>) {
    match e {
        InitiateError::FileTooLarge { size, max } => (400, too_large_reason(size, max)),
        InitiateError::UnknownTargetFolder => (404, "unknown target folder"@),
        _ => (500, "internal server error"@),
    }
}

impl InitiateError {
    /// The response for this refusal.
    pub fn to_http(&self) -> (r: DynHttpError)
        ensures
            (r.status, r.reason@) == initiate_error_response(*self),
    {
        match self {
            InitiateError::FileTooLarge { size, max } => DynHttpError::from_error(
                &HttpFileError::FileTooLarge(*size, *max),
            ),
            InitiateError::UnknownTargetFolder => DynHttpError::from_error(
                &HttpFolderError::UnknownTargetFolder,
            ),
            _ => DynHttpError::from_error(&HttpCommonError::ServerError),
        }
    }
}

/// Failures of the service's own infrastructure, reported without their cause.
#[derive(Debug, PartialEq, Eq, Structural)]
pub enum HttpCommonError {
    ServerError,
}

impl HttpError for HttpCommonError {
    open spec fn status_spec(&self) -> u16 {
        match self {
            HttpCommonError::ServerError => 500,
        }
    }

    open spec fn reason_spec(&self) -> Seq<char> {
        match self {
            HttpCommonError::ServerError => "internal server error"@,
        }
    }

    fn status(&self) -> (r: u16) {
        match self {
            HttpCommonError::ServerError => 500,
        }
    }

    fn reason(&self) -> (r: String) {
        match self {
            HttpCommonError::ServerError => "internal server error".to_owned(),
        }
    }
}

/// Document box failures.
#[derive(Debug, PartialEq, Eq, Structural)]
pub enum HttpDocumentBoxError {
    ScopeAlreadyExists,
    UnknownDocumentBox,
}

impl HttpError for HttpDocumentBoxError {
    open spec fn status_spec(&self) -> u16 {
        match self {
            HttpDocumentBoxError::ScopeAlreadyExists => 409,
            HttpDocumentBoxError::UnknownDocumentBox => 404,
        }
    }

    open spec fn reason_spec(&self) -> Seq<char> {
        match self {
            HttpDocumentBoxError::ScopeAlreadyExists => "document box with matching scope already exists"@,
            HttpDocumentBoxError::UnknownDocumentBox => "unknown document box"@,
        }
    }

    fn status(&self) -> (r: u16) {
        match self {
            HttpDocumentBoxError::ScopeAlreadyExists => 409,
            HttpDocumentBoxError::UnknownDocumentBox => 404,
        }
    }

    fn reason(&self) -> (r: String) {
        match self {
            HttpDocumentBoxError::ScopeAlreadyExists => "document box with matching scope already exists".to_owned(),
            HttpDocumentBoxError::UnknownDocumentBox => "unknown document box".to_owned(),
        }
    }
}

/// Background task failures.
#[derive(Debug, PartialEq, Eq, Structural)]
pub enum HttpTaskError {
    UnknownTask,
}

impl HttpError for HttpTaskError {
    open spec fn status_spec(&self) -> u16 {
        match self {
            HttpTaskError::UnknownTask => 404,
        }
    }

    open spec fn reason_spec(&self) -> Seq<char> {
        match self {
            HttpTaskError::UnknownTask => "unknown task"@,
        }
    }

    fn status(&self) -> (r: u16) {
        match self {
            HttpTaskError::UnknownTask => 404,
        }
    }

    fn reason(&self) -> (r: String) {
        match self {
            HttpTaskError::UnknownTask => "unknown task".to_owned(),
        }
    }
}

/// Link failures.
#[derive(Debug)]
pub enum HttpLinkError {
    UnknownLink,
    InvalidLinkUrl,
    /// Creation failed; its message is reported as it is.
    CreateError(String),
    FailedResolve,
    NoFavicon,
    NoImage,
}

impl HttpError for HttpLinkError {
    open spec fn status_spec(&self) -> u16 {
        match self {
            HttpLinkError::UnknownLink => 404,
            HttpLinkError::InvalidLinkUrl => 400,
            HttpLinkError::CreateError(_) => 500,
            HttpLinkError::FailedResolve => 404,
            HttpLinkError::NoFavicon => 404,
            HttpLinkError::NoImage => 404,
        }
    }

    open spec fn reason_spec(&self) -> Seq<char> {
        match self {
            HttpLinkError::UnknownLink => "unknown link"@,
            HttpLinkError::InvalidLinkUrl => "invalid link url"@,
            HttpLinkError::CreateError(m) => m@,
            HttpLinkError::FailedResolve => "failed to resolve metadata"@,
            HttpLinkError::NoFavicon => "website favicon not present"@,
            HttpLinkError::NoImage => "website image not present"@,
        }
    }

    fn status(&self) -> (r: u16) {
        match self {
            HttpLinkError::UnknownLink => 404,
            HttpLinkError::InvalidLinkUrl => 400,
            HttpLinkError::CreateError(_) => 500,
            HttpLinkError::FailedResolve => 404,
            HttpLinkError::NoFavicon => 404,
            HttpLinkError::NoImage => 404,
        }
    }

    fn reason(&self) -> (r: String) {
        match self {
            HttpLinkError::UnknownLink => "unknown link".to_owned(),
            HttpLinkError::InvalidLinkUrl => "invalid link url".to_owned(),
            HttpLinkError::CreateError(m) => m.clone(),
            HttpLinkError::FailedResolve => "failed to resolve metadata".to_owned(),
            HttpLinkError::NoFavicon => "website favicon not present".to_owned(),
            HttpLinkError::NoImage => "website image not present".to_owned(),
        }
    }
}

/// Folder failures.
#[derive(Debug)]
pub enum HttpFolderError {
    UnknownFolder,
    /// Creation failed; its message is reported as it is.
    CreateError(String),
    UnknownTargetFolder,
    CannotDeleteRoot,
    CannotModifyRoot,
    CannotMoveIntoSelf,
}

impl HttpError for HttpFolderError {
    open spec fn status_spec(&self) -> u16 {
        match self {
            HttpFolderError::UnknownFolder => 404,
            HttpFolderError::CreateError(_) => 500,
            HttpFolderError::UnknownTargetFolder => 404,
            HttpFolderError::CannotDeleteRoot => 400,
            HttpFolderError::CannotModifyRoot => 400,
            HttpFolderError::CannotMoveIntoSelf => 400,
        }
    }

    open spec fn reason_spec(&self) -> Seq<char> {
        match self {
            HttpFolderError::UnknownFolder => "unknown folder"@,
            HttpFolderError::CreateError(m) => m@,
            HttpFolderError::UnknownTargetFolder => "unknown target folder"@,
            HttpFolderError::CannotDeleteRoot => "cannot delete root folder"@,
            HttpFolderError::CannotModifyRoot => "cannot modify root folder"@,
            HttpFolderError::CannotMoveIntoSelf => "cannot move a folder into itself"@,
        }
    }

    fn status(&self) -> (r: u16) {
        match self {
            HttpFolderError::UnknownFolder => 404,
            HttpFolderError::CreateError(_) => 500,
            HttpFolderError::UnknownTargetFolder => 404,
            HttpFolderError::CannotDeleteRoot => 400,
            HttpFolderError::CannotModifyRoot => 400,
            HttpFolderError::CannotMoveIntoSelf => 400,
        }
    }

    fn reason(&self) -> (r: String) {
        match self {
            HttpFolderError::UnknownFolder => "unknown folder".to_owned(),
            HttpFolderError::CreateError(m) => m.clone(),
            HttpFolderError::UnknownTargetFolder => "unknown target folder".to_owned(),
            HttpFolderError::CannotDeleteRoot => "cannot delete root folder".to_owned(),
            HttpFolderError::CannotModifyRoot => "cannot modify root folder".to_owned(),
            HttpFolderError::CannotMoveIntoSelf => "cannot move a folder into itself".to_owned(),
        }
    }
}

} // verus!
