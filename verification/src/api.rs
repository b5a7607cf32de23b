//! Response envelopes of the HTTP API: the tri-state result every handler
//! returns and the error codes shown to clients. The hosting web layer only
//! serializes what is built — and fully pinned down — here.

use vstd::prelude::*;

use crate::errors::ServiceError;

verus! {

broadcast use vstd::string::group_string_axioms;

#[derive(Clone, Copy, Debug, PartialEq, Eq, Structural)]
pub enum ApiStatus {
    Success,
    Fail,
    Error,
}

#[derive(Clone, Copy, Debug, PartialEq, Eq, Structural)]
pub enum ErrorCode {
    CommonError,
    StorageError,
    AuthError,
    FlexiError,
    JWTError,
    InternalError,
    FormatError,
}

#[derive(Clone, Debug)]
pub struct ApiResultError {
    msg: Option<String>,
    code: ErrorCode,
}

impl ApiResultError {
    pub closed spec fn spec_msg(&self) -> Option<String> {
        self.msg
    }

    pub closed spec fn spec_code(&self) -> ErrorCode {
        self.code
    }

    pub fn msg(&self) -> (r: &Option<String>)
        ensures
            *r == self.spec_msg(),
    {
        &self.msg
    }

    pub fn code(&self) -> (r: ErrorCode)
        ensures
            r == self.spec_code(),
    {
        self.code
    }
}

/// The envelope of every API response: a status, the payload on success or
/// partial success, and the error description otherwise.
#[derive(Clone, Debug)]
pub struct ApiResult<T> {
    status: ApiStatus,
    data: Option<T>,
    error: Option<ApiResultError>,
}

/// The error code a service error is reported under.
pub open spec fn code_of_service_error(e: ServiceError) -> ErrorCode {
    match e {
        ServiceError::Common { .. } => ErrorCode::CommonError,
        ServiceError::Storage { .. } => ErrorCode::StorageError,
        ServiceError::Auth { .. } => ErrorCode::AuthError,
        ServiceError::Format { .. } => ErrorCode::FormatError,
    }
}

impl<T> ApiResult<T> {
    pub closed spec fn spec_status(&self) -> ApiStatus {
        self.status
    }

    pub closed spec fn spec_data(&self) -> Option<T> {
        self.data
    }

    pub closed spec fn spec_error(&self) -> Option<ApiResultError> {
        self.error
    }

    pub fn status(&self) -> (r: ApiStatus)
        ensures
            r == self.spec_status(),
    {
        self.status
    }

    pub fn data(&self) -> (r: &Option<T>)
        ensures
            *r == self.spec_data(),
    {
        &self.data
    }

    pub fn error_detail(&self) -> (r: &Option<ApiResultError>)
        ensures
            *r == self.spec_error(),
    {
        &self.error
    }

    /// Decompose the envelope into its parts, for the layer that
    /// serializes it.
    pub fn into_parts(self) -> (r: (ApiStatus, Option<T>, Option<ApiResultError>))
        ensures
            r.0 == self.spec_status(),
            r.1 == self.spec_data(),
            r.2 == self.spec_error(),
    {
        let ApiResult { status, data, error } = self;
        (status, data, error)
    }

    /// A successful response carrying `data`.
    pub fn ok(data: T) -> (r: Result<Self, Self>)
        ensures
            r matches Ok(a) && a.spec_status() == ApiStatus::Success && a.spec_data() == Some(data)
                && a.spec_error() is None,
    {
        Ok(Self { status: ApiStatus::Success, data: Some(data), error: None })
    }

    /// A failed-but-well-formed response carrying `data` describing the
    /// failure.
    pub fn fail(data: T) -> (r: Result<Self, Self>)
        ensures
            r matches Ok(a) && a.spec_status() == ApiStatus::Fail && a.spec_data() == Some(data)
                && a.spec_error() is None,
    {
        Ok(Self { status: ApiStatus::Fail, data: Some(data), error: None })
    }

    /// An internal-error response carrying `content` as its message.
    pub fn error(content: &str) -> (r: Result<Self, Self>)
        ensures
            r matches Ok(a) && a.spec_status() == ApiStatus::Error && a.spec_data() is None && (
            a.spec_error() matches Some(e) && e.spec_code() == ErrorCode::InternalError && (
            e.spec_msg() matches Some(m) && m@ == content@)),
    {
        Ok(
            Self {
                status: ApiStatus::Error,
                data: None,
                error: Some(
                    ApiResultError { msg: Some(content.to_string()), code: ErrorCode::InternalError },
                ),
            },
        )
    }

    /// The response a service error is reported as: an `Err` status whose
    /// code names the error's layer and whose message is the error's own.
    pub fn from_service_error(value: ServiceError) -> (r: Self)
        ensures
            r.spec_status() == ApiStatus::Error,
            r.spec_data() is None,
            r.spec_error() matches Some(e) && e.spec_code() == code_of_service_error(value) && (
            e.spec_msg() matches Some(m) && m@ == value.spec_message()),
    {
        let code = match &value {
            ServiceError::Common { .. } => ErrorCode::CommonError,
            ServiceError::Storage { .. } => ErrorCode::StorageError,
            ServiceError::Auth { .. } => ErrorCode::AuthError,
            ServiceError::Format { .. } => ErrorCode::FormatError,
        };
        let msg = value.message();
        Self { status: ApiStatus::Error, data: None, error: Some(ApiResultError { msg: Some(msg), code }) }
    }
}

#[derive(Clone, Debug)]
pub struct LoginAuthRequest {
    pub username: String,
    pub password: String,
}

#[derive(Clone, Debug)]
pub struct LoginAuthResponse {
    pub user_id: crate::user::UserId,
    pub token: String,
}

#[derive(Clone, Debug)]
pub struct LoginFailure {
    pub reasons: Vec<ReasonField>,
}

#[derive(Clone, Debug)]
pub struct ReasonField {
    pub field: String,
    pub message: String,
}

/// The body of a rejected login: one reason, naming the credential pair.
pub fn login_failure() -> (r: LoginFailure)
    ensures
        r.reasons@.len() == 1,
        r.reasons@[0].field@ == "username/password"@,
        r.reasons@[0].message@ == "Invalid username or password."@,
{
    let mut reasons: Vec<ReasonField> = Vec::new();
    reasons.push(
        ReasonField {
            field: "username/password".to_string(),
            message: "Invalid username or password.".to_string(),
        },
    );
    LoginFailure { reasons }
}

} // verus!
