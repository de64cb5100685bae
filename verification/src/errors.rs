//! The typed failures this library hands back to its callers, with the
//! stable error codes and HTTP-style status numbers each one maps to.

use vstd::prelude::*;

verus! {

pub type AppResult<T> = Result<T, AppError>;

#[derive(Debug, Clone)]
pub enum AppError {
    InvalidApiKey,
    FileTooLarge { size: usize, limit: usize },
    InvalidFile { message: String },
    RateLimitExceeded,
    ProcessingError { message: String },
    OcrError { message: String },
    Timeout,
    Internal { message: String },
    InvalidContentType,
    MissingFile,
    ValidationError { message: String },
    ConfigError { message: String },
    ServiceUnavailable { service: String },
    DatabaseError { message: String },
}

/// The stable code that names each error variant.
pub open spec fn error_code_spec(e: AppError) -> Seq<char> {
    match e {
        AppError::InvalidApiKey => "INVALID_API_KEY"@,
        AppError::FileTooLarge { .. } => "FILE_TOO_LARGE"@,
        AppError::InvalidFile { .. } => "INVALID_FILE"@,
        AppError::RateLimitExceeded => "RATE_LIMIT_EXCEEDED"@,
        AppError::ProcessingError { .. } => "PROCESSING_ERROR"@,
        AppError::OcrError { .. } => "OCR_ERROR"@,
        AppError::Timeout => "REQUEST_TIMEOUT"@,
        AppError::Internal { .. } => "INTERNAL_ERROR"@,
        AppError::InvalidContentType => "INVALID_CONTENT_TYPE"@,
        AppError::MissingFile => "MISSING_FILE"@,
        AppError::ValidationError { .. } => "VALIDATION_ERROR"@,
        AppError::ConfigError { .. } => "CONFIG_ERROR"@,
        AppError::ServiceUnavailable { .. } => "SERVICE_UNAVAILABLE"@,
        AppError::DatabaseError { .. } => "DATABASE_ERROR"@,
    }
}

/// The HTTP status number each error variant maps to.
pub open spec fn status_code_spec(e: AppError) -> u16 {
    match e {
        AppError::InvalidApiKey => 401,
        AppError::FileTooLarge { .. } => 413,
        AppError::InvalidFile { .. } => 400,
        AppError::RateLimitExceeded => 429,
        AppError::ProcessingError { .. } => 500,
        AppError::OcrError { .. } => 500,
        AppError::Timeout => 408,
        AppError::Internal { .. } => 500,
        AppError::InvalidContentType => 400,
        AppError::MissingFile => 400,
        AppError::ValidationError { .. } => 400,
        AppError::ConfigError { .. } => 500,
        AppError::ServiceUnavailable { .. } => 503,
        AppError::DatabaseError { .. } => 500,
    }
}

impl AppError {
    pub fn error_code(&self) -> (r: &'static str)
        ensures
            r@ == error_code_spec(*self),
    {
        match self {
            AppError::InvalidApiKey => "INVALID_API_KEY",
            AppError::FileTooLarge { .. } => "FILE_TOO_LARGE",
            AppError::InvalidFile { .. } => "INVALID_FILE",
            AppError::RateLimitExceeded => "RATE_LIMIT_EXCEEDED",
            AppError::ProcessingError { .. } => "PROCESSING_ERROR",
            AppError::OcrError { .. } => "OCR_ERROR",
            AppError::Timeout => "REQUEST_TIMEOUT",
            AppError::Internal { .. } => "INTERNAL_ERROR",
            AppError::InvalidContentType => "INVALID_CONTENT_TYPE",
            AppError::MissingFile => "MISSING_FILE",
            AppError::ValidationError { .. } => "VALIDATION_ERROR",
            AppError::ConfigError { .. } => "CONFIG_ERROR",
            AppError::ServiceUnavailable { .. } => "SERVICE_UNAVAILABLE",
            AppError::DatabaseError { .. } => "DATABASE_ERROR",
        }
    }

    /// The HTTP status number for this error, for the transport layer to
    /// turn into a response status.
    pub fn status_code(&self) -> (r: u16)
        ensures
            r == status_code_spec(*self),
    {
        match self {
            AppError::InvalidApiKey => 401,
            AppError::FileTooLarge { .. } => 413,
            AppError::InvalidFile { .. } => 400,
            AppError::RateLimitExceeded => 429,
            AppError::ProcessingError { .. } => 500,
            AppError::OcrError { .. } => 500,
            AppError::Timeout => 408,
            AppError::Internal { .. } => 500,
            AppError::InvalidContentType => 400,
            AppError::MissingFile => 400,
            AppError::ValidationError { .. } => 400,
            AppError::ConfigError { .. } => 500,
            AppError::ServiceUnavailable { .. } => 503,
            AppError::DatabaseError { .. } => 500,
        }
    }

    pub fn validation(message: String) -> (r: AppError)
        ensures
            r == (AppError::ValidationError { message }),
    {
        AppError::ValidationError { message }
    }

    pub fn config(message: String) -> (r: AppError)
        ensures
            r == (AppError::ConfigError { message }),
    {
        AppError::ConfigError { message }
    }

    pub fn service_unavailable(service: String) -> (r: AppError)
        ensures
            r == (AppError::ServiceUnavailable { service }),
    {
        AppError::ServiceUnavailable { service }
    }

    pub fn processing(message: String) -> (r: AppError)
        ensures
            r == (AppError::ProcessingError { message }),
    {
        AppError::ProcessingError { message }
    }

    pub fn internal(message: String) -> (r: AppError)
        ensures
            r == (AppError::Internal { message }),
    {
        AppError::Internal { message }
    }
}

} // verus!
