use vstd::prelude::*;

verus! {

/// The kinds of failure the service reports, without their messages.
#[derive(Debug, Clone, Copy, PartialEq, Eq, Structural)]
pub enum ErrorKind {
    InvalidHash,
    DownloadFailed,
    DownloadTooLarge,
    ImageDecodeFailed,
    ModelMetadata,
    InferenceFailed,
    Internal,
}

/// An error of the service, with a human-readable message.
#[derive(Debug)]
pub enum AppError {
    InvalidHash(String),
    DownloadFailed(String),
    DownloadTooLarge(String),
    ImageDecodeFailed(String),
    ModelMetadata(String),
    InferenceFailed(String),
    Internal(String),
}

/// The HTTP status with which an error of the given kind is answered.
pub open spec fn kind_status(kind: ErrorKind) -> u16 {
    match kind {
        ErrorKind::InvalidHash => 400,
        ErrorKind::DownloadFailed => 502,
        ErrorKind::DownloadTooLarge => 413,
        ErrorKind::ImageDecodeFailed => 422,
        ErrorKind::ModelMetadata => 500,
        ErrorKind::InferenceFailed => 500,
        ErrorKind::Internal => 500,
    }
}

/// A malformed hash is the client's error (400); a failed CDN download is a
/// bad gateway (502); an oversized download is too large (413); an image that
/// cannot be decoded is unprocessable (422); failures of the service itself
/// (model metadata, inference, internal) are server errors (500).
pub proof fn lemma_status_codes()
    ensures
        kind_status(ErrorKind::InvalidHash) == 400,
        kind_status(ErrorKind::DownloadFailed) == 502,
        kind_status(ErrorKind::DownloadTooLarge) == 413,
        kind_status(ErrorKind::ImageDecodeFailed) == 422,
        kind_status(ErrorKind::ModelMetadata) == 500,
        kind_status(ErrorKind::InferenceFailed) == 500,
        kind_status(ErrorKind::Internal) == 500,
{
}

impl AppError {
    pub open spec fn kind(&self) -> ErrorKind {
        match self {
            AppError::InvalidHash(_) => ErrorKind::InvalidHash,
            AppError::DownloadFailed(_) => ErrorKind::DownloadFailed,
            AppError::DownloadTooLarge(_) => ErrorKind::DownloadTooLarge,
            AppError::ImageDecodeFailed(_) => ErrorKind::ImageDecodeFailed,
            AppError::ModelMetadata(_) => ErrorKind::ModelMetadata,
            AppError::InferenceFailed(_) => ErrorKind::InferenceFailed,
            AppError::Internal(_) => ErrorKind::Internal,
        }
    }

    pub open spec fn msg(&self) -> Seq<char> {
        match self {
            AppError::InvalidHash(m) => m@,
            AppError::DownloadFailed(m) => m@,
            AppError::DownloadTooLarge(m) => m@,
            AppError::ImageDecodeFailed(m) => m@,
            AppError::ModelMetadata(m) => m@,
            AppError::InferenceFailed(m) => m@,
            AppError::Internal(m) => m@,
        }
    }

    /// Builds the error of the given kind carrying `message`.
    pub fn new(kind: ErrorKind, message: String) -> (e: AppError)
        ensures
            e.kind() == kind,
            e.msg() == message@,
    {
        match kind {
            ErrorKind::InvalidHash => AppError::InvalidHash(message),
            ErrorKind::DownloadFailed => AppError::DownloadFailed(message),
            ErrorKind::DownloadTooLarge => AppError::DownloadTooLarge(message),
            ErrorKind::ImageDecodeFailed => AppError::ImageDecodeFailed(message),
            ErrorKind::ModelMetadata => AppError::ModelMetadata(message),
            ErrorKind::InferenceFailed => AppError::InferenceFailed(message),
            ErrorKind::Internal => AppError::Internal(message),
        }
    }

    /// The kind of this error.
    pub fn error_kind(&self) -> (k: ErrorKind)
        ensures
            k == self.kind(),
    {
        match self {
            AppError::InvalidHash(_) => ErrorKind::InvalidHash,
            AppError::DownloadFailed(_) => ErrorKind::DownloadFailed,
            AppError::DownloadTooLarge(_) => ErrorKind::DownloadTooLarge,
            AppError::ImageDecodeFailed(_) => ErrorKind::ImageDecodeFailed,
            AppError::ModelMetadata(_) => ErrorKind::ModelMetadata,
            AppError::InferenceFailed(_) => ErrorKind::InferenceFailed,
            AppError::Internal(_) => ErrorKind::Internal,
        }
    }

    /// The message carried by this error.
    pub fn message(&self) -> (m: &String)
        ensures
            m@ == self.msg(),
    {
        match self {
            AppError::InvalidHash(m) => m,
            AppError::DownloadFailed(m) => m,
            AppError::DownloadTooLarge(m) => m,
            AppError::ImageDecodeFailed(m) => m,
            AppError::ModelMetadata(m) => m,
            AppError::InferenceFailed(m) => m,
            AppError::Internal(m) => m,
        }
    }

    /// The HTTP status code with which this error is answered.
    pub fn status_code(&self) -> (code: u16)
        ensures
            code == kind_status(self.kind()),
    {
        match self {
            AppError::InvalidHash(_) => 400,
            AppError::DownloadFailed(_) => 502,
            AppError::DownloadTooLarge(_) => 413,
            AppError::ImageDecodeFailed(_) => 422,
            AppError::ModelMetadata(_) => 500,
            AppError::InferenceFailed(_) => 500,
            AppError::Internal(_) => 500,
        }
    }
}

} // verus!
