//! Errors that the verified core reports to its callers.
//!
//! Stage failures inside the ingestion pipeline are surfaced through the
//! progress-event stream instead; these variants cover the structured
//! failures returned before or outside of streaming.

use vstd::prelude::*;

verus! {

/// Structured failure of a core operation.
#[derive(Debug)]
pub enum AppError {
    /// The identifier names no committed storage record.
    MaterialNotFound(String),
    /// A metadata row carried a media-type discriminator that is neither
    /// the video nor the image tag.
    WrongMaterialType(u16),
    /// The configured mount path cannot be safely joined into a URL
    /// without percent-encoding.
    InvalidUriPath(String),
    /// The duration probe's output did not carry a positive duration.
    InvalidDuration(String),
}

impl AppError {
    /// Which identifier or path the error reports, for callers that need
    /// the offending value back.
    pub fn detail(&self) -> (r: &str)
        ensures
            self matches AppError::MaterialNotFound(id) ==> r@ == id@,
            self matches AppError::InvalidUriPath(p) ==> r@ == p@,
            self matches AppError::InvalidDuration(o) ==> r@ == o@,
            self matches AppError::WrongMaterialType(_) ==> r@ =~= Seq::<char>::empty(),
    {
        match self {
            AppError::MaterialNotFound(id) => id.as_str(),
            AppError::InvalidUriPath(p) => p.as_str(),
            AppError::InvalidDuration(o) => o.as_str(),
            AppError::WrongMaterialType(_) => {
                proof {
                    reveal_strlit("");
                }
                ""
            },
        }
    }
}

/// Result alias used across the verified core.
pub type AppResult<T> = Result<T, AppError>;

} // verus!
