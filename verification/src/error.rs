use vstd::prelude::*;

verus! {

/// The single normalized failure shape surfaced past the library boundary.
/// Every failure, of any kind, is funnelled into this one form; the message
/// is meant for a human and is never empty for failures this library builds.
#[derive(Debug)]
pub struct TaskError {
    pub message: String,
}

/// What the library sees of a failed remote call: the provider's own textual
/// description of the failure. The raw provider value stays with the caller,
/// which may record it for diagnostics before converting.
#[derive(Debug)]
pub struct ProviderFailure {
    pub description: String,
}

impl TaskError {
    /// Normalizes a provider-level failure: its description becomes the
    /// message, unchanged.
    pub fn from_provider(failure: ProviderFailure) -> (error: TaskError)
        ensures
            error.message@ == failure.description@,
    {
        TaskError { message: failure.description }
    }

    /// Normalizes a plain descriptive string: it becomes the message,
    /// unchanged.
    pub fn from_text(text: &str) -> (error: TaskError)
        ensures
            error.message@ == text@,
    {
        TaskError { message: text.to_owned() }
    }
}

} // verus!
