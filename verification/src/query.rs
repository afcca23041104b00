use vstd::prelude::*;
use crate::error::{ProviderFailure, TaskError};
use crate::extract::{extract_title, extracted_title, outcome_matches};
use crate::model::QueryResult;

verus! {

/// A query predicate restricting results to records whose named field
/// equals a literal value. Immutable once built.
#[derive(Debug)]
pub struct StatusFilter {
    pub property: String,
    pub equals: String,
}

/// Builds the one filter this library ever queries with: the "Status"
/// field must equal "In progress". Pure; the same filter value on every
/// call.
pub fn build_in_progress_filter() -> (filter: StatusFilter)
    ensures
        filter.property@ == "Status"@,
        filter.equals@ == "In progress"@,
{
    StatusFilter { property: "Status".to_owned(), equals: "In progress".to_owned() }
}

/// What the in-progress lookup yields for each outcome of the remote
/// call: a failed call surfaces the provider's own description; an empty
/// result sequence is the fixed not-found message; otherwise the first
/// record's extraction, verbatim.
pub open spec fn resolved_outcome(
    remote: Result<QueryResult, ProviderFailure>,
) -> Result<Seq<char>, Seq<char>> {
    match remote {
        Err(failure) => Err(failure.description@),
        Ok(response) => {
            if response.results@.len() == 0 {
                Err("Unable to find an in progress status"@)
            } else {
                extracted_title(response.results@.first())
            }
        },
    }
}

/// Resolves one remote query outcome into the task title or a normalized
/// error. The caller issues exactly one query, filtered by
/// `build_in_progress_filter`, with no sort and no paging, and hands the
/// result here untouched; no retry happens on either side. Only the first
/// record is consulted.
pub fn find_in_progress_task(
    remote: Result<QueryResult, ProviderFailure>,
) -> (found: Result<String, TaskError>)
    ensures
        outcome_matches(found, resolved_outcome(remote)),
{
    match remote {
        Err(failure) => Err(TaskError::from_provider(failure)),
        Ok(response) => {
            if response.results.len() == 0 {
                Err(TaskError::from_text("Unable to find an in progress status"))
            } else {
                extract_title(&response.results[0])
            }
        },
    }
}

/// Every failure surfaced past the boundary carries a human-readable,
/// non-empty message: the fixed messages of this library are all
/// non-empty, and a provider failure passes its own description through,
/// so the message is empty only if the provider's description was.
pub proof fn lemma_error_message_never_empty(remote: Result<QueryResult, ProviderFailure>)
    requires
        remote matches Err(failure) ==> failure.description@.len() > 0,
    ensures
        resolved_outcome(remote) matches Err(message) ==> message.len() > 0,
{
    reveal_strlit("Unable to find an in progress status");
    reveal_strlit("Unable to find a Name on struct");
    reveal_strlit("No title for item!");
    reveal_strlit("Name property is not a title");
    reveal_strlit("Title element is not plain text");
}

} // verus!
