use vstd::prelude::*;
use crate::error::TaskError;

verus! {

/// The process-wide, read-only configuration the query service needs:
/// the API credential and the identifier of the database to query.
/// Built once at startup and never mutated.
#[derive(Debug)]
pub struct TaskConfig {
    pub api_key: String,
    pub database_id: String,
}

/// Validates the startup inputs the environment supplied. Both are
/// required: a missing credential or a missing database identifier is a
/// fatal configuration error, reported with the exact message the host
/// logs before exiting; nothing here is recovered from or defaulted.
pub fn validate_config(
    api_key: Option<String>,
    database_id: Option<String>,
) -> (outcome: Result<TaskConfig, TaskError>)
    ensures
        match outcome {
            Ok(config) => {
                &&& api_key matches Some(key) && config.api_key == key
                &&& database_id matches Some(id) && config.database_id == id
            },
            Err(error) => {
                ||| api_key is None && error.message@ == "NOTION_KEY not provided!"@
                ||| api_key is Some && database_id is None && error.message@
                    == "NOTION_DATABASE_ID not provided!"@
            },
        },
{
    match api_key {
        None => Err(TaskError::from_text("NOTION_KEY not provided!")),
        Some(key) => match database_id {
            None => Err(TaskError::from_text("NOTION_DATABASE_ID not provided!")),
            Some(id) => Ok(TaskConfig { api_key: key, database_id: id }),
        },
    }
}

} // verus!
