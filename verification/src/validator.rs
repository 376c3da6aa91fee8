//! The checks that come before anything is changed: are both paths given,
//! is the source there, is the destination free.

use vstd::prelude::*;
use crate::outcome::{ConflictState, EngineError, ErrorModel};

verus! {

/// Whether both paths were given.
pub open spec fn both_given(source: Seq<char>, destination: Seq<char>) -> bool {
    source.len() > 0 && destination.len() > 0
}

/// The error that validation finds, if any: an empty path comes before a
/// source that is not there.
pub open spec fn validation_error(
    source: Seq<char>,
    destination: Seq<char>,
    source_exists: bool,
) -> Option<ErrorModel> {
    if !both_given(source, destination) {
        Some(ErrorModel::MissingInput)
    } else if !source_exists {
        Some(ErrorModel::SourceNotFound)
    } else {
        None
    }
}

/// What a destination that exists, or does not, means for the request.
pub open spec fn conflict_of(destination_exists: bool) -> ConflictState {
    if destination_exists {
        ConflictState::DestinationExists
    } else {
        ConflictState::NoConflict
    }
}

/// Whether both paths were given.
pub fn inputs_present(source: &str, destination: &str) -> (present: bool)
    ensures
        present == both_given(source@, destination@),
{
    !source.is_empty() && !destination.is_empty()
}

/// Validates a request, given whether its source exists. A destination that
/// does not exist is no error.
pub fn validate(source: &str, destination: &str, source_exists: bool) -> (verdict: Result<
    (),
    EngineError,
>)
    ensures
        match validation_error(source@, destination@, source_exists) {
            Some(error) => verdict is Err && verdict->Err_0@ == error,
            None => verdict is Ok,
        },
{
    if !inputs_present(source, destination) {
        Err(EngineError::MissingInput)
    } else if !source_exists {
        Err(EngineError::SourceNotFound)
    } else {
        Ok(())
    }
}

/// Decides whether the link can be made at once or a merge has to be offered.
pub fn resolve(destination_exists: bool) -> (state: ConflictState)
    ensures
        state == conflict_of(destination_exists),
{
    if destination_exists {
        ConflictState::DestinationExists
    } else {
        ConflictState::NoConflict
    }
}

} // verus!
