//! The fallible listing calls: marshaling of what the engine answers
//! to an index, search or chapter-fetch request.  Engine failures are
//! caught here, recorded in the error channel with the reason text
//! preserved verbatim, and reported through the call's own failure
//! signal; they never unwind past the boundary.  Successful calls
//! never touch the channel.

use vstd::prelude::*;
use crate::error::BoundaryError;
use crate::error::ErrorChannel;
use crate::flat::CArray;
use crate::models::ComicModel;
use crate::models::comic_model_wf;
use crate::structs::Comic;
use crate::structs::comic_array_from_models;
use crate::structs::comic_array_matches;
use crate::structs::comic_matches;

verus! {

/// Marshal the engine's answer to a one-page listing request: on
/// success the comic list crosses as a flat array, on failure the
/// channel records the engine's reason and the call reports failure.
pub fn index(chan: &mut ErrorChannel, outcome: Result<Vec<ComicModel>, Vec<u8>>) -> (r: Result<
    CArray<Comic>,
    BoundaryError,
>)
    requires
        outcome matches Ok(comics) ==> forall|i: int|
            0 <= i < comics@.len() ==> comic_model_wf(#[trigger] comics@[i]),
    ensures
        match outcome {
            Ok(comics) => {
                &&& r matches Ok(a)
                &&& comic_array_matches(a, comics@)
                &&& a.has_block()
                &&& final(chan).state() == old(chan).state()
            },
            Err(msg) => {
                &&& r matches Err(e) && e == BoundaryError::EngineFailure
                &&& final(chan).state() == Some(msg@)
            },
        },
{
    match outcome {
        Ok(comics) => Ok(comic_array_from_models(&comics)),
        Err(msg) => {
            chan.update_last_error(msg);
            Err(BoundaryError::EngineFailure)
        },
    }
}

/// Marshal the engine's answer to a keyword search; the reporting
/// convention is the same as for a listing request.
pub fn search(chan: &mut ErrorChannel, outcome: Result<Vec<ComicModel>, Vec<u8>>) -> (r: Result<
    CArray<Comic>,
    BoundaryError,
>)
    requires
        outcome matches Ok(comics) ==> forall|i: int|
            0 <= i < comics@.len() ==> comic_model_wf(#[trigger] comics@[i]),
    ensures
        match outcome {
            Ok(comics) => {
                &&& r matches Ok(a)
                &&& comic_array_matches(a, comics@)
                &&& a.has_block()
                &&& final(chan).state() == old(chan).state()
            },
            Err(msg) => {
                &&& r matches Err(e) && e == BoundaryError::EngineFailure
                &&& final(chan).state() == Some(msg@)
            },
        },
{
    match outcome {
        Ok(comics) => Ok(comic_array_from_models(&comics)),
        Err(msg) => {
            chan.update_last_error(msg);
            Err(BoundaryError::EngineFailure)
        },
    }
}

/// Marshal the engine's answer to a chapter fetch: on success the
/// filled comic crosses as one flat record, its chapter list as an
/// explicit (possibly empty) array; on failure the channel records
/// the engine's reason and the call reports failure.
pub fn chapters(chan: &mut ErrorChannel, outcome: Result<ComicModel, Vec<u8>>) -> (r: Result<
    Comic,
    BoundaryError,
>)
    requires
        outcome matches Ok(m) ==> comic_model_wf(m),
    ensures
        match outcome {
            Ok(m) => {
                &&& r matches Ok(c)
                &&& comic_matches(c, m)
                &&& final(chan).state() == old(chan).state()
            },
            Err(msg) => {
                &&& r matches Err(e) && e == BoundaryError::EngineFailure
                &&& final(chan).state() == Some(msg@)
            },
        },
{
    match outcome {
        Ok(m) => Ok(Comic::from_model(&m)),
        Err(msg) => {
            chan.update_last_error(msg);
            Err(BoundaryError::EngineFailure)
        },
    }
}

} // verus!
