//! The typed call surface: each plugin entry point replies with a numeric
//! code, and these interpreters map every code to a typed result, exactly as
//! the call's documented contract states. A code outside the contract is an
//! `UnexpectedResult` error, never a silently accepted outcome.

use vstd::prelude::*;

use crate::error::{CuckooMinerError, ParameterFailure, ParameterRejection};

verus! {

/// The reply of the parameter-list call when it did not fail.
#[derive(Clone, Copy, Debug, PartialEq, Eq, Structural)]
pub enum ParameterListReply {
    /// Code 0: the list was written into the caller's buffer.
    Written,
    /// Code 3: the buffer was too small; the caller retries with a larger one.
    BufferTooSmall,
}

/// Maps the synchronous solve reply: 1 is a found solution, 0 none, and any
/// other code is outside the contract.
pub fn solve_outcome(raw: u32) -> (r: Result<bool, CuckooMinerError>)
    ensures
        raw == 1 ==> r == Ok::<bool, CuckooMinerError>(true),
        raw == 0 ==> r == Ok::<bool, CuckooMinerError>(false),
        raw != 0 && raw != 1 ==> r == Err::<bool, CuckooMinerError>(
            CuckooMinerError::UnexpectedResult(raw),
        ),
{
    if raw == 1 {
        Ok(true)
    } else if raw == 0 {
        Ok(false)
    } else {
        Err(CuckooMinerError::UnexpectedResult(raw))
    }
}

/// The reason the set-parameter reply code names.
pub open spec fn spec_rejection_of(raw: u32) -> ParameterRejection {
    if raw == 1 {
        ParameterRejection::NotFound
    } else if raw == 2 {
        ParameterRejection::OutOfRange
    } else {
        ParameterRejection::Unknown(raw)
    }
}

/// Maps the set-parameter reply: 0 is accepted; 1 (no such parameter),
/// 2 (value out of range) and any other non-zero code reject the setting,
/// with the plugin-reported reason carried in the error.
pub fn set_parameter_outcome(name: &str, value: u32, raw: u32) -> (r: Result<
    (),
    CuckooMinerError,
>)
    ensures
        raw == 0 ==> r == Ok::<(), CuckooMinerError>(()),
        raw != 0 ==> (r matches Err(e) && e matches CuckooMinerError::ParameterError(f)
            && f.name@ == name@ && f.value == value && f.reason == spec_rejection_of(raw)),
{
    if raw == 0 {
        Ok(())
    } else {
        let reason = if raw == 1 {
            ParameterRejection::NotFound
        } else if raw == 2 {
            ParameterRejection::OutOfRange
        } else {
            ParameterRejection::Unknown(raw)
        };
        Err(
            CuckooMinerError::ParameterError(
                ParameterFailure { name: name.to_owned(), value, reason },
            ),
        )
    }
}

/// Maps the get-parameter reply: 0 hands back the out-value, 1 means the
/// parameter does not exist, and any other code is outside the contract.
pub fn get_parameter_outcome(name: &str, raw: u32, value: u32) -> (r: Result<
    u32,
    CuckooMinerError,
>)
    ensures
        raw == 0 ==> r == Ok::<u32, CuckooMinerError>(value),
        raw == 1 ==> (r matches Err(e) && e matches CuckooMinerError::ParameterError(f)
            && f.name@ == name@ && f.value == 0 && f.reason == ParameterRejection::NotFound),
        raw != 0 && raw != 1 ==> r == Err::<u32, CuckooMinerError>(
            CuckooMinerError::UnexpectedResult(raw),
        ),
{
    if raw == 0 {
        Ok(value)
    } else if raw == 1 {
        Err(
            CuckooMinerError::ParameterError(
                ParameterFailure {
                    name: name.to_owned(),
                    value: 0,
                    reason: ParameterRejection::NotFound,
                },
            ),
        )
    } else {
        Err(CuckooMinerError::UnexpectedResult(raw))
    }
}

/// Maps the parameter-list reply: 0 means the list was written, 3 means the
/// buffer was too small and the caller must retry with a larger one, and any
/// other code is outside the contract.
pub fn parameter_list_outcome(raw: u32) -> (r: Result<ParameterListReply, CuckooMinerError>)
    ensures
        raw == 0 ==> r == Ok::<ParameterListReply, CuckooMinerError>(ParameterListReply::Written),
        raw == 3 ==> r == Ok::<ParameterListReply, CuckooMinerError>(
            ParameterListReply::BufferTooSmall,
        ),
        raw != 0 && raw != 3 ==> r == Err::<ParameterListReply, CuckooMinerError>(
            CuckooMinerError::UnexpectedResult(raw),
        ),
{
    if raw == 0 {
        Ok(ParameterListReply::Written)
    } else if raw == 3 {
        Ok(ParameterListReply::BufferTooSmall)
    } else {
        Err(CuckooMinerError::UnexpectedResult(raw))
    }
}

/// Maps the queue-capacity reply: 1 means the input queue can accept more
/// work, 0 means it is full, and any other code is outside the contract.
pub fn queue_capacity_outcome(raw: u32) -> (r: Result<bool, CuckooMinerError>)
    ensures
        raw == 1 ==> r == Ok::<bool, CuckooMinerError>(true),
        raw == 0 ==> r == Ok::<bool, CuckooMinerError>(false),
        raw != 0 && raw != 1 ==> r == Err::<bool, CuckooMinerError>(
            CuckooMinerError::UnexpectedResult(raw),
        ),
{
    if raw == 1 {
        Ok(true)
    } else if raw == 0 {
        Ok(false)
    } else {
        Err(CuckooMinerError::UnexpectedResult(raw))
    }
}

/// Maps the input-queue push reply: 1 means the candidate was accepted,
/// 0 means it was rejected (queue full or shutting down, flow control rather
/// than a failure), and any other code is outside the contract.
pub fn push_outcome(raw: u32) -> (r: Result<bool, CuckooMinerError>)
    ensures
        raw == 1 ==> r == Ok::<bool, CuckooMinerError>(true),
        raw == 0 ==> r == Ok::<bool, CuckooMinerError>(false),
        raw != 0 && raw != 1 ==> r == Err::<bool, CuckooMinerError>(
            CuckooMinerError::UnexpectedResult(raw),
        ),
{
    if raw == 1 {
        Ok(true)
    } else if raw == 0 {
        Ok(false)
    } else {
        Err(CuckooMinerError::UnexpectedResult(raw))
    }
}

/// Maps the output-queue read reply: 1 means a solution was popped into the
/// caller's buffers, 0 means the queue was empty, and any other code is
/// outside the contract.
pub fn read_output_outcome(raw: u32) -> (r: Result<bool, CuckooMinerError>)
    ensures
        raw == 1 ==> r == Ok::<bool, CuckooMinerError>(true),
        raw == 0 ==> r == Ok::<bool, CuckooMinerError>(false),
        raw != 0 && raw != 1 ==> r == Err::<bool, CuckooMinerError>(
            CuckooMinerError::UnexpectedResult(raw),
        ),
{
    if raw == 1 {
        Ok(true)
    } else if raw == 0 {
        Ok(false)
    } else {
        Err(CuckooMinerError::UnexpectedResult(raw))
    }
}

/// Maps the start-processing reply: 1 means asynchronous processing started;
/// any other code is a processing failure, fatal to the job being started.
pub fn start_processing_outcome(raw: u32) -> (r: Result<(), CuckooMinerError>)
    ensures
        raw == 1 ==> r == Ok::<(), CuckooMinerError>(()),
        raw != 1 ==> r == Err::<(), CuckooMinerError>(CuckooMinerError::ProcessingError),
{
    if raw == 1 {
        Ok(())
    } else {
        Err(CuckooMinerError::ProcessingError)
    }
}

/// Maps the stop-processing reply: 1 acknowledges the stop request; any
/// other code is a processing failure. The request is best-effort either
/// way: the plugin is expected, not guaranteed, to cease shortly after.
pub fn stop_processing_outcome(raw: u32) -> (r: Result<(), CuckooMinerError>)
    ensures
        raw == 1 ==> r == Ok::<(), CuckooMinerError>(()),
        raw != 1 ==> r == Err::<(), CuckooMinerError>(CuckooMinerError::ProcessingError),
{
    if raw == 1 {
        Ok(())
    } else {
        Err(CuckooMinerError::ProcessingError)
    }
}

} // verus!
