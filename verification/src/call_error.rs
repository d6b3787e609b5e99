//! Errors reported when one contract calls another.

use vstd::prelude::*;

verus! {

/// Return code of a call whose callee succeeded.
pub const CALL_ERROR_CALLEE_SUCCEEDED: u32 = 0;
/// Return code of a call whose callee reverted.
pub const CALL_ERROR_CALLEE_REVERTED: u32 = 1;
/// Return code of a call whose callee trapped.
pub const CALL_ERROR_CALLEE_TRAPPED: u32 = 2;
/// Return code of a call whose callee ran out of gas.
pub const CALL_ERROR_CALLEE_GAS_DEPLETED: u32 = 3;
/// Return code of a call whose callee cannot be called.
pub const CALL_ERROR_CALLEE_NOT_CALLABLE: u32 = 4;

/// Why a call to another contract failed.
#[derive(Debug, Copy, Clone, PartialEq, Eq, Structural)]
pub enum CallError {
    CalleeReverted,
    CalleeTrapped,
    CalleeGasDepleted,
    NotCallable,
}

/// The error that a call's return code stands for; none for success and for
/// unknown codes.
pub open spec fn call_error_of(code: u32) -> Option<CallError> {
    if code == CALL_ERROR_CALLEE_REVERTED {
        Some(CallError::CalleeReverted)
    } else if code == CALL_ERROR_CALLEE_TRAPPED {
        Some(CallError::CalleeTrapped)
    } else if code == CALL_ERROR_CALLEE_GAS_DEPLETED {
        Some(CallError::CalleeGasDepleted)
    } else if code == CALL_ERROR_CALLEE_NOT_CALLABLE {
        Some(CallError::NotCallable)
    } else {
        None
    }
}

impl CallError {
    /// Decodes a call's return code; `Err` for success and unknown codes.
    pub fn try_from_code(value: u32) -> (r: Result<CallError, ()>)
        ensures
            match call_error_of(value) {
                Some(e) => r == Ok::<CallError, ()>(e),
                None => r == Err::<CallError, ()>(()),
            },
    {
        if value == CALL_ERROR_CALLEE_REVERTED {
            Ok(CallError::CalleeReverted)
        } else if value == CALL_ERROR_CALLEE_TRAPPED {
            Ok(CallError::CalleeTrapped)
        } else if value == CALL_ERROR_CALLEE_GAS_DEPLETED {
            Ok(CallError::CalleeGasDepleted)
        } else if value == CALL_ERROR_CALLEE_NOT_CALLABLE {
            Ok(CallError::NotCallable)
        } else {
            Err(())
        }
    }

    /// The return code that stands for this error.
    pub fn code(&self) -> (r: u32)
        ensures
            call_error_of(r) == Some(*self),
    {
        match self {
            CallError::CalleeReverted => CALL_ERROR_CALLEE_REVERTED,
            CallError::CalleeTrapped => CALL_ERROR_CALLEE_TRAPPED,
            CallError::CalleeGasDepleted => CALL_ERROR_CALLEE_GAS_DEPLETED,
            CallError::NotCallable => CALL_ERROR_CALLEE_NOT_CALLABLE,
        }
    }

    /// The error's human-readable description.
    pub fn message(&self) -> (r: &'static str)
        ensures
            r@ == (match *self {
                CallError::CalleeReverted => "callee reverted"@,
                CallError::CalleeTrapped => "callee trapped"@,
                CallError::CalleeGasDepleted => "callee gas depleted"@,
                CallError::NotCallable => "not callable"@,
            }),
    {
        match self {
            CallError::CalleeReverted => "callee reverted",
            CallError::CalleeTrapped => "callee trapped",
            CallError::CalleeGasDepleted => "callee gas depleted",
            CallError::NotCallable => "not callable",
        }
    }
}

/// Decoding a call error's code gives the error back.
pub proof fn law_call_error_code_round_trip(e: CallError)
    ensures
        call_error_of(match e {
            CallError::CalleeReverted => CALL_ERROR_CALLEE_REVERTED,
            CallError::CalleeTrapped => CALL_ERROR_CALLEE_TRAPPED,
            CallError::CalleeGasDepleted => CALL_ERROR_CALLEE_GAS_DEPLETED,
            CallError::NotCallable => CALL_ERROR_CALLEE_NOT_CALLABLE,
        }) == Some(e),
{
}

} // verus!
