use vstd::prelude::*;

verus! {

/// What a JNI entry point returns to Java: `None` (a null string) on
/// success, the error message on failure.
pub open spec fn call_result_spec<T>(outcome: Result<T, String>) -> Option<String> {
    match outcome {
        Ok(_) => None,
        Err(e) => Some(e),
    }
}

/// Turns the outcome of a JNI call into the value handed back to Java:
/// null on success, the error message on failure.
pub fn finish_call<T>(outcome: Result<T, String>) -> (r: Option<String>)
    ensures
        r == call_result_spec(outcome),
{
    match outcome {
        Ok(_) => None,
        Err(e) => Some(e),
    }
}

/// Completes a JNI call that answers through a single-element `out` array.
///
/// On success the value is stored in `out` and null is returned; on failure
/// the error message is returned and `out` is left as it was.
pub fn deliver<T>(outcome: Result<T, String>, out: &mut Option<T>) -> (r: Option<String>)
    ensures
        r == call_result_spec(outcome),
        match outcome {
            Ok(v) => *final(out) == Some(v),
            Err(_) => *final(out) == *old(out),
        },
{
    match outcome {
        Ok(v) => {
            *out = Some(v);
            None
        },
        Err(e) => Some(e),
    }
}

/// Completes a JNI call that answers with a status code (a publisher's put
/// and delete): 0 on success; -1 on failure, with the message stored in the
/// single-element `error_out` array, which success leaves as it was.
pub fn finish_with_status(outcome: Result<(), String>, error_out: &mut Option<String>) -> (r: i32)
    ensures
        match outcome {
            Ok(_) => r == 0 && *final(error_out) == *old(error_out),
            Err(e) => r == -1 && *final(error_out) == Some(e),
        },
{
    match outcome {
        Ok(_) => 0,
        Err(e) => {
            *error_out = Some(e);
            -1
        },
    }
}

} // verus!
