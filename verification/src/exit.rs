//! How `qgui run` ends once the program that it ran has ended.

use vstd::prelude::*;

verus! {

/// How to end.
#[derive(Clone, Copy, Debug, PartialEq, Eq, Structural)]
pub enum ExitDecision {
    /// All went well.
    Success,
    /// End with this code.
    Exit(i32),
    /// Report that the program failed.
    Failed,
}

/// The code with which to end for a program that did not succeed: its own code,
/// or the number of the signal that ended it above 128, as shells do it.
pub open spec fn exit_decision(
    success: bool,
    code: Option<i32>,
    signal: Option<i32>,
) -> ExitDecision {
    if success {
        ExitDecision::Success
    } else {
        match (code, signal) {
            (Some(code), _) => ExitDecision::Exit(code),
            (None, Some(signal)) => ExitDecision::Exit((128 + signal) as i32),
            (None, None) => ExitDecision::Failed,
        }
    }
}

/// How to end for a program that succeeded or not, with the code that it ended
/// with or the signal that ended it.
pub fn exit_with_status(success: bool, code: Option<i32>, signal: Option<i32>) -> (r: ExitDecision)
    requires
        !success && code is None && signal is Some ==> signal->0 <= i32::MAX - 128,
    ensures
        r == exit_decision(success, code, signal),
{
    if success {
        return ExitDecision::Success;
    }
    if let Some(code) = code {
        return ExitDecision::Exit(code);
    }
    if let Some(signal) = signal {
        return ExitDecision::Exit(128 + signal);
    }
    ExitDecision::Failed
}

/// A program that did not succeed is never passed off as one that did: it ends
/// with a code other than zero, given that its own code is not zero and that
/// signals have positive numbers, or with an error.
pub proof fn law_failure_is_passed_on(code: Option<i32>, signal: Option<i32>)
    requires
        code != Some(0i32),
        signal is Some ==> 0 < signal->0 <= i32::MAX - 128,
    ensures
        exit_decision(false, code, signal) != ExitDecision::Success,
        exit_decision(false, code, signal) != ExitDecision::Exit(0),
{
}

/// A program that succeeds ends `qgui run` well, whatever else is known of it.
pub proof fn law_success_is_passed_on(code: Option<i32>, signal: Option<i32>, r: ExitDecision)
    requires
        call_ensures(exit_with_status, (true, code, signal), r),
    ensures
        r == ExitDecision::Success,
{
}

/// The code that a program ended with is passed on unchanged, whether or not a
/// signal is known too, so that different codes lead to different ends.
pub proof fn law_code_is_passed_on(
    a: i32,
    b: i32,
    signal: Option<i32>,
    ra: ExitDecision,
    rb: ExitDecision,
)
    requires
        call_ensures(exit_with_status, (false, Some(a), signal), ra),
        call_ensures(exit_with_status, (false, Some(b), signal), rb),
    ensures
        ra == ExitDecision::Exit(a),
        ra == rb ==> a == b,
{
}

/// A program that a signal ended, and that has no code, ends `qgui run` with the
/// number of the signal on top of 128; where neither is known, it is an error.
pub proof fn law_signal_is_passed_on(signal: i32, r: ExitDecision, unknown: ExitDecision)
    requires
        signal <= i32::MAX - 128,
        call_ensures(exit_with_status, (false, None::<i32>, Some(signal)), r),
        call_ensures(exit_with_status, (false, None::<i32>, None::<i32>), unknown),
    ensures
        r is Exit,
        r->Exit_0 - signal == 128,
        unknown == ExitDecision::Failed,
{
}

} // verus!
