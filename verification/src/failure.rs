//! The outcome type of every check.

use vstd::prelude::*;

verus! {

/// A check that did not hold, with the message that says which.
#[derive(Debug)]
pub struct Failure {
    pub message: String,
}

/// The result of a check.
pub type Checked<T> = Result<T, Failure>;

pub fn failure(message: &str) -> (r: Failure)
    ensures
        r.message@ == message@,
{
    Failure { message: message.to_owned() }
}

/// Whether a check failed with exactly this message.
pub open spec fn failed<T>(r: Checked<T>, message: Seq<char>) -> bool {
    r matches Err(f) && f.message@ == message
}

/// Succeeds where the condition holds, and fails with the message where it does not.
pub fn ensure(condition: bool, message: &str) -> (r: Checked<()>)
    ensures
        r is Ok <==> condition,
        !condition ==> failed(r, message@),
{
    if condition {
        Ok(())
    } else {
        Err(failure(message))
    }
}

} // verus!
