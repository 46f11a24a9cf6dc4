//! What can go wrong once the transport has brought an answer.
use vstd::prelude::*;

verus! {

/// Why an answer gave no result.
#[derive(Clone, Copy, Debug, PartialEq, Eq)]
pub enum Error {
    /// The server answered with a status outside the success range; the body
    /// was not looked at.
    Status(u16),
    /// The body does not have the shape that the operation's result has.
    Decode,
}

/// Whether a status code is in the success range, 200 to 299.
pub open spec fn is_success(status: u16) -> bool {
    200 <= status <= 299
}

/// Accepts a status in the success range and turns any other into
/// [`Error::Status`], which carries the code.
pub fn check_status(status: u16) -> (checked: Result<(), Error>)
    ensures
        is_success(status) ==> checked == Ok::<(), Error>(()),
        !is_success(status) ==> checked == Err::<(), Error>(Error::Status(status)),
{
    if 200 <= status && status <= 299 {
        Ok(())
    } else {
        Err(Error::Status(status))
    }
}

} // verus!
