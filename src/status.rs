use vstd::prelude::*;

verus! {

/// The call completed.
pub const SUCCESS: i32 = 0;
/// The spatial bounds of a reference space are not known yet.
pub const SPACE_BOUNDS_UNAVAILABLE: i32 = 7;
/// A buffer handed to the runtime was too small for the data it had to return.
pub const ERROR_SIZE_INSUFFICIENT: i32 = -11;
/// The session is not in the stopping state, so it cannot be ended.
pub const ERROR_SESSION_NOT_STOPPING: i32 = -29;
/// A frame-cycle call came out of order.
pub const ERROR_CALL_ORDER_INVALID: i32 = -37;

/// Zero and positive codes report success; negative codes report a failure.
pub open spec fn is_success(code: i32) -> bool {
    code >= 0
}

/// Why an operation failed.
#[derive(Clone, Copy, Debug, PartialEq, Eq, Structural)]
pub enum Error {
    /// The runtime answered with this failure code.
    Runtime(i32),
    /// The runtime returned text that is not valid UTF-8.
    MalformedText,
    /// A name does not fit in its fixed-capacity field.
    NameTooLong,
    /// The call needs an extension the instance was not created with.
    ExtensionNotEnabled,
    /// The runtime reported success with more elements than the buffer it
    /// was handed now holds.
    InvalidCount,
}

/// Turns a native status code into a `Result`, keeping the code on both sides.
pub fn cvt(code: i32) -> (r: Result<i32, Error>)
    ensures
        is_success(code) ==> r == Ok::<i32, Error>(code),
        !is_success(code) ==> r == Err::<i32, Error>(Error::Runtime(code)),
{
    if code >= 0 {
        Ok(code)
    } else {
        Err(Error::Runtime(code))
    }
}

/// The result of a call that answered `status` and wrote `value`: the value
/// on success, the failure code otherwise.
pub fn status_value<T>(status: i32, value: T) -> (r: Result<T, Error>)
    ensures
        is_success(status) ==> r == Ok::<T, Error>(value),
        !is_success(status) ==> r == Err::<T, Error>(Error::Runtime(status)),
{
    if status >= 0 {
        Ok(value)
    } else {
        Err(Error::Runtime(status))
    }
}

} // verus!
