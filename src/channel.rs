use vstd::prelude::*;

use crate::event::{DecodeError, Watch};

verus! {

/// What went wrong in an operation on an inotify channel.
///
/// Failures reported by the operating system keep its error code.
#[derive(Clone, Copy, Debug, PartialEq, Eq, Structural)]
pub enum Error {
    /// The channel could not be opened
    ChannelUnavailable(i32),
    /// A path could not be registered
    RegistrationFailed(i32),
    /// A watch could not be removed: it is unknown or stale
    RemovalFailed(i32),
    /// The event stream could not be decoded
    DecodeFailed(DecodeError),
    /// Closing the channel reported an error
    CloseFailed(i32),
}

/// The outcome of opening a channel, from what the call returned and the
/// error code it left: a negative return is a failure.
pub fn check_open(ret: i32, errno: i32) -> (r: Result<i32, Error>)
    ensures
        ret >= 0 ==> r == Ok::<i32, Error>(ret),
        ret < 0 ==> r == Err::<i32, Error>(Error::ChannelUnavailable(errno)),
{
    if ret < 0 {
        Err(Error::ChannelUnavailable(errno))
    } else {
        Ok(ret)
    }
}

/// The outcome of registering a path: the watch that the kernel assigned,
/// or the failure with its error code.
pub fn check_add(ret: i32, errno: i32) -> (r: Result<Watch, Error>)
    ensures
        ret >= 0 <==> r is Ok,
        r is Ok ==> r->Ok_0@ == ret,
        ret < 0 ==> r == Err::<Watch, Error>(Error::RegistrationFailed(errno)),
{
    if ret < 0 {
        Err(Error::RegistrationFailed(errno))
    } else {
        Ok(Watch::new(ret))
    }
}

/// The outcome of removing a watch.
pub fn check_rm(ret: i32, errno: i32) -> (r: Result<(), Error>)
    ensures
        ret >= 0 ==> r == Ok::<(), Error>(()),
        ret < 0 ==> r == Err::<(), Error>(Error::RemovalFailed(errno)),
{
    if ret < 0 {
        Err(Error::RemovalFailed(errno))
    } else {
        Ok(())
    }
}

/// The outcome of closing the channel.
pub fn check_close(ret: i32, errno: i32) -> (r: Result<(), Error>)
    ensures
        ret >= 0 ==> r == Ok::<(), Error>(()),
        ret < 0 ==> r == Err::<(), Error>(Error::CloseFailed(errno)),
{
    if ret < 0 {
        Err(Error::CloseFailed(errno))
    } else {
        Ok(())
    }
}

} // verus!
