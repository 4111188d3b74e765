use inotify_stream::channel::{check_add, check_close, check_open, check_rm};
use inotify_stream::Error;

#[test]
fn open_outcome() {
    assert_eq!(check_open(3, 0), Ok(3));
    assert_eq!(check_open(-1, 24), Err(Error::ChannelUnavailable(24)));
}

#[test]
fn add_outcome() {
    assert_eq!(check_add(7, 0).map(|w| w.id()), Ok(7));
    assert_eq!(check_add(-1, 2), Err(Error::RegistrationFailed(2)));
}

#[test]
fn rm_outcome() {
    assert_eq!(check_rm(0, 0), Ok(()));
    assert_eq!(check_rm(-1, 22), Err(Error::RemovalFailed(22)));
}

#[test]
fn close_outcome() {
    assert_eq!(check_close(0, 0), Ok(()));
    assert_eq!(check_close(-1, 9), Err(Error::CloseFailed(9)));
}
