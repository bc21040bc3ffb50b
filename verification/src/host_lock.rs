//! The rules of the lock that serialises storage changes on a host.

use vstd::prelude::*;

verus! {

/// The one lock of a host.
pub const HOST_STORAGE_LOCK_PATH: &'static str = "/run/lock/linux-storage-manager/storage.lock";

#[derive(Debug, PartialEq, Eq)]
pub enum HostLockError {
    Busy,
    UnsafeParent(String),
    NotRegularFile(String),
    Io { path: String, source: String },
}

/// The content of a refusal.
pub enum HostLockFault {
    Busy,
    UnsafeParent(Seq<char>),
    NotRegularFile(Seq<char>),
    Io { path: Seq<char>, source: Seq<char> },
}

impl View for HostLockError {
    type V = HostLockFault;

    open spec fn view(&self) -> HostLockFault {
        match *self {
            HostLockError::Busy => HostLockFault::Busy,
            HostLockError::UnsafeParent(s) => HostLockFault::UnsafeParent(s@),
            HostLockError::NotRegularFile(s) => HostLockFault::NotRegularFile(s@),
            HostLockError::Io { path, source } => HostLockFault::Io {
                path: path@,
                source: source@,
            },
        }
    }
}

/// What the file system says of a directory, links not followed.
#[derive(Clone, Copy, Debug, PartialEq, Eq, Structural)]
pub struct ParentStatus {
    pub symlink: bool,
    pub directory: bool,
}

/// What the directory of a lock is refused for, if anything.
pub open spec fn lock_parent_refusal(
    path: Seq<char>,
    parent: Option<String>,
    status: Result<ParentStatus, String>,
) -> Option<HostLockFault> {
    match parent {
        None => Some(HostLockFault::UnsafeParent(path)),
        Some(directory) => match status {
            Err(source) => Some(HostLockFault::Io { path: directory@, source: source@ }),
            Ok(s) => {
                if s.symlink || !s.directory {
                    Some(HostLockFault::UnsafeParent(directory@))
                } else {
                    None
                }
            },
        },
    }
}

/// Checks the directory of a lock, once it exists.
pub fn check_lock_parent(
    path: &str,
    parent: &Option<String>,
    status: &Result<ParentStatus, String>,
) -> (result: Result<(), HostLockError>)
    ensures
        match result {
            Ok(_) => lock_parent_refusal(path@, *parent, *status) is None,
            Err(e) => lock_parent_refusal(path@, *parent, *status) == Some(e@),
        },
{
    let directory = match parent {
        None => return Err(HostLockError::UnsafeParent(path.to_owned())),
        Some(directory) => directory,
    };
    match status {
        Err(source) => Err(HostLockError::Io { path: directory.clone(), source: source.clone() }),
        Ok(s) => {
            if s.symlink || !s.directory {
                Err(HostLockError::UnsafeParent(directory.clone()))
            } else {
                Ok(())
            }
        },
    }
}

/// How the attempt to take the lock ended.
#[derive(Debug, PartialEq, Eq)]
pub enum LockAttempt {
    Acquired,
    WouldBlock,
    Failed(String),
}

/// What taking an opened lock is refused for, if anything: the file first, then the attempt.
pub open spec fn lock_refusal(
    path: Seq<char>,
    regular: Result<bool, String>,
    attempt: LockAttempt,
) -> Option<HostLockFault> {
    match regular {
        Err(source) => Some(HostLockFault::Io { path, source: source@ }),
        Ok(false) => Some(HostLockFault::NotRegularFile(path)),
        Ok(true) => match attempt {
            LockAttempt::Acquired => None,
            LockAttempt::WouldBlock => Some(HostLockFault::Busy),
            LockAttempt::Failed(source) => Some(HostLockFault::Io { path, source: source@ }),
        },
    }
}

/// Judges the attempt to take a lock. `regular` says whether the opened file is a regular one, or
/// why it could not be opened.
pub fn judge_lock_attempt(path: &str, regular: &Result<bool, String>, attempt: &LockAttempt) -> (result:
    Result<(), HostLockError>)
    ensures
        match result {
            Ok(_) => lock_refusal(path@, *regular, *attempt) is None,
            Err(e) => lock_refusal(path@, *regular, *attempt) == Some(e@),
        },
{
    match regular {
        Err(source) => {
            return Err(HostLockError::Io { path: path.to_owned(), source: source.clone() });
        },
        Ok(is_regular) => {
            if !*is_regular {
                return Err(HostLockError::NotRegularFile(path.to_owned()));
            }
        },
    }
    match attempt {
        LockAttempt::Acquired => Ok(()),
        LockAttempt::WouldBlock => Err(HostLockError::Busy),
        LockAttempt::Failed(source) => Err(
            HostLockError::Io { path: path.to_owned(), source: source.clone() },
        ),
    }
}

/// A lock is taken exactly where its directory is a real one, its file is a regular one, and the
/// attempt succeeded; a lock that is held elsewhere is busy.
pub proof fn lock_is_taken_once_in_a_real_directory(
    path: Seq<char>,
    parent: Option<String>,
    status: Result<ParentStatus, String>,
    regular: Result<bool, String>,
    attempt: LockAttempt,
)
    ensures
        lock_parent_refusal(path, parent, status) is None <==> {
            &&& parent is Some
            &&& status matches Ok(s)
            &&& s.directory
            &&& !s.symlink
        },
        lock_refusal(path, regular, attempt) is None <==> regular == Result::<bool, String>::Ok(true)
            && attempt is Acquired,
        lock_refusal(path, regular, attempt) == Some(HostLockFault::Busy) <==> regular == Result::<
            bool,
            String,
        >::Ok(true) && attempt is WouldBlock,
        regular == Result::<bool, String>::Ok(false) ==> lock_refusal(path, regular, attempt)
            == Some(HostLockFault::NotRegularFile(path)),
{
}

} // verus!
