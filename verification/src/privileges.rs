//! Running the server as a daemon under another user: what is decided
//! before and after the operating system is asked.

use crate::text::{index_of, position};
use vstd::prelude::*;
use vstd::string::*;

verus! {

/// Why the process cannot take on the user it was asked to.
#[derive(Clone, Copy, Debug, PartialEq, Eq, Structural)]
pub enum PrivilegeError {
    /// The user name holds a NUL byte.
    InvalidInput,
    /// The system knows no user of that name.
    NotFound,
    /// Only root can take on another user.
    PermissionDenied,
    /// The system refused the group.
    FailedToSetGroup,
    /// The system refused the user.
    FailedToSetUser,
    /// The system could not fork.
    ForkFailed,
}

impl PrivilegeError {
    /// The message for the operator.
    pub open spec fn message(self) -> Seq<char> {
        match self {
            PrivilegeError::InvalidInput => "Error: invalid user name"@,
            PrivilegeError::NotFound => "Error: could not find user"@,
            PrivilegeError::PermissionDenied => "Error: must be root to use option -u"@,
            PrivilegeError::FailedToSetGroup => "Error: failed to set group"@,
            PrivilegeError::FailedToSetUser => "Error: failed to set user"@,
            PrivilegeError::ForkFailed => "Failed to fork"@,
        }
    }

    /// The message for the operator.
    pub fn to_string(&self) -> (r: String)
        ensures
            r@ == self.message(),
    {
        match self {
            PrivilegeError::InvalidInput => String::from_str("Error: invalid user name"),
            PrivilegeError::NotFound => String::from_str("Error: could not find user"),
            PrivilegeError::PermissionDenied => String::from_str(
                "Error: must be root to use option -u",
            ),
            PrivilegeError::FailedToSetGroup => String::from_str("Error: failed to set group"),
            PrivilegeError::FailedToSetUser => String::from_str("Error: failed to set user"),
            PrivilegeError::ForkFailed => String::from_str("Failed to fork"),
        }
    }
}

/// The user and group that the server runs as once it has dropped root.
#[derive(Clone, Copy, Debug, PartialEq, Eq, Structural)]
pub struct UserPrivileges {
    pub uid: u32,
    pub gid: u32,
}

/// One request to the system on the way to the new user.
#[derive(Clone, Copy, Debug, PartialEq, Eq, Structural)]
pub enum PrivilegeStep {
    SetGroup(u32),
    SetUser(u32),
}

/// The name can be handed to the system: it holds no NUL byte.
pub open spec fn valid_user_name(name: Seq<u8>) -> bool {
    index_of(name, 0) == name.len()
}

impl UserPrivileges {
    /// Whether the name can be handed to the system.
    pub fn valid_name(username: &str) -> (r: bool)
        ensures
            r == valid_user_name(username.spec_bytes()),
    {
        position(username.as_bytes(), 0).is_none()
    }

    /// The privileges of the user `username`, `entry` being the user and
    /// group identifiers that the system holds for that name.
    pub fn new(username: &str, entry: Option<(u32, u32)>) -> (r: Result<
        UserPrivileges,
        PrivilegeError,
    >)
        ensures
            r == if !valid_user_name(username.spec_bytes()) {
                Err::<UserPrivileges, PrivilegeError>(PrivilegeError::InvalidInput)
            } else {
                match entry {
                    Some((uid, gid)) => Ok(UserPrivileges { uid, gid }),
                    None => Err(PrivilegeError::NotFound),
                }
            },
    {
        if !UserPrivileges::valid_name(username) {
            return Err(PrivilegeError::InvalidInput);
        }
        match entry {
            Some((uid, gid)) => Ok(UserPrivileges { uid, gid }),
            None => Err(PrivilegeError::NotFound),
        }
    }

    /// What is asked of the system, in order: the group first, while the
    /// process is still allowed to change it, then the user.
    pub fn drop_privileges(&self) -> (r: (PrivilegeStep, PrivilegeStep))
        ensures
            r.0 == PrivilegeStep::SetGroup(self.gid),
            r.1 == PrivilegeStep::SetUser(self.uid),
    {
        (PrivilegeStep::SetGroup(self.gid), PrivilegeStep::SetUser(self.uid))
    }

    /// What a request came to, `status` being what the system returned:
    /// anything but zero is a refusal.
    pub fn step_result(step: PrivilegeStep, status: i32) -> (r: Result<(), PrivilegeError>)
        ensures
            r == if status == 0 {
                Ok::<(), PrivilegeError>(())
            } else {
                match step {
                    PrivilegeStep::SetGroup(_) => Err(PrivilegeError::FailedToSetGroup),
                    PrivilegeStep::SetUser(_) => Err(PrivilegeError::FailedToSetUser),
                }
            },
    {
        if status == 0 {
            Ok(())
        } else {
            match step {
                PrivilegeStep::SetGroup(_) => Err(PrivilegeError::FailedToSetGroup),
                PrivilegeStep::SetUser(_) => Err(PrivilegeError::FailedToSetUser),
            }
        }
    }

    /// Whether the process, running as user `uid`, may take on another
    /// user: only root may.
    pub fn check_root(uid: u32) -> (r: Result<(), PrivilegeError>)
        ensures
            r == if uid == 0 {
                Ok::<(), PrivilegeError>(())
            } else {
                Err::<(), PrivilegeError>(PrivilegeError::PermissionDenied)
            },
    {
        if uid != 0 {
            Err(PrivilegeError::PermissionDenied)
        } else {
            Ok(())
        }
    }
}

/// What a fork came to.
#[derive(Clone, Copy, Debug, PartialEq, Eq, Structural)]
pub enum Forked {
    Parent,
    Child,
    Failed,
}

/// What a process does after the fork that makes the server a daemon.
#[derive(Clone, Copy, Debug, PartialEq, Eq, Structural)]
pub enum DaemonRole {
    /// The parent exits with status zero.
    Exit,
    /// The child leads a new session in the directory it was started in,
    /// with a cleared file-mode mask and the standard streams on the null
    /// device, and goes on as the server.
    Detach,
}

/// What a process does after the fork.
pub fn daemonize(forked: Forked) -> (r: Result<DaemonRole, PrivilegeError>)
    ensures
        r == match forked {
            Forked::Parent => Ok::<DaemonRole, PrivilegeError>(DaemonRole::Exit),
            Forked::Child => Ok(DaemonRole::Detach),
            Forked::Failed => Err(PrivilegeError::ForkFailed),
        },
{
    match forked {
        Forked::Parent => Ok(DaemonRole::Exit),
        Forked::Child => Ok(DaemonRole::Detach),
        Forked::Failed => Err(PrivilegeError::ForkFailed),
    }
}

} // verus!
