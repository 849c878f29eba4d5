//! The stored user record, the request and response records, and the handlers' errors.

use vstd::prelude::*;

use crate::groups::{
    group_set, lemma_name_lt_transitive, name_less, name_lt, same_list, sorted_names,
};
use crate::secure::SecureString;

verus! {

/// The current state of a user's password reset process.
#[derive(Clone, Copy, Debug, PartialEq, Eq, Structural)]
pub enum PasswordResetPhase {
    /// The password has been reset, and the user still has to log in with the temporary one.
    /// Expires at the given second since the unix epoch.
    Reset(u64),
    /// The user has logged in once with the temporary password and has to change it. Expires at
    /// the given second since the unix epoch.
    InitialLogin(u64),
    /// The reset has expired, or the temporary password was used a second time; only a new reset
    /// unlocks the account.
    Locked,
}

/// Information needed to verify a user's credentials and to name their groups.
pub struct UserInfo {
    /// Self-describing password hash (algorithm, parameters, salt and digest).
    pub hashed_password: SecureString,
    pub password_reset: Option<PasswordResetPhase>,
    /// The user's groups, in increasing order, each name once. A vector rather than a
    /// `BTreeSet`: vstd's specification of `BTreeSet` rests on an ordering specification that
    /// `String` lacks, so the set's contents would be unknown to the proofs.
    pub groups: Vec<String>,
}

impl UserInfo {
    /// The record is well formed: its groups are listed in increasing order, so each once.
    pub open spec fn wf(&self) -> bool {
        sorted_names(self.groups@)
    }

    /// Whether the record is well formed.
    pub fn is_well_formed(&self) -> (r: bool)
        ensures
            r == self.wf(),
    {
        let g = &self.groups;
        if g.len() < 2 {
            return true;
        }
        let mut i: usize = 1;
        while i < g.len()
            invariant
                1 <= i <= g@.len(),
                g@ == self.groups@,
                sorted_names(g@.subrange(0, i as int)),
            decreases g@.len() - i,
        {
            let ordered = name_less(&g[i - 1], &g[i]);
            if !ordered {
                let ghost a = (i - 1) as int;
                let ghost b = i as int;
                assert(!name_lt(self.groups@[a]@, self.groups@[b]@));
                assert(!sorted_names(self.groups@));
                return false;
            }
            proof {
                let pre = g@.subrange(0, i as int);
                let post = g@.subrange(0, i + 1);
                assert forall|a: int, b: int| 0 <= a < b < post.len() implies name_lt(
                    post[a]@,
                    post[b]@,
                ) by {
                    if b < i {
                        assert(post[a] == pre[a] && post[b] == pre[b]);
                    } else if a < i - 1 {
                        assert(post[a] == pre[a] && pre[i - 1] == post[i - 1]);
                        lemma_name_lt_transitive(post[a]@, post[i - 1]@, post[b]@);
                    }
                }
            }
            i = i + 1;
        }
        assert(g@.subrange(0, g@.len() as int) =~= g@);
        true
    }

    /// The set of the user's groups.
    pub open spec fn group_names(&self) -> Set<Seq<char>> {
        group_set(self.groups@)
    }

    /// The same record with another reset phase.
    pub open spec fn with_phase(self, phase: Option<PasswordResetPhase>) -> UserInfo {
        UserInfo { password_reset: phase, ..self }
    }

    /// The two records agree on everything the service reads from them.
    pub open spec fn same_as(&self, other: &UserInfo) -> bool {
        &&& self.hashed_password@ == other.hashed_password@
        &&& self.password_reset == other.password_reset
        &&& same_list(self.groups@, other.groups@)
    }

    /// A copy of the record.
    pub fn duplicate(&self) -> (r: UserInfo)
        ensures
            r.same_as(self),
            self.wf() ==> r.wf(),
    {
        proof {
            crate::groups::lemma_same_list_sorted(self.groups@);
        }
        UserInfo {
            hashed_password: self.hashed_password.clone(),
            password_reset: self.password_reset,
            groups: crate::groups::copy_groups(&self.groups),
        }
    }
}

/// Errors produced by the handlers.
#[derive(Debug)]
pub enum HandleError {
    /// The username requested for creation already exists
    UsernameTaken,
    /// An invalid password was given
    InvalidCredentials,
    /// The password was reset and has expired
    PasswordResetExpired,
    /// The username sent for the requested operation does not exist
    UsernameDoesNotExist,
    /// A failure of storage, encoding, hashing or another part of the system
    SystemError(String),
}

pub const USERNAME_TAKEN_MESSAGE: &'static str = "Username already exists";

pub const INVALID_CREDENTIALS_MESSAGE: &'static str = "Invalid username or password";

pub const RESET_EXPIRED_MESSAGE: &'static str = "Password reset has expired";

pub const NO_SUCH_USER_MESSAGE: &'static str = "Username does not exist";

/// The human-readable text of an error.
pub open spec fn error_text(e: HandleError) -> Seq<char> {
    match e {
        HandleError::UsernameTaken => USERNAME_TAKEN_MESSAGE@,
        HandleError::InvalidCredentials => INVALID_CREDENTIALS_MESSAGE@,
        HandleError::PasswordResetExpired => RESET_EXPIRED_MESSAGE@,
        HandleError::UsernameDoesNotExist => NO_SUCH_USER_MESSAGE@,
        HandleError::SystemError(m) => m@,
    }
}

impl HandleError {
    /// The human-readable text of the error.
    pub fn message(&self) -> (r: String)
        ensures
            r@ == error_text(*self),
    {
        match self {
            HandleError::UsernameTaken => USERNAME_TAKEN_MESSAGE.to_owned(),
            HandleError::InvalidCredentials => INVALID_CREDENTIALS_MESSAGE.to_owned(),
            HandleError::PasswordResetExpired => RESET_EXPIRED_MESSAGE.to_owned(),
            HandleError::UsernameDoesNotExist => NO_SUCH_USER_MESSAGE.to_owned(),
            HandleError::SystemError(m) => m.clone(),
        }
    }
}

/// A request to create a user with the given password and groups. Only admins may send it, as
/// users must not create groups.
pub struct AdminUserAddRequest {
    pub username: String,
    pub password: SecureString,
    pub groups: Vec<String>,
    pub force_password_change: bool,
}

/// A request to get a specific user.
pub struct UserGetRequest {
    pub username: String,
}

/// A request to delete a user.
pub struct UserDeleteRequest {
    pub username: String,
}

/// A user as returned by get requests.
pub struct UserResponse {
    pub username: String,
    pub groups: Vec<String>,
    pub password_change_phase: Option<PasswordResetPhase>,
}

/// A request to add groups to, or remove groups from, a user.
pub struct GroupModifyRequest {
    pub username: String,
    pub groups: Vec<String>,
}

/// A request to reset a user's password.
pub struct PasswordResetRequest {
    pub username: String,
}

/// The answer to a password reset: a random temporary password and when it expires, in seconds
/// since the unix epoch.
pub struct PasswordResetResponse {
    pub temp_password: SecureString,
    pub expires_at: u64,
}

/// A verification request for a credential challenge.
pub struct VerificationRequest {
    pub username: String,
    pub password: SecureString,
}

/// The answer to a credential challenge.
pub struct VerificationResponse {
    /// Whether the credentials were valid
    pub valid: bool,
    pub message: String,
    pub needs_password_reset: bool,
    pub groups: Vec<String>,
}

/// A request to change a user's password.
pub struct PasswordChangeRequest {
    pub username: String,
    pub old_password: SecureString,
    pub new_password: SecureString,
}

} // verus!
