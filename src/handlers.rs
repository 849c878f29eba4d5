//! The handlers: each operation of the service as a decision over the user's current record.
//!
//! A handler is given what the store holds for the user (and, where it matters, the time) and
//! returns an [`Outcome`]: the record to write back, if any, and the answer. The caller writes
//! the record first and answers with a system error when that write fails.

use vstd::prelude::*;

use crate::crypto::{
    check_password, hash_accepts, hash_parses, hash_password, is_alphanumeric,
    random_alphanumeric,
};
use crate::groups::{
    copy_groups, difference_groups, group_set, lemma_same_list, same_list,
    union_groups,
};
use crate::lifecycle::{
    enforce_login_state, expiry_after, login_gate, LoginGate, DEFAULT_RESET_EXPIRY,
};
use crate::secure::SecureString;
use crate::types::{
    AdminUserAddRequest, HandleError, PasswordResetPhase, PasswordResetResponse, UserInfo,
    UserResponse, VerificationResponse,
};

verus! {

/// Length of a generated temporary password.
pub const TEMP_PASSWORD_LEN: usize = 32;

pub const VERIFIED_MESSAGE: &'static str = "Successfully verified";

/// The record to write back for a user, and the answer to give.
pub struct Outcome<T> {
    /// The user's new record, to be stored before answering; `None` when nothing changed.
    pub store: Option<UserInfo>,
    pub result: Result<T, HandleError>,
}

/// How a login or password change ends once the reset phase and the password were looked at.
#[derive(Clone, Copy, Debug, PartialEq, Eq, Structural)]
pub enum Verdict {
    /// The phase allows the operation and the password matches.
    Accepted,
    /// The phase denies the operation.
    Expired,
    /// The password does not match.
    Rejected,
    /// The stored hash cannot be read.
    Unreadable,
}

/// What the stored hash says of a password.
pub open spec fn password_verdict(hash: Seq<char>, password: Seq<char>) -> Verdict {
    if !hash_parses(hash) {
        Verdict::Unreadable
    } else if hash_accepts(hash, password) {
        Verdict::Accepted
    } else {
        Verdict::Rejected
    }
}

/// How a login (`is_password_change == false`) or a password change with `password` as the
/// current password ends for the record `rec` at time `now`.
pub open spec fn login_verdict(
    rec: UserInfo,
    password: Seq<char>,
    now: u64,
    is_password_change: bool,
) -> Verdict {
    if !login_gate(rec.password_reset, now, is_password_change).allowed {
        Verdict::Expired
    } else {
        password_verdict(rec.hashed_password@, password)
    }
}

/// The record as the reset phase leaves it after a login or password change at `now`.
pub open spec fn gated_record(rec: UserInfo, now: u64, is_password_change: bool) -> UserInfo {
    rec.with_phase(login_gate(rec.password_reset, now, is_password_change).phase)
}

/// The write that the reset phase calls for: the gated record where the phase changed.
pub open spec fn gate_write(rec: UserInfo, now: u64, is_password_change: bool) -> Option<
    UserInfo,
> {
    if login_gate(rec.password_reset, now, is_password_change).changed {
        Some(gated_record(rec, now, is_password_change))
    } else {
        None
    }
}

/// `rec` holds a hash of `password`, the reset phase `phase` and the groups of `groups`, each
/// once.
pub open spec fn holds_credentials(
    rec: UserInfo,
    password: Seq<char>,
    phase: Option<PasswordResetPhase>,
    groups: Set<Seq<char>>,
) -> bool {
    &&& hash_parses(rec.hashed_password@)
    &&& hash_accepts(rec.hashed_password@, password)
    &&& rec.password_reset == phase
    &&& rec.wf()
    &&& rec.group_names() == groups
}

/// `rec` is `prev` with a hash of `password` and the reset phase `phase`.
pub open spec fn new_credentials(
    rec: UserInfo,
    prev: UserInfo,
    password: Seq<char>,
    phase: Option<PasswordResetPhase>,
) -> bool {
    &&& hash_parses(rec.hashed_password@)
    &&& hash_accepts(rec.hashed_password@, password)
    &&& rec.password_reset == phase
    &&& same_list(rec.groups@, prev.groups@)
}

/// `rec` is `prev` with its groups replaced by the distinct names of `groups`, and `answer`
/// lists them as `rec` does.
pub open spec fn regrouped(
    rec: UserInfo,
    prev: UserInfo,
    answer: Vec<String>,
    groups: Set<Seq<char>>,
) -> bool {
    &&& rec.hashed_password == prev.hashed_password
    &&& rec.password_reset == prev.password_reset
    &&& rec.wf()
    &&& rec.group_names() == groups
    &&& same_list(answer@, rec.groups@)
}

/// The answer to a successful login on `rec`: valid, the groups of the record, and whether a
/// reset is still in progress.
pub open spec fn accepted_answer(v: VerificationResponse, rec: UserInfo) -> bool {
    &&& v.valid
    &&& v.message@ == VERIFIED_MESSAGE@
    &&& v.needs_password_reset == rec.password_reset is Some
    &&& same_list(v.groups@, rec.groups@)
}

/// The error that ends a login or password change with the given verdict, other than
/// `Accepted`.
pub open spec fn verdict_error(e: HandleError, v: Verdict) -> bool {
    match v {
        Verdict::Accepted => false,
        Verdict::Expired => e is PasswordResetExpired,
        Verdict::Rejected => e is InvalidCredentials,
        Verdict::Unreadable => e is SystemError,
    }
}

/// The handlers of the service, configured with how long a password reset stays valid.
pub struct Handlers {
    reset_expiry: u64,
}

impl Handlers {
    /// How long a password reset stays valid, in seconds.
    pub closed spec fn spec_reset_expiry(&self) -> u64 {
        self.reset_expiry
    }

    /// Handlers whose resets stay valid for a day.
    pub fn new() -> (r: Handlers)
        ensures
            r.spec_reset_expiry() == DEFAULT_RESET_EXPIRY,
    {
        Handlers { reset_expiry: DEFAULT_RESET_EXPIRY }
    }

    /// Handlers whose resets stay valid for `seconds`.
    pub fn with_reset_expiry(seconds: u64) -> (r: Handlers)
        ensures
            r.spec_reset_expiry() == seconds,
    {
        Handlers { reset_expiry: seconds }
    }

    /// How long a password reset stays valid, in seconds.
    pub fn reset_expiry(&self) -> (r: u64)
        ensures
            r == self.spec_reset_expiry(),
    {
        self.reset_expiry
    }

    /// Verifies `password` for the user whose stored record is `record`, at time `now`. The
    /// reset phase runs first, as for a login: it may change the record and deny the login.
    /// When it allows it, the password is checked against the stored hash.
    pub fn verify(&self, record: Option<UserInfo>, password: &SecureString, now: u64) -> (out:
        Outcome<VerificationResponse>)
        ensures
            record is None ==> out.store is None && (out.result matches Err(e)
                && e is UsernameDoesNotExist),
            record matches Some(rec) ==> {
                &&& out.store == gate_write(rec, now, false)
                &&& login_verdict(rec, password@, now, false) is Accepted <==> out.result is Ok
                &&& out.result matches Ok(v) ==> accepted_answer(v, gated_record(rec, now, false))
                &&& out.result matches Err(e) ==> verdict_error(
                    e,
                    login_verdict(rec, password@, now, false),
                )
            },
    {
        let mut rec = match record {
            Some(rec) => rec,
            None => {
                return Outcome { store: None, result: Err(HandleError::UsernameDoesNotExist) };
            },
        };
        let ghost stored = rec;
        let gate = enforce_login_state(rec.password_reset, now, false);
        rec.password_reset = gate.phase;
        assert(rec == gated_record(stored, now, false));
        let result = if !gate.allowed {
            Err(HandleError::PasswordResetExpired)
        } else {
            match check_password(rec.hashed_password.as_str(), password.as_str()) {
                None => Err(HandleError::SystemError("Error when reading user".to_owned())),
                Some(false) => Err(HandleError::InvalidCredentials),
                Some(true) => Ok(
                    VerificationResponse {
                        valid: true,
                        message: VERIFIED_MESSAGE.to_owned(),
                        needs_password_reset: rec.password_reset.is_some(),
                        groups: copy_groups(&rec.groups),
                    },
                ),
            }
        };
        let store = if gate.changed {
            Some(rec)
        } else {
            None
        };
        Outcome { store, result }
    }

    /// The reset phase a new user starts in: a reset expiring `reset_expiry` seconds after
    /// `now` when a password change is forced, none otherwise.
    pub open spec fn initial_phase(&self, force: bool, now: u64) -> Option<PasswordResetPhase> {
        if force {
            Some(PasswordResetPhase::Reset((now + self.spec_reset_expiry()) as u64))
        } else {
            None
        }
    }

    /// Adds a user. `exists` says whether the username is already taken. The password is
    /// hashed with a fresh salt; with `force_password_change` the account starts in a reset
    /// that expires `reset_expiry` seconds after `now`.
    pub fn add(&self, req: AdminUserAddRequest, exists: bool, now: u64) -> (out: Outcome<()>)
        ensures
            exists ==> out.store is None && (out.result matches Err(e) && e is UsernameTaken),
            !exists ==> (out.result is Ok || (out.result matches Err(e) && e is SystemError)),
            !exists && req.force_password_change && now + self.spec_reset_expiry() > u64::MAX
                ==> out.result is Err,
            out.result is Ok <==> out.store is Some,
            out.store matches Some(rec) ==> holds_credentials(
                rec,
                req.password@,
                self.initial_phase(req.force_password_change, now),
                group_set(req.groups@),
            ),
    {
        if exists {
            return Outcome { store: None, result: Err(HandleError::UsernameTaken) };
        }
        let hashed = hash_password(req.password.as_str());
        self.add_hashed(req, hashed, now)
    }

    /// Builds the record of a new user once its password was hashed: `hashed` is the hash, or
    /// `None` where hashing failed.
    pub fn add_hashed(&self, req: AdminUserAddRequest, hashed: Option<String>, now: u64) -> (out:
        Outcome<()>)
        ensures
            out.result is Ok <==> (hashed is Some && (req.force_password_change ==> now
                + self.spec_reset_expiry() <= u64::MAX)),
            out.result matches Err(e) ==> e is SystemError,
            out.result is Ok <==> out.store is Some,
            out.store matches Some(rec) ==> {
                &&& hashed matches Some(h) && rec.hashed_password@ == h@
                &&& rec.password_reset == self.initial_phase(req.force_password_change, now)
                &&& rec.wf()
                &&& rec.group_names() == group_set(req.groups@)
            },
    {
        let hashed = match hashed {
            Some(h) => h,
            None => {
                return Outcome {
                    store: None,
                    result: Err(HandleError::SystemError("Error when hashing".to_owned())),
                };
            },
        };
        let password_reset = if req.force_password_change {
            match expiry_after(now, self.reset_expiry) {
                Ok(e) => Some(PasswordResetPhase::Reset(e)),
                Err(e) => {
                    return Outcome { store: None, result: Err(e) };
                },
            }
        } else {
            None
        };
        let groups = union_groups(&Vec::new(), &req.groups);
        proof {
            assert(group_set(Seq::<String>::empty()) =~= Set::empty());
            assert(group_set(Seq::<String>::empty()).union(group_set(req.groups@)) =~= group_set(
                req.groups@,
            ));
        }
        let rec = UserInfo {
            hashed_password: SecureString::from_string(hashed),
            password_reset,
            groups,
        };
        Outcome { store: Some(rec), result: Ok(()) }
    }

    /// Changes a user's password. The reset phase runs first, as for a password change: it may
    /// change the record and deny the change. When it allows it, `current_password` is checked
    /// against the stored hash; when that matches, the record takes a fresh hash of
    /// `new_password` and leaves any reset.
    pub fn change_password(
        &self,
        record: Option<UserInfo>,
        current_password: &SecureString,
        new_password: &SecureString,
        now: u64,
    ) -> (out: Outcome<()>)
        ensures
            record is None ==> out.store is None && (out.result matches Err(e)
                && e is UsernameDoesNotExist),
            record matches Some(rec) ==> {
                let verdict = login_verdict(rec, current_password@, now, true);
                &&& !(verdict is Accepted) ==> out.store == gate_write(rec, now, true) && (
                out.result matches Err(e) && verdict_error(e, verdict))
                &&& verdict is Accepted ==> (out.result is Ok || (out.result matches Err(e)
                    && e is SystemError && out.store == gate_write(rec, now, true)))
                &&& out.result is Ok ==> (out.store matches Some(s) && new_credentials(
                    s,
                    rec,
                    new_password@,
                    None,
                ))
            },
    {
        let mut rec = match record {
            Some(rec) => rec,
            None => {
                return Outcome { store: None, result: Err(HandleError::UsernameDoesNotExist) };
            },
        };
        let ghost stored = rec;
        let gate = enforce_login_state(rec.password_reset, now, true);
        rec.password_reset = gate.phase;
        assert(rec == gated_record(stored, now, true));
        let checked = if gate.allowed {
            check_password(rec.hashed_password.as_str(), current_password.as_str())
        } else {
            None
        };
        let new_hash = match checked {
            Some(true) => hash_password(new_password.as_str()),
            _ => None,
        };
        self.settle_password_change(rec, gate, checked, new_hash)
    }

    /// Finishes a password change once the reset phase and the password hashing have
    /// answered. `gated` is the record as the phase leaves it and `gate` the phase's verdict;
    /// `checked` is what the stored hash said of the current password (`None`: the hash does
    /// not parse); `new_hash` is the hash of the new password (`None`: hashing failed).
    pub fn settle_password_change(
        &self,
        gated: UserInfo,
        gate: LoginGate,
        checked: Option<bool>,
        new_hash: Option<String>,
    ) -> (out: Outcome<()>)
        requires
            gated.password_reset == gate.phase,
        ensures
            !(gate.allowed && checked == Some(true) && new_hash is Some) ==> out.store == (if gate.changed {
                Some(gated)
            } else {
                None
            }),
            !gate.allowed ==> (out.result matches Err(e) && e is PasswordResetExpired),
            gate.allowed && checked is None ==> (out.result matches Err(e) && e is SystemError),
            gate.allowed && checked == Some(false) ==> (out.result matches Err(e)
                && e is InvalidCredentials),
            gate.allowed && checked == Some(true) && new_hash is None ==> (out.result matches Err(
                e,
            ) && e is SystemError),
            gate.allowed && checked == Some(true) && new_hash is Some ==> out.result is Ok,
            out.result is Ok ==> (out.store matches Some(s) && new_hash matches Some(h)
                && s.hashed_password@ == h@ && s.password_reset is None && s.groups
                == gated.groups),
    {
        let mut rec = gated;
        let failure = if !gate.allowed {
            Some(HandleError::PasswordResetExpired)
        } else {
            match checked {
                None => Some(HandleError::SystemError("Error when reading user".to_owned())),
                Some(false) => Some(HandleError::InvalidCredentials),
                Some(true) => match new_hash {
                    Some(hashed) => {
                        rec.hashed_password = SecureString::from_string(hashed);
                        rec.password_reset = None;
                        None
                    },
                    None => Some(HandleError::SystemError("Error when hashing".to_owned())),
                },
            }
        };
        match failure {
            Some(e) => {
                let store = if gate.changed {
                    Some(rec)
                } else {
                    None
                };
                Outcome { store, result: Err(e) }
            },
            None => Outcome { store: Some(rec), result: Ok(()) },
        }
    }

    /// Resets a user's password: a random temporary password of [`TEMP_PASSWORD_LEN`] letters
    /// and digits replaces it, and the account enters a reset that expires `reset_expiry`
    /// seconds after `now`. This is the only operation that hands out a password, and it
    /// unlocks a locked account.
    pub fn reset_password(&self, record: Option<UserInfo>, now: u64) -> (out: Outcome<
        PasswordResetResponse,
    >)
        ensures
            record is None ==> out.store is None && (out.result matches Err(e)
                && e is UsernameDoesNotExist),
            record is Some ==> (out.result is Ok || (out.result matches Err(e)
                && e is SystemError)),
            record is Some && now + self.spec_reset_expiry() > u64::MAX ==> out.result is Err,
            out.result is Ok <==> out.store is Some,
            out.result matches Ok(resp) ==> {
                &&& resp.expires_at == now + self.spec_reset_expiry()
                &&& resp.temp_password@.len() == TEMP_PASSWORD_LEN
                &&& forall|i: int|
                    0 <= i < TEMP_PASSWORD_LEN ==> is_alphanumeric(
                        #[trigger] resp.temp_password@[i],
                    )
                &&& out.store matches Some(s) && record matches Some(rec) && new_credentials(
                    s,
                    rec,
                    resp.temp_password@,
                    Some(PasswordResetPhase::Reset(resp.expires_at)),
                )
            },
    {
        if record.is_none() {
            return Outcome { store: None, result: Err(HandleError::UsernameDoesNotExist) };
        }
        let temp = match random_alphanumeric(TEMP_PASSWORD_LEN) {
            Some(t) => t,
            None => {
                return Outcome {
                    store: None,
                    result: Err(
                        HandleError::SystemError("Unable to generate a password".to_owned()),
                    ),
                };
            },
        };
        let hashed = hash_password(temp.as_str());
        self.reset_with(record, now, temp, hashed)
    }

    /// Finishes a password reset once the temporary password `temp` was drawn and hashed:
    /// `hashed` is its hash, or `None` where hashing failed.
    pub fn reset_with(
        &self,
        record: Option<UserInfo>,
        now: u64,
        temp: String,
        hashed: Option<String>,
    ) -> (out: Outcome<PasswordResetResponse>)
        ensures
            record is None ==> out.store is None && (out.result matches Err(e)
                && e is UsernameDoesNotExist),
            record is Some ==> (out.result is Ok <==> (hashed is Some && now
                + self.spec_reset_expiry() <= u64::MAX)),
            record is Some ==> (out.result matches Err(e) ==> e is SystemError),
            out.result is Ok <==> out.store is Some,
            out.result matches Ok(resp) ==> {
                &&& resp.expires_at == now + self.spec_reset_expiry()
                &&& resp.temp_password@ == temp@
                &&& out.store matches Some(s) && record matches Some(rec) && hashed matches Some(
                    h,
                ) && s.hashed_password@ == h@ && s.password_reset == Some(
                    PasswordResetPhase::Reset(resp.expires_at),
                ) && s.groups == rec.groups
            },
    {
        let mut rec = match record {
            Some(rec) => rec,
            None => {
                return Outcome { store: None, result: Err(HandleError::UsernameDoesNotExist) };
            },
        };
        let hashed = match hashed {
            Some(h) => h,
            None => {
                return Outcome {
                    store: None,
                    result: Err(HandleError::SystemError("Error when hashing".to_owned())),
                };
            },
        };
        let expiry = match expiry_after(now, self.reset_expiry) {
            Ok(e) => e,
            Err(e) => {
                return Outcome { store: None, result: Err(e) };
            },
        };
        rec.hashed_password = SecureString::from_string(hashed);
        rec.password_reset = Some(PasswordResetPhase::Reset(expiry));
        let resp = PasswordResetResponse {
            temp_password: SecureString::from_string(temp),
            expires_at: expiry,
        };
        Outcome { store: Some(rec), result: Ok(resp) }
    }

    /// Adds `groups` to a user's groups and answers with the complete set after the change.
    /// The reset phase plays no part.
    pub fn add_groups(&self, record: Option<UserInfo>, groups: &Vec<String>) -> (out: Outcome<
        Vec<String>,
    >)
        requires
            record matches Some(rec) ==> rec.wf(),
        ensures
            record is None ==> out.store is None && (out.result matches Err(e)
                && e is UsernameDoesNotExist),
            record matches Some(rec) ==> (out.result matches Ok(answer) && out.store matches Some(
                s,
            ) && regrouped(s, rec, answer, rec.group_names().union(group_set(groups@)))),
    {
        let mut rec = match record {
            Some(rec) => rec,
            None => {
                return Outcome { store: None, result: Err(HandleError::UsernameDoesNotExist) };
            },
        };
        rec.groups = union_groups(&rec.groups, groups);
        let answer = copy_groups(&rec.groups);
        proof {
            lemma_same_list(answer@, rec.groups@);
        }
        Outcome { store: Some(rec), result: Ok(answer) }
    }

    /// Removes `groups` from a user's groups and answers with the complete set after the
    /// change. The reset phase plays no part.
    pub fn delete_groups(&self, record: Option<UserInfo>, groups: &Vec<String>) -> (out: Outcome<
        Vec<String>,
    >)
        requires
            record matches Some(rec) ==> rec.wf(),
        ensures
            record is None ==> out.store is None && (out.result matches Err(e)
                && e is UsernameDoesNotExist),
            record matches Some(rec) ==> (out.result matches Ok(answer) && out.store matches Some(
                s,
            ) && regrouped(s, rec, answer, rec.group_names().difference(group_set(groups@)))),
    {
        let mut rec = match record {
            Some(rec) => rec,
            None => {
                return Outcome { store: None, result: Err(HandleError::UsernameDoesNotExist) };
            },
        };
        rec.groups = difference_groups(&rec.groups, groups);
        let answer = copy_groups(&rec.groups);
        proof {
            lemma_same_list(answer@, rec.groups@);
        }
        Outcome { store: Some(rec), result: Ok(answer) }
    }

    /// The user named `username`, whose stored record is `record`: its groups and reset phase.
    pub fn get(&self, username: &str, record: Option<UserInfo>) -> (r: Result<
        UserResponse,
        HandleError,
    >)
        ensures
            record is None ==> (r matches Err(e) && e is UsernameDoesNotExist),
            record matches Some(rec) ==> (r matches Ok(u) && u.username@ == username@
                && u.groups@ == rec.groups@ && u.password_change_phase == rec.password_reset),
    {
        match record {
            Some(user) => Ok(
                UserResponse {
                    username: username.to_owned(),
                    groups: user.groups,
                    password_change_phase: user.password_reset,
                },
            ),
            None => Err(HandleError::UsernameDoesNotExist),
        }
    }
}

/// A user added with password `password`, groups `groups` and, when `force` holds, a reset
/// expiring at `expiry`, logs in with that password at any `now` before the expiry: the login is
/// accepted, the groups are those given, and a password reset is reported exactly when `force`
/// holds.
pub proof fn lemma_added_user_verifies(
    rec: UserInfo,
    password: Seq<char>,
    groups: Set<Seq<char>>,
    force: bool,
    expiry: u64,
    now: u64,
)
    requires
        holds_credentials(
            rec,
            password,
            if force {
                Some(PasswordResetPhase::Reset(expiry))
            } else {
                None
            },
            groups,
        ),
        force ==> now < expiry,
    ensures
        login_verdict(rec, password, now, false) is Accepted,
        gated_record(rec, now, false).password_reset is Some <==> force,
        gated_record(rec, now, false).group_names() == groups,
{
}

/// The temporary password of a reset logs in exactly once: before the expiry the first login
/// is accepted and reports that a reset is needed, and a second login with it, at any time, is
/// denied and locks the account.
pub proof fn lemma_temporary_password_logs_in_once(
    rec: UserInfo,
    temp: Seq<char>,
    expiry: u64,
    first: u64,
    second: u64,
)
    requires
        hash_parses(rec.hashed_password@),
        hash_accepts(rec.hashed_password@, temp),
        rec.password_reset == Some(PasswordResetPhase::Reset(expiry)),
        first < expiry,
    ensures
        login_verdict(rec, temp, first, false) is Accepted,
        gated_record(rec, first, false).password_reset is Some,
        login_verdict(gated_record(rec, first, false), temp, second, false) is Expired,
        gate_write(gated_record(rec, first, false), second, false) == Some(
            rec.with_phase(Some(PasswordResetPhase::Locked)),
        ),
{
}

/// A login at or after the expiry of a reset is denied, whatever the password, and locks the
/// account.
pub proof fn lemma_expired_reset_locks(rec: UserInfo, password: Seq<char>, expiry: u64, now: u64)
    requires
        rec.password_reset == Some(PasswordResetPhase::Reset(expiry)),
        expiry <= now,
    ensures
        login_verdict(rec, password, now, false) is Expired,
        gate_write(rec, now, false) == Some(rec.with_phase(Some(PasswordResetPhase::Locked))),
{
}

/// After a successful password change the record has left any reset, and the new password logs
/// in at any time without a reset being reported.
pub proof fn lemma_changed_password_verifies(
    rec: UserInfo,
    prev: UserInfo,
    new_password: Seq<char>,
    now: u64,
)
    requires
        new_credentials(rec, prev, new_password, None),
    ensures
        rec.password_reset is None,
        login_verdict(rec, new_password, now, false) is Accepted,
        gate_write(rec, now, false) is None,
        gated_record(rec, now, false).password_reset is None,
{
}

/// Adding a set of groups to a user and then removing the same set leaves the user's earlier
/// groups less that set, whatever those groups were.
pub proof fn lemma_add_then_remove_groups(
    rec: UserInfo,
    added: UserInfo,
    removed: UserInfo,
    groups: Seq<String>,
)
    requires
        added.group_names() == rec.group_names().union(group_set(groups)),
        removed.group_names() == added.group_names().difference(group_set(groups)),
    ensures
        removed.group_names() == rec.group_names().difference(group_set(groups)),
{
    assert(rec.group_names().union(group_set(groups)).difference(group_set(groups))
        =~= rec.group_names().difference(group_set(groups)));
}

} // verus!
