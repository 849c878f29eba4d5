//! Request dispatch: subject prefixes, action names, and the envelopes that answer requests.

use vstd::prelude::*;

use crate::envelope::{EmptyResponse, GenericResponse};
use crate::types::{error_text, HandleError, VerificationResponse, INVALID_CREDENTIALS_MESSAGE,
    RESET_EXPIRED_MESSAGE};

verus! {

pub const DEFAULT_ADMIN_NATS_SUBJECT_PREFIX: &'static str = "snas.admin";

pub const DEFAULT_USER_NATS_SUBJECT_PREFIX: &'static str = "snas.user";

pub const PREFIX_PERIOD_MESSAGE: &'static str =
    "topic_prefix must not end with a period, e.g. my.custom.topic";

pub const VERIFICATION_SUCCEEDED_MESSAGE: &'static str = "Verification succeeded";

pub const VERIFICATION_FAILED_MESSAGE: &'static str = "Verification failed";

pub const VERIFICATION_ERROR_PREFIX: &'static str = "verification failed: ";

pub const PASSWORD_CHANGED_MESSAGE: &'static str = "password changed";

pub const PASSWORD_CHANGE_ERROR_PREFIX: &'static str = "password change failed: ";

/// The text of an optional string.
pub open spec fn opt_text(o: Option<String>) -> Option<Seq<char>> {
    match o {
        Some(s) => Some(s@),
        None => None,
    }
}

/// A character with Unicode's White_Space property.
pub open spec fn is_white_space(c: char) -> bool {
    ||| '\u{9}' <= c && c <= '\u{d}'
    ||| c == ' ' || c == '\u{85}' || c == '\u{a0}' || c == '\u{1680}'
    ||| '\u{2000}' <= c && c <= '\u{200a}'
    ||| c == '\u{2028}' || c == '\u{2029}' || c == '\u{202f}' || c == '\u{205f}'
    ||| c == '\u{3000}'
}

/// `s` without its leading white space.
pub open spec fn trim_start(s: Seq<char>) -> Seq<char>
    decreases s.len(),
{
    if s.len() > 0 && is_white_space(s[0]) {
        trim_start(s.drop_first())
    } else {
        s
    }
}

/// `s` without its trailing white space.
pub open spec fn trim_end(s: Seq<char>) -> Seq<char>
    decreases s.len(),
{
    if s.len() > 0 && is_white_space(s.last()) {
        trim_end(s.drop_last())
    } else {
        s
    }
}

/// `s` without its leading and trailing white space.
pub open spec fn trimmed(s: Seq<char>) -> Seq<char> {
    trim_end(trim_start(s))
}

/// Whether `c` has Unicode's White_Space property.
pub fn is_white_space_char(c: char) -> (r: bool)
    ensures
        r == is_white_space(c),
{
    ('\u{9}' <= c && c <= '\u{d}') || c == ' ' || c == '\u{85}' || c == '\u{a0}' || c
        == '\u{1680}' || ('\u{2000}' <= c && c <= '\u{200a}') || c == '\u{2028}' || c
        == '\u{2029}' || c == '\u{202f}' || c == '\u{205f}' || c == '\u{3000}'
}

/// `s` without its leading and trailing white space, as `str::trim` gives it.
pub fn trim_text(s: &str) -> (r: String)
    ensures
        r@ == trimmed(s@),
{
    let n = s.unicode_len();
    let mut start: usize = 0;
    assert(s@.subrange(0, n as int) =~= s@);
    while start < n && is_white_space_char(s.get_char(start))
        invariant
            n == s@.len(),
            start <= n,
            trim_start(s@.subrange(start as int, n as int)) == trim_start(s@),
        decreases n - start,
    {
        assert(s@.subrange(start as int, n as int).drop_first() =~= s@.subrange(
            start + 1,
            n as int,
        ));
        start = start + 1;
    }
    assert(trim_start(s@) == s@.subrange(start as int, n as int));
    let mut end: usize = n;
    while end > start && is_white_space_char(s.get_char(end - 1))
        invariant
            n == s@.len(),
            start <= end <= n,
            trim_end(s@.subrange(start as int, end as int)) == trimmed(s@),
        decreases end,
    {
        assert(s@.subrange(start as int, end as int).drop_last() =~= s@.subrange(
            start as int,
            end - 1,
        ));
        end = end - 1;
    }
    assert(trimmed(s@) == s@.subrange(start as int, end as int));
    s.substring_char(start, end).to_owned()
}

/// The subject prefix to use: the default where none is given, otherwise the given one
/// without surrounding white space, which must not end with a period.
pub open spec fn prefix_spec(prefix: Option<Seq<char>>, default_prefix: Seq<char>) -> Option<
    Seq<char>,
> {
    match prefix {
        None => Some(default_prefix),
        Some(p) => {
            let t = trimmed(p);
            if t.len() > 0 && t.last() == '.' {
                None
            } else {
                Some(t)
            }
        },
    }
}

/// Checks a configured subject prefix, which has the form `my.custom.topic`: the default where
/// none is given, otherwise the prefix without surrounding white space; an error where it ends
/// with a period.
pub fn sanitize_topic_prefix(prefix: Option<String>, default_prefix: &str) -> (r: Result<
    String,
    String,
>)
    ensures
        r is Ok <==> prefix_spec(opt_text(prefix), default_prefix@) is Some,
        r matches Ok(p) ==> Some(p@) == prefix_spec(opt_text(prefix), default_prefix@),
        r matches Err(e) ==> e@ == PREFIX_PERIOD_MESSAGE@,
{
    match prefix {
        Some(p) => {
            let t = trim_text(p.as_str());
            let n = t.as_str().unicode_len();
            if n > 0 && t.as_str().get_char(n - 1) == '.' {
                return Err(PREFIX_PERIOD_MESSAGE.to_owned());
            }
            Ok(t)
        },
        None => Ok(default_prefix.to_owned()),
    }
}

/// `s` without its leading periods.
pub open spec fn strip_dots(s: Seq<char>) -> Seq<char>
    decreases s.len(),
{
    if s.len() > 0 && s[0] == '.' {
        strip_dots(s.drop_first())
    } else {
        s
    }
}

/// The action named by `subject` under `prefix`: what follows the prefix, without leading
/// periods; `None` where the subject does not start with the prefix.
pub open spec fn action_spec(subject: Seq<char>, prefix: Seq<char>) -> Option<Seq<char>> {
    if prefix.is_prefix_of(subject) {
        Some(strip_dots(subject.subrange(prefix.len() as int, subject.len() as int)))
    } else {
        None
    }
}

/// The action named by a message's subject under the server's prefix.
pub fn subject_action(subject: &str, prefix: &str) -> (r: Option<String>)
    ensures
        opt_text(r) == action_spec(subject@, prefix@),
{
    let n = subject.unicode_len();
    let p = prefix.unicode_len();
    if p > n {
        return None;
    }
    let mut i: usize = 0;
    while i < p
        invariant
            p == prefix@.len(),
            n == subject@.len(),
            p <= n,
            i <= p,
            forall|j: int| 0 <= j < i ==> subject@[j] == prefix@[j],
        decreases p - i,
    {
        if subject.get_char(i) != prefix.get_char(i) {
            return None;
        }
        i = i + 1;
    }
    assert(prefix@.is_prefix_of(subject@)) by {
        assert(prefix@ =~= subject@.subrange(0, p as int));
    }
    let mut start: usize = p;
    while start < n && subject.get_char(start) == '.'
        invariant
            p <= start <= n,
            n == subject@.len(),
            strip_dots(subject@.subrange(start as int, n as int)) == strip_dots(
                subject@.subrange(p as int, n as int),
            ),
        decreases n - start,
    {
        assert(subject@.subrange(start as int, n as int).drop_first() =~= subject@.subrange(
            start + 1,
            n as int,
        ));
        start = start + 1;
    }
    let rest = subject.substring_char(start, n);
    proof {
        let t = subject@.subrange(start as int, n as int);
        assert(!(t.len() > 0 && t[0] == '.'));
        assert(strip_dots(t) == t);
    }
    Some(rest.to_owned())
}

/// The actions of the admin API.
#[derive(Clone, Copy, Debug, PartialEq, Eq, Structural)]
pub enum AdminAction {
    AddUser,
    GetUser,
    ListUsers,
    RemoveUser,
    ResetPassword,
    AddGroups,
    RemoveGroups,
}

/// The actions of the user API, on the bus and on the socket.
#[derive(Clone, Copy, Debug, PartialEq, Eq, Structural)]
pub enum UserAction {
    Verify,
    ChangePassword,
}

/// The admin action of each name; every action is reached by its own name.
pub open spec fn admin_action_spec(name: Seq<char>) -> Option<AdminAction> {
    if name == "add_user"@ {
        Some(AdminAction::AddUser)
    } else if name == "get_user"@ {
        Some(AdminAction::GetUser)
    } else if name == "list_users"@ {
        Some(AdminAction::ListUsers)
    } else if name == "remove_user"@ {
        Some(AdminAction::RemoveUser)
    } else if name == "reset_password"@ {
        Some(AdminAction::ResetPassword)
    } else if name == "add_groups"@ {
        Some(AdminAction::AddGroups)
    } else if name == "remove_groups"@ {
        Some(AdminAction::RemoveGroups)
    } else {
        None
    }
}

/// The user action of each name.
pub open spec fn user_action_spec(name: Seq<char>) -> Option<UserAction> {
    if name == "verify"@ {
        Some(UserAction::Verify)
    } else if name == "change_password"@ {
        Some(UserAction::ChangePassword)
    } else {
        None
    }
}

/// Whether `name` reads `lit`.
fn names_equal(name: &String, lit: &str) -> (r: bool)
    ensures
        r == (name@ == lit@),
{
    *name == lit.to_owned()
}

/// The admin action named `name`, if any.
pub fn admin_action(name: &String) -> (r: Option<AdminAction>)
    ensures
        r == admin_action_spec(name@),
{
    if names_equal(name, "add_user") {
        Some(AdminAction::AddUser)
    } else if names_equal(name, "get_user") {
        Some(AdminAction::GetUser)
    } else if names_equal(name, "list_users") {
        Some(AdminAction::ListUsers)
    } else if names_equal(name, "remove_user") {
        Some(AdminAction::RemoveUser)
    } else if names_equal(name, "reset_password") {
        Some(AdminAction::ResetPassword)
    } else if names_equal(name, "add_groups") {
        Some(AdminAction::AddGroups)
    } else if names_equal(name, "remove_groups") {
        Some(AdminAction::RemoveGroups)
    } else {
        None
    }
}

/// The user action named `name`, if any.
pub fn user_action(name: &String) -> (r: Option<UserAction>)
    ensures
        r == user_action_spec(name@),
{
    if names_equal(name, "verify") {
        Some(UserAction::Verify)
    } else if names_equal(name, "change_password") {
        Some(UserAction::ChangePassword)
    } else {
        None
    }
}

/// `prefix` followed by `text`.
pub fn join_message(prefix: &str, text: &str) -> (r: String)
    ensures
        r@ == prefix@ + text@,
{
    prefix.to_owned().concat(text)
}

/// The envelope that answers a failed request with `message`.
pub fn error_envelope(message: String) -> (r: GenericResponse<EmptyResponse>)
    ensures
        !r.success,
        r.message@ == message@,
        r.response is None,
{
    GenericResponse::new(false, message)
}

/// The envelope that answers a verification. Wrong credentials and an expired reset are
/// answers, not failures of the call: they come back as a successful envelope holding an
/// invalid verification. Any other error fails the call.
pub fn verification_envelope(result: Result<VerificationResponse, HandleError>) -> (r:
    GenericResponse<VerificationResponse>)
    ensures
        match result {
            Ok(v) => r.success && r.message@ == VERIFICATION_SUCCEEDED_MESSAGE@ && r.response
                == Some(v),
            Err(HandleError::InvalidCredentials) => r.success && r.message@
                == VERIFICATION_FAILED_MESSAGE@ && (r.response matches Some(v) && !v.valid
                && v.message@ == INVALID_CREDENTIALS_MESSAGE@ && !v.needs_password_reset
                && v.groups@.len() == 0),
            Err(HandleError::PasswordResetExpired) => r.success && r.message@
                == VERIFICATION_FAILED_MESSAGE@ && (r.response matches Some(v) && !v.valid
                && v.message@ == RESET_EXPIRED_MESSAGE@ && v.needs_password_reset
                && v.groups@.len() == 0),
            Err(e) => !r.success && r.response is None && r.message@
                == VERIFICATION_ERROR_PREFIX@ + error_text(e),
        },
{
    match result {
        Ok(v) => GenericResponse {
            success: true,
            message: VERIFICATION_SUCCEEDED_MESSAGE.to_owned(),
            response: Some(v),
        },
        Err(HandleError::InvalidCredentials) => GenericResponse {
            success: true,
            message: VERIFICATION_FAILED_MESSAGE.to_owned(),
            response: Some(
                VerificationResponse {
                    valid: false,
                    message: INVALID_CREDENTIALS_MESSAGE.to_owned(),
                    needs_password_reset: false,
                    groups: Vec::new(),
                },
            ),
        },
        Err(HandleError::PasswordResetExpired) => GenericResponse {
            success: true,
            message: VERIFICATION_FAILED_MESSAGE.to_owned(),
            response: Some(
                VerificationResponse {
                    valid: false,
                    message: RESET_EXPIRED_MESSAGE.to_owned(),
                    needs_password_reset: true,
                    groups: Vec::new(),
                },
            ),
        },
        Err(e) => {
            let text = e.message();
            GenericResponse {
                success: false,
                message: join_message(VERIFICATION_ERROR_PREFIX, text.as_str()),
                response: None,
            }
        },
    }
}

/// The envelope that answers a request without payload: success with `done` as its message,
/// or failure with the error's text after `failure_prefix`.
pub fn ack_envelope(result: Result<(), HandleError>, done: String, failure_prefix: &str) -> (r:
    GenericResponse<EmptyResponse>)
    ensures
        r.response is None,
        r.success == result is Ok,
        result is Ok ==> r.message@ == done@,
        result matches Err(e) ==> r.message@ == failure_prefix@ + error_text(e),
{
    match result {
        Ok(()) => GenericResponse::new(true, done),
        Err(e) => {
            let text = e.message();
            GenericResponse::new(false, join_message(failure_prefix, text.as_str()))
        },
    }
}

/// The envelope that answers a request with a payload: success with `done` as its message and
/// the payload, or failure with the error's text after `failure_prefix` and no payload.
pub fn payload_envelope<T>(result: Result<T, HandleError>, done: String, failure_prefix: &str) -> (r:
    GenericResponse<T>)
    ensures
        r.success == result is Ok,
        result matches Ok(v) ==> r.message@ == done@ && r.response == Some(v),
        result matches Err(e) ==> r.message@ == failure_prefix@ + error_text(e) && r.response is None,
{
    match result {
        Ok(v) => GenericResponse { success: true, message: done, response: Some(v) },
        Err(e) => {
            let text = e.message();
            GenericResponse {
                success: false,
                message: join_message(failure_prefix, text.as_str()),
                response: None,
            }
        },
    }
}

/// The envelope that answers a password change.
pub fn password_change_envelope(result: Result<(), HandleError>) -> (r: GenericResponse<
    EmptyResponse,
>)
    ensures
        r.response is None,
        r.success == result is Ok,
        result is Ok ==> r.message@ == PASSWORD_CHANGED_MESSAGE@,
        result matches Err(e) ==> r.message@ == PASSWORD_CHANGE_ERROR_PREFIX@ + error_text(e),
{
    ack_envelope(result, PASSWORD_CHANGED_MESSAGE.to_owned(), PASSWORD_CHANGE_ERROR_PREFIX)
}

} // verus!
