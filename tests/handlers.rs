use snas::dispatch::verification_envelope;
use snas::handlers::{Verdict, TEMP_PASSWORD_LEN};
use snas::lifecycle::{enforce_login_state, LoginGate, expiry_after, get_expiry_duration, DEFAULT_RESET_EXPIRY};
use snas::{AdminUserAddRequest, HandleError, Handlers, PasswordResetPhase, SecureString, UserInfo};

const NOW: u64 = 1_700_000_000;

fn names(list: &[&str]) -> Vec<String> {
    list.iter().map(|s| s.to_string()).collect()
}

fn sorted(mut v: Vec<String>) -> Vec<String> {
    v.sort();
    v
}

fn add_user(h: &Handlers, password: &str, groups: &[&str], force: bool) -> UserInfo {
    let req = AdminUserAddRequest {
        username: "foo".to_string(),
        password: SecureString::from_str(password),
        groups: names(groups),
        force_password_change: force,
    };
    let out = h.add(req, false, NOW);
    assert!(out.result.is_ok(), "Should be able to add user");
    out.store.expect("add should store a record")
}

#[test]
fn happy_verify() {
    let h = Handlers::new();
    let rec = add_user(&h, "supersecure", &["foo"], false);
    assert_eq!(rec.password_reset, None);

    let out = h.verify(Some(rec.duplicate()), &SecureString::from_str("supersecure"), NOW);
    assert!(out.store.is_none());
    let v = out.result.expect("verification should succeed");
    assert!(v.valid);
    assert!(!v.needs_password_reset);
    assert_eq!(v.groups, names(&["foo"]));
    assert_eq!(v.message, "Successfully verified");

    let out = h.verify(Some(rec.duplicate()), &SecureString::from_str("wrong"), NOW);
    assert!(matches!(out.result, Err(HandleError::InvalidCredentials)));
    let env = verification_envelope(out.result);
    assert!(env.success);
    let resp = env.response.expect("a failed verification is still an answer");
    assert!(!resp.valid);
    assert!(!resp.needs_password_reset);
    assert_eq!(resp.message, "Invalid username or password");

    let out = h.verify(None, &SecureString::from_str("supersecure"), NOW);
    assert!(matches!(out.result, Err(HandleError::UsernameDoesNotExist)));
    let env = verification_envelope(out.result);
    assert!(!env.success);
    assert!(env.response.is_none());
    assert_eq!(env.message, "verification failed: Username does not exist");
}

#[test]
fn add_existing_user_is_taken() {
    let h = Handlers::new();
    let req = AdminUserAddRequest {
        username: "foo".to_string(),
        password: SecureString::from_str("p"),
        groups: names(&["foo"]),
        force_password_change: false,
    };
    let out = h.add(req, true, NOW);
    assert!(out.store.is_none());
    assert!(matches!(out.result, Err(HandleError::UsernameTaken)));
}

#[test]
fn add_drops_repeated_groups() {
    let h = Handlers::new();
    let rec = add_user(&h, "p", &["a", "b", "a"], false);
    assert_eq!(rec.groups, names(&["a", "b"]));
}

#[test]
fn change_password_round_trip() {
    let h = Handlers::new();
    let rec = add_user(&h, "supersecure", &["foo"], false);

    let out = h.change_password(
        Some(rec.duplicate()),
        &SecureString::from_str("wrong"),
        &SecureString::from_str("new"),
        NOW,
    );
    assert!(matches!(out.result, Err(HandleError::InvalidCredentials)));
    assert!(out.store.is_none());

    let out = h.change_password(
        Some(rec),
        &SecureString::from_str("supersecure"),
        &SecureString::from_str("new"),
        NOW,
    );
    assert!(out.result.is_ok());
    let rec = out.store.expect("a changed password is stored");
    assert_eq!(rec.password_reset, None);

    let v = h.verify(Some(rec.duplicate()), &SecureString::from_str("new"), NOW).result;
    assert!(v.expect("new password verifies").valid);
    let old = h.verify(Some(rec), &SecureString::from_str("supersecure"), NOW).result;
    assert!(matches!(old, Err(HandleError::InvalidCredentials)));
}

#[test]
fn forced_reset_lifecycle() {
    let h = Handlers::new();
    let rec = add_user(&h, "easy123", &["foo"], true);
    assert_eq!(rec.password_reset, Some(PasswordResetPhase::Reset(NOW + DEFAULT_RESET_EXPIRY)));

    let out = h.change_password(
        Some(rec),
        &SecureString::from_str("easy123"),
        &SecureString::from_str("easy1234"),
        NOW + 1,
    );
    assert!(out.result.is_ok(), "Should be able to change password");
    let rec = out.store.unwrap();
    let v = h.verify(Some(rec.duplicate()), &SecureString::from_str("easy1234"), NOW + 2);
    let v = v.result.expect("Should be able to log in after reset");
    assert!(v.valid);
    assert!(!v.needs_password_reset, "Should not need a password reset");

    let out = h.reset_password(Some(rec), NOW + 10);
    let resp = out.result.expect("Should be able to reset password");
    assert_eq!(resp.expires_at, NOW + 10 + DEFAULT_RESET_EXPIRY);
    let token = resp.temp_password.as_str().to_string();
    assert_eq!(token.len(), TEMP_PASSWORD_LEN);
    assert!(token.chars().all(|c| c.is_ascii_alphanumeric()));
    let rec = out.store.unwrap();
    assert_eq!(rec.password_reset, Some(PasswordResetPhase::Reset(resp.expires_at)));

    let out = h.verify(Some(rec), &SecureString::from_str(&token), NOW + 20);
    let v = out.result.expect("Should be able to log in");
    assert!(v.valid);
    assert!(v.needs_password_reset, "Should need a password reset");
    let rec = out.store.expect("the first login moves the phase on");
    assert_eq!(rec.password_reset, Some(PasswordResetPhase::InitialLogin(resp.expires_at)));

    let out = h.verify(Some(rec), &SecureString::from_str(&token), NOW + 30);
    assert!(matches!(out.result, Err(HandleError::PasswordResetExpired)));
    let rec = out.store.expect("the second login locks the account");
    assert_eq!(rec.password_reset, Some(PasswordResetPhase::Locked));
    let user = h.get("foo", Some(rec)).ok().expect("Should be able to get user");
    assert_eq!(user.password_change_phase, Some(PasswordResetPhase::Locked));
    assert_eq!(user.username, "foo");
}

#[test]
fn expired_reset() {
    let h = Handlers::with_reset_expiry(300);
    let rec = add_user(&h, "easy123", &["foo"], true);
    assert_eq!(rec.password_reset, Some(PasswordResetPhase::Reset(NOW + 300)));
    let out = h.verify(Some(rec), &SecureString::from_str("easy123"), NOW + 300);
    assert!(matches!(out.result, Err(HandleError::PasswordResetExpired)));
    assert_eq!(out.store.unwrap().password_reset, Some(PasswordResetPhase::Locked));
    let env = verification_envelope(out.result);
    assert!(env.success);
    let resp = env.response.unwrap();
    assert!(!resp.valid, "Should not be able to log in after password reset has expired");
    assert!(resp.needs_password_reset);
    assert_eq!(resp.message, "Password reset has expired");
}

#[test]
fn locked_account_refuses_change_until_reset() {
    let h = Handlers::new();
    let mut rec = add_user(&h, "pw", &["foo"], false);
    rec.password_reset = Some(PasswordResetPhase::Locked);
    let out = h.change_password(
        Some(rec.duplicate()),
        &SecureString::from_str("pw"),
        &SecureString::from_str("pw2"),
        NOW,
    );
    assert!(matches!(out.result, Err(HandleError::PasswordResetExpired)));
    assert!(out.store.is_none());
    let out = h.reset_password(Some(rec), NOW);
    let resp = out.result.ok().unwrap();
    assert_eq!(out.store.unwrap().password_reset, Some(PasswordResetPhase::Reset(resp.expires_at)));
}

#[test]
fn unreadable_hash_is_a_system_error() {
    let h = Handlers::new();
    let rec = UserInfo {
        hashed_password: SecureString::from_str("not a hash"),
        password_reset: None,
        groups: names(&["foo"]),
    };
    let out = h.verify(Some(rec), &SecureString::from_str("pw"), NOW);
    assert!(matches!(out.result, Err(HandleError::SystemError(_))));
}

#[test]
fn group_arithmetic() {
    let h = Handlers::new();
    let rec = add_user(&h, "p", &["bar"], false);
    let out = h.add_groups(Some(rec), &names(&["g1", "g2"]));
    assert_eq!(sorted(out.result.ok().unwrap()), names(&["bar", "g1", "g2"]));
    let out = h.delete_groups(out.store, &names(&["g1"]));
    assert_eq!(sorted(out.result.ok().unwrap()), names(&["bar", "g2"]));
    let user = h.get("bar", out.store).ok().unwrap();
    assert_eq!(sorted(user.groups), names(&["bar", "g2"]));
}

#[test]
fn add_then_remove_same_groups() {
    let h = Handlers::new();
    let rec = add_user(&h, "p", &["a", "b"], false);
    let added = h.add_groups(Some(rec), &names(&["b", "c"]));
    let removed = h.delete_groups(added.store, &names(&["b", "c"]));
    assert_eq!(removed.result.ok().unwrap(), names(&["a"]));
}

#[test]
fn groups_of_missing_user() {
    let h = Handlers::new();
    assert!(matches!(
        h.add_groups(None, &names(&["g"])).result,
        Err(HandleError::UsernameDoesNotExist)
    ));
    assert!(matches!(
        h.delete_groups(None, &names(&["g"])).result,
        Err(HandleError::UsernameDoesNotExist)
    ));
    assert!(matches!(h.reset_password(None, NOW).result, Err(HandleError::UsernameDoesNotExist)));
    assert!(matches!(h.get("x", None), Err(HandleError::UsernameDoesNotExist)));
}

#[test]
fn login_gate_transitions() {
    let g = enforce_login_state(Some(PasswordResetPhase::Reset(10)), 9, false);
    assert_eq!(g.phase, Some(PasswordResetPhase::InitialLogin(10)));
    assert!(g.allowed && g.changed);
    let g = enforce_login_state(Some(PasswordResetPhase::Reset(10)), 10, false);
    assert_eq!(g.phase, Some(PasswordResetPhase::Locked));
    assert!(!g.allowed && g.changed);
    let g = enforce_login_state(Some(PasswordResetPhase::InitialLogin(10)), 5, true);
    assert_eq!(g.phase, Some(PasswordResetPhase::InitialLogin(10)));
    assert!(g.allowed && !g.changed);
    let g = enforce_login_state(Some(PasswordResetPhase::InitialLogin(10)), 5, false);
    assert_eq!(g.phase, Some(PasswordResetPhase::Locked));
    assert!(!g.allowed);
    let g = enforce_login_state(Some(PasswordResetPhase::InitialLogin(10)), 10, true);
    assert_eq!(g.phase, Some(PasswordResetPhase::Locked));
    let g = enforce_login_state(Some(PasswordResetPhase::Locked), 0, true);
    assert!(!g.allowed && !g.changed);
    let g = enforce_login_state(None, 0, false);
    assert!(g.allowed && !g.changed && g.phase.is_none());
    assert_eq!(Verdict::Accepted, Verdict::Accepted);
}

#[test]
fn expiry_arithmetic() {
    assert_eq!(expiry_after(100, 86400).ok(), Some(86500));
    assert!(matches!(expiry_after(u64::MAX, 1), Err(HandleError::SystemError(_))));
    let e = get_expiry_duration(DEFAULT_RESET_EXPIRY).ok().unwrap();
    assert!(e > 1_600_000_000 + DEFAULT_RESET_EXPIRY);
}

#[test]
fn error_messages() {
    assert_eq!(HandleError::UsernameTaken.message(), "Username already exists");
    assert_eq!(HandleError::InvalidCredentials.message(), "Invalid username or password");
    assert_eq!(HandleError::PasswordResetExpired.message(), "Password reset has expired");
    assert_eq!(HandleError::UsernameDoesNotExist.message(), "Username does not exist");
    assert_eq!(HandleError::SystemError("boom".to_string()).message(), "boom");
}

#[test]
fn hash_is_not_the_password() {
    let h = Handlers::new();
    let rec = add_user(&h, "supersecure", &["foo"], false);
    assert_ne!(rec.hashed_password.as_str(), "supersecure");
    assert!(rec.hashed_password.as_str().starts_with("$argon2"));
}

fn request(force: bool) -> AdminUserAddRequest {
    AdminUserAddRequest {
        username: "u".to_string(),
        password: SecureString::from_str("pw"),
        groups: names(&["g", "g", "h"]),
        force_password_change: force,
    }
}

#[test]
fn add_with_each_hash_outcome() {
    let h = Handlers::with_reset_expiry(10);
    let out = h.add_hashed(request(false), None, NOW);
    assert!(matches!(out.result, Err(HandleError::SystemError(_))));
    assert!(out.store.is_none());

    let out = h.add_hashed(request(true), Some("H".to_string()), NOW);
    assert!(out.result.is_ok());
    let rec = out.store.unwrap();
    assert_eq!(rec.hashed_password.as_str(), "H");
    assert_eq!(rec.password_reset, Some(PasswordResetPhase::Reset(NOW + 10)));
    assert_eq!(rec.groups, names(&["g", "h"]));

    let out = h.add_hashed(request(true), Some("H".to_string()), u64::MAX - 5);
    assert!(matches!(out.result, Err(HandleError::SystemError(_))));
    let out = h.add_hashed(request(false), Some("H".to_string()), u64::MAX - 5);
    assert_eq!(out.store.unwrap().password_reset, None);
}

#[test]
fn settle_change_for_each_outcome() {
    let h = Handlers::new();
    let rec = |phase| UserInfo {
        hashed_password: SecureString::from_str("old"),
        password_reset: phase,
        groups: names(&["g"]),
    };
    let open = LoginGate { phase: None, allowed: true, changed: false };
    let out = h.settle_password_change(rec(None), open, Some(true), Some("new".to_string()));
    assert!(out.result.is_ok());
    let s = out.store.unwrap();
    assert_eq!(s.hashed_password.as_str(), "new");
    assert_eq!(s.password_reset, None);
    assert_eq!(s.groups, names(&["g"]));

    let out = h.settle_password_change(rec(None), open, Some(true), None);
    assert!(matches!(out.result, Err(HandleError::SystemError(_))));
    assert!(out.store.is_none());
    let out = h.settle_password_change(rec(None), open, Some(false), Some("new".to_string()));
    assert!(matches!(out.result, Err(HandleError::InvalidCredentials)));
    let out = h.settle_password_change(rec(None), open, None, None);
    assert!(matches!(out.result, Err(HandleError::SystemError(_))));

    let locked = Some(PasswordResetPhase::Locked);
    let denied = LoginGate { phase: locked, allowed: false, changed: true };
    let out = h.settle_password_change(rec(locked), denied, Some(true), Some("new".to_string()));
    assert!(matches!(out.result, Err(HandleError::PasswordResetExpired)));
    assert_eq!(out.store.unwrap().password_reset, locked);

    let first = Some(PasswordResetPhase::InitialLogin(NOW));
    let moved = LoginGate { phase: first, allowed: true, changed: true };
    let out = h.settle_password_change(rec(first), moved, Some(false), None);
    assert!(matches!(out.result, Err(HandleError::InvalidCredentials)));
    assert_eq!(out.store.unwrap().password_reset, first);
}

#[test]
fn reset_with_each_outcome() {
    let h = Handlers::with_reset_expiry(60);
    let rec = UserInfo {
        hashed_password: SecureString::from_str("old"),
        password_reset: Some(PasswordResetPhase::Locked),
        groups: names(&["g"]),
    };
    let out = h.reset_with(Some(rec.duplicate()), NOW, "tok".to_string(), None);
    assert!(matches!(out.result, Err(HandleError::SystemError(_))));
    let out = h.reset_with(Some(rec.duplicate()), NOW, "tok".to_string(), Some("H".to_string()));
    let resp = out.result.ok().unwrap();
    assert_eq!(resp.temp_password.as_str(), "tok");
    assert_eq!(resp.expires_at, NOW + 60);
    let s = out.store.unwrap();
    assert_eq!(s.hashed_password.as_str(), "H");
    assert_eq!(s.password_reset, Some(PasswordResetPhase::Reset(NOW + 60)));
    let out = h.reset_with(None, NOW, "tok".to_string(), Some("H".to_string()));
    assert!(matches!(out.result, Err(HandleError::UsernameDoesNotExist)));
    let out = h.reset_with(Some(rec), u64::MAX, "tok".to_string(), Some("H".to_string()));
    assert!(matches!(out.result, Err(HandleError::SystemError(_))));
}

#[test]
fn hash_password_succeeds() {
    let h = snas::crypto::hash_password("pw").expect("hashing a short password succeeds");
    assert!(h.starts_with("$argon2id$"));
    assert_ne!(h, snas::crypto::hash_password("pw").unwrap(), "each hash has its own salt");
}

#[test]
fn hash_with_given_salt() {
    let salt = [7u8; snas::crypto::SALT_LEN];
    let a = snas::crypto::hash_password_with_salt("pw", &salt).expect("a short password hashes");
    let b = snas::crypto::hash_password_with_salt("pw", &salt).unwrap();
    assert_eq!(a, b, "the same salt gives the same hash");
    assert!(a.starts_with("$argon2id$"));
    assert_ne!(a, snas::crypto::hash_password_with_salt("other", &salt).unwrap());
}

#[test]
fn random_passwords_are_alphanumeric() {
    let t = snas::crypto::random_alphanumeric(TEMP_PASSWORD_LEN).expect("the generator seeds");
    assert_eq!(t.len(), TEMP_PASSWORD_LEN);
    assert!(t.chars().all(|c| c.is_ascii_alphanumeric()));
    assert_eq!(snas::crypto::random_alphanumeric(0), Some(String::new()));
}
