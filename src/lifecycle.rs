//! The password-reset lifecycle and the clock it runs on.

use vstd::prelude::*;

use crate::types::{HandleError, PasswordResetPhase};

verus! {

/// How long a reset stays valid, in seconds.
pub const DEFAULT_RESET_EXPIRY: u64 = 86400;

/// What the reset phase says of one login or password change.
#[derive(Clone, Copy, Debug, PartialEq, Eq, Structural)]
pub struct LoginGate {
    /// The phase the record holds afterwards.
    pub phase: Option<PasswordResetPhase>,
    /// Whether the operation may go on to check the password.
    pub allowed: bool,
    /// Whether the phase changed and the record has to be written back.
    pub changed: bool,
}

/// The reset-phase machine: given the stored phase, the time `now` (seconds since the unix
/// epoch) and whether the operation is a password change, the phase afterwards, whether the
/// operation may proceed and whether the record changed.
pub open spec fn login_gate(
    phase: Option<PasswordResetPhase>,
    now: u64,
    is_password_change: bool,
) -> LoginGate {
    match phase {
        None => LoginGate { phase: None, allowed: true, changed: false },
        Some(PasswordResetPhase::Reset(expiry)) => if now < expiry {
            LoginGate {
                phase: Some(PasswordResetPhase::InitialLogin(expiry)),
                allowed: true,
                changed: true,
            }
        } else {
            LoginGate { phase: Some(PasswordResetPhase::Locked), allowed: false, changed: true }
        },
        Some(PasswordResetPhase::InitialLogin(expiry)) => if is_password_change && now < expiry {
            LoginGate { phase: phase, allowed: true, changed: false }
        } else {
            LoginGate { phase: Some(PasswordResetPhase::Locked), allowed: false, changed: true }
        },
        Some(PasswordResetPhase::Locked) => LoginGate {
            phase: phase,
            allowed: false,
            changed: false,
        },
    }
}

/// Runs the reset-phase machine for one verification (`is_password_change == false`) or one
/// password change.
pub fn enforce_login_state(
    phase: Option<PasswordResetPhase>,
    now: u64,
    is_password_change: bool,
) -> (r: LoginGate)
    ensures
        r == login_gate(phase, now, is_password_change),
{
    match phase {
        None => LoginGate { phase: None, allowed: true, changed: false },
        Some(PasswordResetPhase::Reset(expiry)) => {
            if now < expiry {
                LoginGate {
                    phase: Some(PasswordResetPhase::InitialLogin(expiry)),
                    allowed: true,
                    changed: true,
                }
            } else {
                LoginGate { phase: Some(PasswordResetPhase::Locked), allowed: false, changed: true }
            }
        },
        Some(PasswordResetPhase::InitialLogin(expiry)) => {
            if is_password_change && now < expiry {
                LoginGate { phase, allowed: true, changed: false }
            } else {
                LoginGate { phase: Some(PasswordResetPhase::Locked), allowed: false, changed: true }
            }
        },
        Some(PasswordResetPhase::Locked) => LoginGate { phase, allowed: false, changed: false },
    }
}

/// Once locked, an account stays locked through any login or password change.
pub proof fn lemma_locked_stays_locked(now: u64, is_password_change: bool)
    ensures
        login_gate(Some(PasswordResetPhase::Locked), now, is_password_change)
            == (LoginGate { phase: Some(PasswordResetPhase::Locked), allowed: false, changed: false }),
{
}

#[verifier::external_type_specification]
#[verifier::external_body]
pub struct ExSystemTime(std::time::SystemTime);

/// Relies on `SystemTime::now`: the system clock's current reading.
#[verifier::external_body]
fn system_now() -> (r: std::time::SystemTime) {
    std::time::SystemTime::now()
}

/// Relies on `SystemTime::duration_since` with `UNIX_EPOCH`: the whole seconds from the unix
/// epoch to `t`, or `None` when `t` lies before it.
#[verifier::external_body]
fn seconds_since_epoch(t: &std::time::SystemTime) -> (r: Option<u64>) {
    t.duration_since(std::time::UNIX_EPOCH).ok().map(|d| d.as_secs())
}

/// The current wall-clock time in seconds since the unix epoch.
pub fn current_time() -> (r: Result<u64, HandleError>)
    ensures
        r matches Err(e) ==> e is SystemError,
{
    let t = system_now();
    match seconds_since_epoch(&t) {
        Some(t) => Ok(t),
        None => Err(HandleError::SystemError("Unable to calculate current system time".to_owned())),
    }
}

/// The instant `time_to_expire` seconds from now, in seconds since the unix epoch.
pub fn get_expiry_duration(time_to_expire: u64) -> (r: Result<u64, HandleError>)
    ensures
        r matches Ok(t) ==> t >= time_to_expire,
        r matches Err(e) ==> e is SystemError,
{
    let now = current_time()?;
    expiry_after(now, time_to_expire)
}

/// The instant `delay` seconds after `now`; an error where it does not fit in 64 bits.
pub fn expiry_after(now: u64, delay: u64) -> (r: Result<u64, HandleError>)
    ensures
        now + delay <= u64::MAX ==> r == Ok::<u64, HandleError>((now + delay) as u64),
        now + delay > u64::MAX ==> (r matches Err(e) && e is SystemError),
{
    match now.checked_add(delay) {
        Some(t) => Ok(t),
        None => Err(HandleError::SystemError("Expiry time is out of range".to_owned())),
    }
}

} // verus!
