//! Credential authority for a message-bus deployment: password verification, the
//! password-reset lifecycle, group membership, the user record cache and the framed
//! socket protocol spoken by host login modules.

pub mod cache;
pub mod crypto;
pub mod dispatch;
pub mod envelope;
pub mod frame;
pub mod groups;
pub mod handlers;
pub mod lifecycle;
pub mod secure;
pub mod types;

pub use envelope::{EmptyResponse, GenericResponse};
pub use handlers::{Handlers, Outcome};
pub use secure::{SecureBytes, SecureString};
pub use types::{
    AdminUserAddRequest, GroupModifyRequest, HandleError, PasswordChangeRequest,
    PasswordResetPhase, PasswordResetRequest, PasswordResetResponse, UserDeleteRequest,
    UserGetRequest, UserInfo, UserResponse, VerificationRequest, VerificationResponse,
};
