use snas::dispatch::{
    ack_envelope, admin_action, payload_envelope, password_change_envelope, sanitize_topic_prefix, subject_action, user_action,
    verification_envelope, AdminAction, UserAction,
};
use snas::{EmptyResponse, GenericResponse, HandleError, VerificationResponse};

#[test]
fn topic_prefixes() {
    assert_eq!(sanitize_topic_prefix(None, "snas.admin"), Ok("snas.admin".to_string()));
    assert_eq!(
        sanitize_topic_prefix(Some("  my.custom.topic \n".to_string()), "snas.admin"),
        Ok("my.custom.topic".to_string())
    );
    assert_eq!(
        sanitize_topic_prefix(Some("my.custom.topic. ".to_string()), "snas.user"),
        Err("topic_prefix must not end with a period, e.g. my.custom.topic".to_string())
    );
    assert_eq!(sanitize_topic_prefix(Some("".to_string()), "snas.user"), Ok(String::new()));
}

#[test]
fn subjects_to_actions() {
    assert_eq!(subject_action("snas.admin.add_user", "snas.admin"), Some("add_user".to_string()));
    assert_eq!(subject_action("snas.admin..verify", "snas.admin"), Some("verify".to_string()));
    assert_eq!(subject_action("snas.user.verify", "snas.admin"), None);
    assert_eq!(subject_action("snas", "snas.admin"), None);

    let names = [
        ("add_user", AdminAction::AddUser),
        ("get_user", AdminAction::GetUser),
        ("list_users", AdminAction::ListUsers),
        ("remove_user", AdminAction::RemoveUser),
        ("reset_password", AdminAction::ResetPassword),
        ("add_groups", AdminAction::AddGroups),
        ("remove_groups", AdminAction::RemoveGroups),
    ];
    for (name, action) in names {
        assert_eq!(admin_action(&name.to_string()), Some(action));
    }
    assert_eq!(admin_action(&"verify".to_string()), None);
    assert_eq!(user_action(&"verify".to_string()), Some(UserAction::Verify));
    assert_eq!(user_action(&"change_password".to_string()), Some(UserAction::ChangePassword));
    assert_eq!(user_action(&"add_user".to_string()), None);
}

#[test]
fn verification_envelopes() {
    let ok = VerificationResponse {
        valid: true,
        message: "Successfully verified".to_string(),
        needs_password_reset: false,
        groups: vec!["foo".to_string()],
    };
    let env = verification_envelope(Ok(ok));
    assert!(env.success);
    assert_eq!(env.message, "Verification succeeded");
    assert!(env.response.unwrap().valid);

    let env = verification_envelope(Err(HandleError::SystemError("disk".to_string())));
    assert!(!env.success);
    assert_eq!(env.message, "verification failed: disk");
}

#[test]
fn password_change_envelopes() {
    let env = password_change_envelope(Ok(()));
    assert!(env.success);
    assert_eq!(env.message, "password changed");
    let env = password_change_envelope(Err(HandleError::InvalidCredentials));
    assert!(!env.success);
    assert_eq!(env.message, "password change failed: Invalid username or password");
}

#[test]
fn envelope_results() {
    let env: GenericResponse<u32> =
        GenericResponse { success: true, message: String::new(), response: None };
    assert_eq!(
        env.into_result_required(),
        Err("Request was successful but contained no response".to_string())
    );
    let env: GenericResponse<u32> =
        GenericResponse { success: true, message: String::new(), response: Some(7) };
    assert_eq!(env.into_result_required(), Ok(7));
    let env: GenericResponse<u32> =
        GenericResponse { success: false, message: "nope".to_string(), response: Some(7) };
    assert_eq!(env.into_result_required(), Err("nope".to_string()));
    let env: GenericResponse<u32> =
        GenericResponse { success: true, message: String::new(), response: None };
    assert_eq!(env.into_result(), Ok(None));
    let env = GenericResponse::<EmptyResponse>::new(false, "bad".to_string());
    assert_eq!(env.into_result_empty(), Err("bad".to_string()));
    let env = GenericResponse::<EmptyResponse>::new(true, String::new());
    assert_eq!(env.into_result_empty(), Ok(()));
}

#[test]
fn admin_envelopes() {
    let env = ack_envelope(Ok(()), "User foo added".to_string(), "Unable to add user: ");
    assert!(env.success);
    assert_eq!(env.message, "User foo added");
    let env = ack_envelope(Err(HandleError::UsernameTaken), String::new(), "Unable to add user: ");
    assert!(!env.success);
    assert_eq!(env.message, "Unable to add user: Username already exists");

    let env = payload_envelope(Ok(3u8), "done".to_string(), "Unable: ");
    assert!(env.success);
    assert_eq!(env.response, Some(3));
    let env = payload_envelope::<u8>(Err(HandleError::UsernameDoesNotExist), String::new(), "Unable to get user: ");
    assert!(!env.success);
    assert_eq!(env.response, None);
    assert_eq!(env.message, "Unable to get user: Username does not exist");
}

#[test]
fn topic_prefix_unicode_white_space() {
    assert_eq!(
        sanitize_topic_prefix(Some("\u{3000}\u{a0}a.b\u{2003}\t".to_string()), "snas.user"),
        Ok("a.b".to_string())
    );
}

#[test]
fn trimming_matches_std() {
    use_trim("  a b  ");
    use_trim("\u{2028}\u{85}");
    use_trim("");
    use_trim("x\u{200b}");
    use_trim("\t\n mid dle \r\u{3000}");
}

fn use_trim(s: &str) {
    assert_eq!(snas::dispatch::trim_text(s), s.trim());
}
