use lemurs::auth::{
    harvest_env, interpret_user_record, parse_env_entry, resolve_identity, AuthUserInfo,
    AuthenticationError, ConversationReply, PamFlow, PamPhase, UserRecord, PAM_MSG_ERROR,
    PAM_MSG_PROMPT_ECHO_OFF, PAM_MSG_PROMPT_ECHO_ON, PAM_MSG_TEXT_INFO, PAM_STATUS_CRED_EXPIRED,
    PAM_STATUS_CRED_UNAVAIL, PAM_STATUS_SUCCESS,
};
use lemurs::env_container::EnvironmentContainer;

#[test]
fn test_credential_moves_secret_into_flow() {
    let credential = lemurs::auth::Credential::new("alice".to_string(), "pw".to_string());
    let (username, flow) = credential.into_flow();
    assert_eq!(username, "alice");
    assert_eq!(flow.phase, PamPhase::Started);
    assert_eq!(flow.conv.secret, Some("pw".to_string()));
}

#[test]
fn test_secret_cleared_after_successful_authenticate() {
    let mut flow = PamFlow::begin("hunter2".to_string());
    // Before authentication the conversation still supplies the secret.
    assert_eq!(
        flow.conv.respond(PAM_MSG_PROMPT_ECHO_OFF),
        ConversationReply::Secret("hunter2".to_string())
    );
    flow.complete_authenticate(PAM_STATUS_SUCCESS).unwrap();
    assert_eq!(flow.phase, PamPhase::Authenticated);
    assert_eq!(flow.conv.secret, None);
    // Any later prompt, of either echo style, receives nothing.
    assert_eq!(flow.conv.respond(PAM_MSG_PROMPT_ECHO_OFF), ConversationReply::NoResponse);
    assert_eq!(flow.conv.respond(PAM_MSG_PROMPT_ECHO_ON), ConversationReply::NoResponse);
}

#[test]
fn test_conversation_replies() {
    let flow = PamFlow::begin("pw".to_string());
    assert_eq!(
        flow.conv.respond(PAM_MSG_PROMPT_ECHO_ON),
        ConversationReply::Secret("pw".to_string())
    );
    assert_eq!(flow.conv.respond(PAM_MSG_ERROR), ConversationReply::EmptyText);
    assert_eq!(flow.conv.respond(PAM_MSG_TEXT_INFO), ConversationReply::EmptyText);
    assert_eq!(flow.conv.respond(99), ConversationReply::AbortConversation);
}

#[test]
fn test_failed_authenticate_is_invalid_credentials() {
    let mut flow = PamFlow::begin("pw".to_string());
    let r = flow.complete_authenticate(7);
    assert_eq!(r, Err(AuthenticationError::InvalidCredentials));
    assert_eq!(flow.phase, PamPhase::Started);
}

#[test]
fn test_unmapped_setcred_status_surfaces_as_other() {
    // The two statuses with dedicated variants map to those variants...
    let mut flow = PamFlow::begin("pw".to_string());
    flow.complete_authenticate(PAM_STATUS_SUCCESS).unwrap();
    flow.complete_account_check(PAM_STATUS_SUCCESS).unwrap();
    assert_eq!(
        flow.complete_set_credentials(PAM_STATUS_CRED_UNAVAIL),
        Err(AuthenticationError::CredentialsUnavailable)
    );
    assert_eq!(
        flow.complete_set_credentials(PAM_STATUS_CRED_EXPIRED),
        Err(AuthenticationError::CredentialsExpired)
    );
    // ...and every other failing status is carried verbatim, never coerced.
    for code in [1, 4, 6, 7, 14, 17, 26, 31] {
        assert_eq!(flow.complete_set_credentials(code), Err(AuthenticationError::Other(code)));
    }
}

#[test]
fn test_full_pam_sequence_reaches_session_opened() {
    let mut flow = PamFlow::begin("pw".to_string());
    flow.complete_authenticate(PAM_STATUS_SUCCESS).unwrap();
    flow.complete_account_check(PAM_STATUS_SUCCESS).unwrap();
    flow.complete_set_credentials(PAM_STATUS_SUCCESS).unwrap();
    flow.complete_open_session(PAM_STATUS_SUCCESS).unwrap();
    assert_eq!(flow.phase, PamPhase::SessionOpened);
}

#[test]
fn test_session_open_failure() {
    let mut flow = PamFlow::begin("pw".to_string());
    flow.complete_authenticate(PAM_STATUS_SUCCESS).unwrap();
    flow.complete_account_check(PAM_STATUS_SUCCESS).unwrap();
    flow.complete_set_credentials(PAM_STATUS_SUCCESS).unwrap();
    assert_eq!(flow.complete_open_session(14), Err(AuthenticationError::SessionOpenFailed));
}

#[test]
fn test_parse_env_entry_splits_at_first_equals() {
    assert_eq!(
        parse_env_entry("PATH=/usr/bin:/bin"),
        Some(("PATH".to_string(), "/usr/bin:/bin".to_string()))
    );
    assert_eq!(parse_env_entry("A=x=y"), Some(("A".to_string(), "x=y".to_string())));
    assert_eq!(parse_env_entry("nonsense"), None);
    assert_eq!(parse_env_entry("=v"), Some(("".to_string(), "v".to_string())));
}

#[test]
fn test_harvested_environment_reflects_entries_exactly() {
    let entries = vec![
        "SSH_AUTH_SOCK=/run/user/1000/agent".to_string(),
        "no-equals-here".to_string(),
        "KRB5CCNAME=FILE:/tmp/krb5cc".to_string(),
        "EMPTY=".to_string(),
    ];
    let pairs = harvest_env(&entries);
    assert_eq!(
        pairs,
        vec![
            ("SSH_AUTH_SOCK".to_string(), "/run/user/1000/agent".to_string()),
            ("KRB5CCNAME".to_string(), "FILE:/tmp/krb5cc".to_string()),
            ("EMPTY".to_string(), "".to_string()),
        ]
    );
}

#[test]
fn test_auth_user_info_from_session() {
    let mut flow = PamFlow::begin("pw".to_string());
    flow.complete_authenticate(PAM_STATUS_SUCCESS).unwrap();
    flow.complete_account_check(PAM_STATUS_SUCCESS).unwrap();
    flow.complete_set_credentials(PAM_STATUS_SUCCESS).unwrap();
    flow.complete_open_session(PAM_STATUS_SUCCESS).unwrap();
    let identity = interpret_user_record(Some(UserRecord {
        uid: 1000,
        primary_gid: 1000,
        all_gids: vec![1000, 20],
        home_dir: Some("/home/alice".to_string()),
        shell: Some("/bin/sh".to_string()),
    }))
    .unwrap();
    let entries = vec!["X=1".to_string(), "Y=2".to_string()];
    let info = AuthUserInfo::from_session(flow, "alice".to_string(), identity, &entries);
    assert_eq!(info.uid, 1000);
    assert_eq!(info.home_dir, "/home/alice");
    assert_eq!(
        info.get_env(),
        &vec![("X".to_string(), "1".to_string()), ("Y".to_string(), "2".to_string())]
    );
}

#[test]
fn test_interpret_user_record_errors() {
    assert_eq!(interpret_user_record(None), Err(AuthenticationError::IdentityNotFound));
    let no_home = UserRecord {
        uid: 1,
        primary_gid: 1,
        all_gids: vec![1],
        home_dir: None,
        shell: Some("/bin/sh".to_string()),
    };
    assert_eq!(interpret_user_record(Some(no_home)), Err(AuthenticationError::PathEncoding));
    let no_shell = UserRecord {
        uid: 1,
        primary_gid: 1,
        all_gids: vec![1],
        home_dir: Some("/root".to_string()),
        shell: None,
    };
    assert_eq!(interpret_user_record(Some(no_shell)), Err(AuthenticationError::PathEncoding));
}

#[test]
fn test_resolve_identity_against_user_database() {
    // `root` exists on any Linux system this runs on.
    match resolve_identity("root") {
        Ok(identity) => assert_eq!(identity.uid, 0),
        Err(e) => panic!("root did not resolve: {:?}", e),
    }
    assert_eq!(
        resolve_identity("no-such-user-zqx9"),
        Err(AuthenticationError::IdentityNotFound)
    );
}

#[test]
fn test_environment_container_set_and_preserve() {
    let mut env = EnvironmentContainer::from_pairs(
        &vec![("TERM".to_string(), "linux".to_string())],
        "/".to_string(),
    );
    env.set("LANG", "C");
    env.set("TERM", "xterm");
    env.set_or_preserve("TERM", "vt100");
    env.set_or_own("EDITOR", "vi");
    env.remove_var("LANG");
    let mut pairs = env.vars.clone();
    pairs.sort();
    assert_eq!(
        pairs,
        vec![
            ("EDITOR".to_string(), "vi".to_string()),
            ("TERM".to_string(), "xterm".to_string()),
        ]
    );
}

#[test]
fn test_pam_variables_win_on_merge() {
    let mut env = EnvironmentContainer::from_pairs(
        &vec![
            ("XDG_SESSION_TYPE".to_string(), "tty".to_string()),
            ("TERM".to_string(), "linux".to_string()),
        ],
        "/".to_string(),
    );
    let pam = vec![
        ("XDG_SESSION_TYPE".to_string(), "wayland".to_string()),
        ("SSH_AUTH_SOCK".to_string(), "/run/sock".to_string()),
    ];
    env.merge_pairs(&pam);
    let mut pairs = env.vars.clone();
    pairs.sort();
    assert_eq!(
        pairs,
        vec![
            ("SSH_AUTH_SOCK".to_string(), "/run/sock".to_string()),
            ("TERM".to_string(), "linux".to_string()),
            ("XDG_SESSION_TYPE".to_string(), "wayland".to_string()),
        ]
    );
}

#[test]
fn test_working_directory_is_kept() {
    let mut env = EnvironmentContainer::from_pairs(&Vec::new(), "/".to_string());
    env.set_current_dir("/home/alice");
    assert_eq!(env.working_dir, "/home/alice");
}
