use lemurs::post_login::{
    get_envs, parse_desktop_entry, split_lines, DesktopEntryError, DropAction, DropStep,
    PostLoginEnvironment, PrivilegeDropSequence, ShellLoginFlag, SpawnError,
};

#[test]
fn test_wayland_serialization() {
    let env = PostLoginEnvironment::Wayland {
        script_path: "/bin/sh".to_string(),
        env_name: "Hyprland".to_string(),
    };

    assert_eq!(env.to_xdg_type(), "wayland");
    assert_eq!(env.to_xdg_desktop(), Some("Hyprland"));
}

#[test]
fn test_shell_serialization() {
    let env = PostLoginEnvironment::Shell;

    assert_eq!(env.to_xdg_type(), "tty");
    assert_eq!(env.to_xdg_desktop(), None);
}

#[test]
fn test_x11_serialization() {
    let env = PostLoginEnvironment::X11 {
        script_path: "/usr/bin/startx".to_string(),
        env_name: "i3".to_string(),
    };

    assert_eq!(env.to_xdg_type(), "x11");
    assert_eq!(env.to_xdg_desktop(), Some("i3"));
}

fn all_success_run() -> PrivilegeDropSequence {
    let mut m = PrivilegeDropSequence::new();
    assert_eq!(m.next_action(), DropAction::DoSetGroups);
    m.record(true);
    assert_eq!(m.next_action(), DropAction::DoSetGid);
    m.record(true);
    assert_eq!(m.next_action(), DropAction::DoSetUid);
    m.record(true);
    m
}

#[test]
fn test_drop_order_is_groups_gid_uid_exec() {
    let m = all_success_run();
    assert_eq!(m.next_action(), DropAction::Exec);
}

#[test]
fn test_drop_fault_at_setgroups_aborts() {
    let mut m = PrivilegeDropSequence::new();
    assert_eq!(m.next_action(), DropAction::DoSetGroups);
    m.record(false);
    assert_eq!(m.next_action(), DropAction::Abort(DropStep::SetGroups));
    // No later step and no exec: the machine stays aborted whatever is fed.
    m.record(true);
    assert_eq!(m.next_action(), DropAction::Abort(DropStep::SetGroups));
    m.record(false);
    assert_eq!(m.next_action(), DropAction::Abort(DropStep::SetGroups));
}

#[test]
fn test_drop_fault_at_setgid_aborts() {
    let mut m = PrivilegeDropSequence::new();
    m.record(true);
    assert_eq!(m.next_action(), DropAction::DoSetGid);
    m.record(false);
    assert_eq!(m.next_action(), DropAction::Abort(DropStep::SetGid));
    m.record(true);
    assert_eq!(m.next_action(), DropAction::Abort(DropStep::SetGid));
}

#[test]
fn test_drop_fault_at_setuid_aborts() {
    let mut m = PrivilegeDropSequence::new();
    m.record(true);
    m.record(true);
    assert_eq!(m.next_action(), DropAction::DoSetUid);
    m.record(false);
    assert_eq!(m.next_action(), DropAction::Abort(DropStep::SetUid));
    m.record(true);
    assert_eq!(m.next_action(), DropAction::Abort(DropStep::SetUid));
}

#[test]
fn test_spawn_error_names_failed_step() {
    let e = SpawnError::PrivilegeDropFailed(DropStep::SetGid);
    assert!(matches!(e, SpawnError::PrivilegeDropFailed(DropStep::SetGid)));
}

#[test]
fn test_get_envs_order_and_tty_first() {
    let wayland = vec![("Sway".to_string(), "/usr/bin/sway".to_string())];
    let scripts = vec![("custom".to_string(), "/etc/scripts/custom".to_string())];
    let envs = get_envs(true, wayland, scripts);
    assert_eq!(envs.len(), 3);
    assert_eq!(envs[0].0, "Terminal");
    assert!(matches!(envs[0].1, PostLoginEnvironment::Shell));
    assert_eq!(envs[1].0, "Sway");
    match &envs[1].1 {
        PostLoginEnvironment::Wayland { script_path, env_name } => {
            assert_eq!(script_path, "/usr/bin/sway");
            assert_eq!(env_name, "Sway");
        }
        _ => panic!("expected a wayland target"),
    }
    assert_eq!(envs[2].0, "custom");
}

#[test]
fn test_get_envs_falls_back_to_terminal() {
    let envs = get_envs(false, Vec::new(), Vec::new());
    assert_eq!(envs.len(), 1);
    assert_eq!(envs[0].0, "Terminal");
    assert!(matches!(envs[0].1, PostLoginEnvironment::Shell));
}

#[test]
fn test_split_lines_basic() {
    let lines = split_lines("a\nb\nc");
    assert_eq!(lines, vec!["a".to_string(), "b".to_string(), "c".to_string()]);
    let lines = split_lines("");
    assert_eq!(lines, vec!["".to_string()]);
    let lines = split_lines("one\n");
    assert_eq!(lines, vec!["one".to_string(), "".to_string()]);
}

#[test]
fn test_parse_desktop_entry_with_name() {
    let content = "[Desktop Entry]\nName=Sway\nExec=/usr/bin/sway\nType=Application\n";
    let lines = split_lines(content);
    let parsed = parse_desktop_entry(&lines).unwrap();
    assert_eq!(parsed.0, "Sway");
    assert_eq!(parsed.1, "/usr/bin/sway");
}

#[test]
fn test_parse_desktop_entry_name_falls_back_to_exec() {
    let content = "# a comment\n[Desktop Entry]\nExec = sway --unsupported-gpu \n";
    let lines = split_lines(content);
    let parsed = parse_desktop_entry(&lines).unwrap();
    assert_eq!(parsed.0, "sway --unsupported-gpu");
    assert_eq!(parsed.1, "sway --unsupported-gpu");
}

#[test]
fn test_parse_desktop_entry_missing_group() {
    let lines = split_lines("[Other Group]\nExec=/bin/sh\n");
    assert_eq!(parse_desktop_entry(&lines), Err(DesktopEntryError::MissingGroup));
}

#[test]
fn test_parse_desktop_entry_missing_exec() {
    let lines = split_lines("[Desktop Entry]\nName=NoCommand\n[Other]\nExec=/bin/sh\n");
    assert_eq!(parse_desktop_entry(&lines), Err(DesktopEntryError::MissingExec));
}

#[test]
fn test_parse_desktop_entry_only_first_group_counts() {
    let content = "[Desktop Entry]\nExec=first\n[Desktop Entry]\nExec=second\n";
    let lines = split_lines(content);
    let parsed = parse_desktop_entry(&lines).unwrap();
    assert_eq!(parsed.1, "first");
}

#[test]
fn test_spawn_request_shell_args() {
    let user = lemurs::auth::AuthUserInfo {
        username: "alice".to_string(),
        uid: 1000,
        primary_gid: 1000,
        all_gids: vec![1000, 20],
        home_dir: "/home/alice".to_string(),
        shell: "/bin/zsh".to_string(),
        pam_env: Vec::new(),
    };
    let env = lemurs::env_container::EnvironmentContainer::from_pairs(
        &vec![("TERM".to_string(), "linux".to_string())],
        "/home/alice".to_string(),
    );
    let req = PostLoginEnvironment::Shell.spawn_request(
        &user,
        &env,
        ShellLoginFlag::Short,
        "/bin/sh",
    );
    assert_eq!(req.program, "/bin/sh");
    assert_eq!(req.args, vec!["-l".to_string(), "-c".to_string(), "/bin/zsh".to_string()]);
    assert_eq!(req.working_dir, "/home/alice");
    assert_eq!(req.uid, 1000);
    assert_eq!(req.gid, 1000);
    assert_eq!(req.gids, vec![1000, 20]);
}

#[test]
fn test_spawn_request_wayland_args_no_flag() {
    let user = lemurs::auth::AuthUserInfo {
        username: "alice".to_string(),
        uid: 1000,
        primary_gid: 1000,
        all_gids: vec![1000],
        home_dir: "/home/alice".to_string(),
        shell: "/bin/zsh".to_string(),
        pam_env: Vec::new(),
    };
    let env = lemurs::env_container::EnvironmentContainer::from_pairs(
        &Vec::new(),
        "/home/alice".to_string(),
    );
    let target = PostLoginEnvironment::Wayland {
        script_path: "/usr/share/scripts/sway".to_string(),
        env_name: "Sway".to_string(),
    };
    let req = target.spawn_request(&user, &env, ShellLoginFlag::NoFlag, "/bin/sh");
    assert_eq!(req.args, vec!["-c".to_string(), "/usr/share/scripts/sway".to_string()]);
}
