use lemurs::config::{
    BackgroundConfig, BackgroundStyleConfig, FocusBehaviour, FormConfig, PanelConfig,
    PanelPosition, SwitcherVisibility,
};
use lemurs::post_login::PostLoginEnvironment;
use lemurs::session::{SessionOrchestrator, SessionStep, StartSessionError};
use lemurs::ui::{form_action, FormAction, HeldModifiers, InputMode, Key, LoginForm};

fn form_config() -> FormConfig {
    FormConfig {
        preview_allowed: true,
        focus_behaviour: FocusBehaviour::FirstNonCached,
        switcher_visibility: SwitcherVisibility::Visible,
        remember_username: true,
        remember_environment: true,
        include_tty_shell: true,
        background: BackgroundConfig {
            show_background: true,
            image: String::new(),
            style: BackgroundStyleConfig {
                color: "black".to_string(),
                border_color: "white".to_string(),
                show_border: true,
            },
        },
        panel: PanelConfig {
            show_panel: true,
            color: "black".to_string(),
            border_color: "white".to_string(),
            position: PanelPosition::Center,
        },
    }
}

fn no_modifiers() -> HeldModifiers {
    HeldModifiers { alt: false, shift: false, control: false }
}

#[test]
fn test_input_mode_next_order() {
    let mut m = InputMode::Normal;
    m.next(false);
    assert_eq!(m, InputMode::Switcher);
    m.next(false);
    assert_eq!(m, InputMode::Username);
    m.next(false);
    assert_eq!(m, InputMode::Password);
    m.next(false);
    assert_eq!(m, InputMode::Password);
}

#[test]
fn test_input_mode_next_skips_hidden_switcher() {
    let mut m = InputMode::Normal;
    m.next(true);
    assert_eq!(m, InputMode::Username);
}

#[test]
fn test_input_mode_prev_order() {
    let mut m = InputMode::Password;
    m.prev(false);
    assert_eq!(m, InputMode::Username);
    m.prev(false);
    assert_eq!(m, InputMode::Switcher);
    m.prev(false);
    assert_eq!(m, InputMode::Normal);
    m.prev(false);
    assert_eq!(m, InputMode::Normal);
}

#[test]
fn test_input_mode_prev_skips_hidden_switcher() {
    let mut m = InputMode::Username;
    m.prev(true);
    assert_eq!(m, InputMode::Normal);
}

fn sample_envs() -> Vec<(String, PostLoginEnvironment)> {
    vec![
        ("Terminal".to_string(), PostLoginEnvironment::Shell),
        (
            "Sway".to_string(),
            PostLoginEnvironment::Wayland {
                script_path: "/usr/bin/sway".to_string(),
                env_name: "Sway".to_string(),
            },
        ),
    ]
}

#[test]
fn test_login_form_starts_empty_with_first_selected() {
    let form = LoginForm::new(form_config(), false, sample_envs());
    assert!(!form.preview);
    assert_eq!(form.widgets.username, "");
    assert_eq!(form.widgets.password, "");
    assert_eq!(form.widgets.selected_environment, Some(0));
}

#[test]
fn test_widgets_fields_and_selection() {
    let mut form = LoginForm::new(form_config(), false, sample_envs());
    form.widgets.set_username("alice");
    assert_eq!(form.widgets.get_username(), "alice");
    form.widgets.environment_try_select("Sway");
    let (title, env) = form.widgets.get_environment().unwrap();
    assert_eq!(title, "Sway");
    assert!(matches!(env, PostLoginEnvironment::Wayland { .. }));
    // An unknown title leaves the selection alone.
    form.widgets.environment_try_select("Gnome");
    assert_eq!(form.widgets.selected_environment, Some(1));
    form.widgets.set_username("alice");
    assert_eq!(form.widgets.get_password(), "");
    form.widgets.password = "secret".to_string();
    form.widgets.clear_password();
    assert_eq!(form.widgets.get_password(), "");
}

#[test]
fn test_initial_focus_first_non_cached() {
    let mut form = LoginForm::new(form_config(), false, sample_envs());
    // Nothing cached: the visible switcher gets the focus.
    assert_eq!(form.initial_input_mode(), InputMode::Switcher);
    // A cached username moves the focus to the password.
    form.widgets.set_username("alice");
    assert_eq!(form.initial_input_mode(), InputMode::Password);
    // A cached username without environment focuses the username field.
    form.widgets.selected_environment = None;
    assert_eq!(form.initial_input_mode(), InputMode::Username);
}

#[test]
fn test_initial_focus_fixed_behaviours() {
    let mut config = form_config();
    config.focus_behaviour = FocusBehaviour::NoFocus;
    assert_eq!(
        LoginForm::new(config.clone(), false, sample_envs()).initial_input_mode(),
        InputMode::Normal
    );
    config.focus_behaviour = FocusBehaviour::Password;
    assert_eq!(
        LoginForm::new(config, false, sample_envs()).initial_input_mode(),
        InputMode::Password
    );
}

#[test]
fn test_enter_on_password_submits() {
    assert_eq!(
        form_action(InputMode::Password, Key::Enter, no_modifiers(), false),
        FormAction::StartSession
    );
    assert_eq!(
        form_action(InputMode::Password, Key::Enter, no_modifiers(), true),
        FormAction::PreviewSubmit
    );
}

#[test]
fn test_focus_movement_keys() {
    assert_eq!(
        form_action(InputMode::Username, Key::Enter, no_modifiers(), false),
        FormAction::FocusNext
    );
    assert_eq!(
        form_action(InputMode::Username, Key::Tab, no_modifiers(), false),
        FormAction::FocusNext
    );
    assert_eq!(
        form_action(InputMode::Username, Key::Up, no_modifiers(), false),
        FormAction::FocusPrev
    );
    assert_eq!(
        form_action(InputMode::Username, Key::BackTab, no_modifiers(), false),
        FormAction::FocusPrev
    );
    let shift = HeldModifiers { alt: false, shift: true, control: false };
    assert_eq!(form_action(InputMode::Username, Key::Tab, shift, false), FormAction::FocusPrev);
    let ctrl = HeldModifiers { alt: false, shift: false, control: true };
    assert_eq!(
        form_action(InputMode::Username, Key::Chr('p'), ctrl, false),
        FormAction::FocusPrev
    );
    assert_eq!(
        form_action(InputMode::Username, Key::Chr('n'), ctrl, false),
        FormAction::FocusNext
    );
}

#[test]
fn test_escape_and_cache_keys() {
    assert_eq!(
        form_action(InputMode::Password, Key::Esc, no_modifiers(), false),
        FormAction::LeaveInput
    );
    assert_eq!(
        form_action(InputMode::Normal, Key::Esc, no_modifiers(), true),
        FormAction::Quit
    );
    assert_eq!(
        form_action(InputMode::Normal, Key::Esc, no_modifiers(), false),
        FormAction::Ignore
    );
    assert_eq!(
        form_action(InputMode::Normal, Key::Chr('s'), no_modifiers(), false),
        FormAction::SaveCache
    );
    assert_eq!(
        form_action(InputMode::Normal, Key::Func(2), no_modifiers(), false),
        FormAction::FunctionKey(2)
    );
    assert_eq!(
        form_action(InputMode::Username, Key::Chr('a'), no_modifiers(), false),
        FormAction::ForwardToWidget
    );
}

#[test]
fn test_orchestrator_shell_path() {
    let mut o = SessionOrchestrator::begin(false);
    assert_eq!(o.step, SessionStep::Authenticate);
    o.step_succeeded();
    assert_eq!(o.step, SessionStep::AssembleEnvironment);
    o.step_succeeded();
    // A target without a display server goes straight to the client spawn.
    assert_eq!(o.step, SessionStep::SpawnClient);
    o.step_succeeded();
    assert_eq!(o.step, SessionStep::WaitForExit);
    o.step_succeeded();
    assert_eq!(o.step, SessionStep::CloseSession);
    o.step_succeeded();
    assert_eq!(o.step, SessionStep::Finished);
    assert_eq!(o.failure, None);
}

#[test]
fn test_orchestrator_x11_path_launches_display_server() {
    let mut o = SessionOrchestrator::begin(true);
    o.step_succeeded();
    o.step_succeeded();
    assert_eq!(o.step, SessionStep::LaunchDisplayServer);
    o.step_succeeded();
    assert_eq!(o.step, SessionStep::SpawnClient);
}

#[test]
fn test_orchestrator_failure_short_circuits_to_teardown() {
    let mut o = SessionOrchestrator::begin(true);
    o.step_succeeded();
    let err = StartSessionError::EnvironmentStartError(
        lemurs::post_login::EnvironmentStartError::WaylandStart,
    );
    o.step_failed(err.clone());
    // Every remaining step is skipped; only the teardown still runs.
    assert_eq!(o.step, SessionStep::CloseSession);
    assert_eq!(o.failure, Some(err));
    o.step_succeeded();
    assert_eq!(o.step, SessionStep::Finished);
}
