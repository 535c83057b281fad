//! The login form's state: which widget holds the focus, the entered
//! username and password, the selected session target, and what each key
//! press means. The terminal event loop and all drawing live outside; they
//! feed events in and obey the decisions made here, so shared form state
//! needs no lock-or-exit access anywhere.

use vstd::prelude::*;

use crate::config::{BackgroundConfig, FocusBehaviour, FormConfig, PanelConfig, SwitcherVisibility};
use crate::post_login::PostLoginEnvironment;

verus! {

/// Which widget input currently goes to.
#[derive(Debug, Clone, Copy, PartialEq, Eq, Structural)]
pub enum InputMode {
    /// The environment switcher.
    Switcher,
    /// The username field.
    Username,
    /// The password field.
    Password,
    /// Nothing selected.
    Normal,
}

/// The mode after moving forward once; the password field is last.
pub open spec fn spec_next_mode(m: InputMode, skip_switcher: bool) -> InputMode {
    match m {
        InputMode::Normal => if skip_switcher {
            InputMode::Username
        } else {
            InputMode::Switcher
        },
        InputMode::Switcher => InputMode::Username,
        InputMode::Username => InputMode::Password,
        InputMode::Password => InputMode::Password,
    }
}

/// The mode after moving backward once; nothing-selected is first.
pub open spec fn spec_prev_mode(m: InputMode, skip_switcher: bool) -> InputMode {
    match m {
        InputMode::Normal => InputMode::Normal,
        InputMode::Switcher => InputMode::Normal,
        InputMode::Username => if skip_switcher {
            InputMode::Normal
        } else {
            InputMode::Switcher
        },
        InputMode::Password => InputMode::Username,
    }
}

impl InputMode {
    /// Move to the next mode, passing over the switcher when it is hidden.
    pub fn next(&mut self, skip_switcher: bool)
        ensures
            *final(self) == spec_next_mode(*old(self), skip_switcher),
    {
        *self = match *self {
            InputMode::Normal => if skip_switcher {
                InputMode::Username
            } else {
                InputMode::Switcher
            },
            InputMode::Switcher => InputMode::Username,
            InputMode::Username => InputMode::Password,
            InputMode::Password => InputMode::Password,
        };
    }

    /// Move to the previous mode, passing over the switcher when it is
    /// hidden.
    pub fn prev(&mut self, skip_switcher: bool)
        ensures
            *final(self) == spec_prev_mode(*old(self), skip_switcher),
    {
        *self = match *self {
            InputMode::Normal => InputMode::Normal,
            InputMode::Switcher => InputMode::Normal,
            InputMode::Username => if skip_switcher {
                InputMode::Normal
            } else {
                InputMode::Switcher
            },
            InputMode::Password => InputMode::Username,
        };
    }
}

/// The background of the form; drawing it is the terminal layer's work.
#[derive(Debug, Clone)]
pub struct BackgroundWidget {
    pub config: BackgroundConfig,
}

impl BackgroundWidget {
    /// Hold the background configuration for rendering.
    pub fn new(config: BackgroundConfig) -> (r: BackgroundWidget)
        ensures
            r.config == config,
    {
        BackgroundWidget { config }
    }
}

/// The panel box around the input fields; drawing it is the terminal
/// layer's work.
#[derive(Debug, Clone)]
pub struct PanelWidget {
    pub config: PanelConfig,
}

impl PanelWidget {
    /// Hold the panel configuration for rendering.
    pub fn new(config: PanelConfig) -> (r: PanelWidget)
        ensures
            r.config == config,
    {
        PanelWidget { config }
    }
}

impl PostLoginEnvironment {
    /// An exact copy of this target.
    pub fn duplicate(&self) -> (r: PostLoginEnvironment)
        ensures
            r == *self,
    {
        match self {
            Self::Wayland { script_path, env_name } => Self::Wayland {
                script_path: script_path.clone(),
                env_name: env_name.clone(),
            },
            Self::X11 { script_path, env_name } => Self::X11 {
                script_path: script_path.clone(),
                env_name: env_name.clone(),
            },
            Self::Shell => Self::Shell,
        }
    }
}

/// The form's widget state: the selectable session targets and the two
/// input fields.
pub struct Widgets {
    pub background: BackgroundWidget,
    pub panel: PanelWidget,
    pub environments: Vec<(String, PostLoginEnvironment)>,
    pub selected_environment: Option<usize>,
    pub username: String,
    pub password: String,
}

impl Widgets {
    /// The widget invariant: a selection always points into the target list.
    pub open spec fn wf(&self) -> bool {
        self.selected_environment matches Some(i) ==> i < self.environments@.len()
    }

    /// The selected session target with its title, if any is selected.
    pub fn get_environment(&self) -> (r: Option<(String, PostLoginEnvironment)>)
        requires
            self.wf(),
        ensures
            match self.selected_environment {
                Some(i) => r == Some(self.environments@[i as int]),
                None => r is None,
            },
    {
        match self.selected_environment {
            Some(i) => {
                let entry = &self.environments[i];
                Some((entry.0.clone(), entry.1.duplicate()))
            },
            None => None,
        }
    }

    /// Select the first target with the given title, if one exists; an
    /// unknown title leaves the selection alone.
    pub fn environment_try_select(&mut self, title: &str)
        requires
            old(self).wf(),
        ensures
            final(self).wf(),
            final(self).environments == old(self).environments,
            final(self).username == old(self).username,
            final(self).password == old(self).password,
            if exists|i: int|
                0 <= i < old(self).environments@.len() && old(self).environments@[i].0@
                    == title@ {
                {
                    let i = choose|i: int|
                        0 <= i < old(self).environments@.len() && old(self).environments@[i].0@
                            == title@ && forall|j: int|
                            0 <= j < i ==> old(self).environments@[j].0@ != title@;
                    final(self).selected_environment == Some(i as usize)
                }
            } else {
                final(self).selected_environment == old(self).selected_environment
            },
    {
        let mut i: usize = 0;
        while i < self.environments.len()
            invariant
                self == old(self),
                0 <= i <= self.environments@.len(),
                forall|j: int| 0 <= j < i ==> self.environments@[j].0@ != title@,
            decreases self.environments@.len() - i,
        {
            if crate::strutil::str_eq(self.environments[i].0.as_str(), title) {
                self.selected_environment = Some(i);
                proof {
                    let w = choose|w: int|
                        0 <= w < old(self).environments@.len() && old(self).environments@[w].0@
                            == title@ && forall|j: int|
                            0 <= j < w ==> old(self).environments@[j].0@ != title@;
                    if w < i as int {
                        assert(old(self).environments@[w].0@ != title@);
                    } else if w > i as int {
                        assert(old(self).environments@[i as int].0@ != title@);
                    }
                }
                return ;
            }
            i = i + 1;
        }
        proof {
            if exists|w: int|
                0 <= w < self.environments@.len() && self.environments@[w].0@ == title@ {
                let w = choose|w: int|
                    0 <= w < self.environments@.len() && self.environments@[w].0@ == title@;
                assert(self.environments@[w].0@ != title@);
            }
        }
    }

    /// The entered username.
    pub fn get_username(&self) -> (r: String)
        ensures
            r@ == self.username@,
    {
        self.username.clone()
    }

    /// Replace the entered username.
    pub fn set_username(&mut self, content: &str)
        ensures
            final(self).username@ == content@,
            final(self).password == old(self).password,
            final(self).environments == old(self).environments,
            final(self).selected_environment == old(self).selected_environment,
    {
        self.username = content.to_owned();
    }

    /// The entered password.
    pub fn get_password(&self) -> (r: String)
        ensures
            r@ == self.password@,
    {
        self.password.clone()
    }

    /// Wipe the entered password from the form state.
    pub fn clear_password(&mut self)
        ensures
            final(self).password@ == Seq::<char>::empty(),
            final(self).username == old(self).username,
            final(self).environments == old(self).environments,
            final(self).selected_environment == old(self).selected_environment,
    {
        self.password = String::new();
    }
}

/// The login form: preview flag, widget state, and configuration.
pub struct LoginForm {
    pub preview: bool,
    pub widgets: Widgets,
    pub config: FormConfig,
}

impl LoginForm {
    /// Build the form over the discovered session targets: empty fields, and
    /// the first target selected when any exists.
    pub fn new(
        config: FormConfig,
        preview: bool,
        environments: Vec<(String, PostLoginEnvironment)>,
    ) -> (r: LoginForm)
        ensures
            r.widgets.wf(),
            r.preview == preview,
            r.config == config,
            r.widgets.environments == environments,
            r.widgets.username@ == Seq::<char>::empty(),
            r.widgets.password@ == Seq::<char>::empty(),
            environments@.len() > 0 ==> r.widgets.selected_environment == Some(0usize),
            environments@.len() == 0 ==> r.widgets.selected_environment is None,
    {
        let selected: Option<usize> = if environments.len() > 0 {
            Some(0)
        } else {
            None
        };
        let background = BackgroundWidget::new(config.background.clone());
        let panel = PanelWidget::new(config.panel.clone());
        LoginForm {
            preview,
            widgets: Widgets {
                background,
                panel,
                environments,
                selected_environment: selected,
                username: String::new(),
                password: String::new(),
            },
            config,
        }
    }

    /// Which widget holds the focus when the form comes up, from the
    /// configured behaviour and what the cache filled in.
    pub fn initial_input_mode(&self) -> (r: InputMode)
        requires
            self.widgets.wf(),
        ensures
            r == spec_initial_input_mode(
                self.config.focus_behaviour,
                self.config.remember_username && self.widgets.username@.len() > 0,
                self.config.remember_environment && (self.widgets.selected_environment matches Some(
                    i,
                ) && self.widgets.environments@[i as int].0@.len() > 0),
                self.config.switcher_visibility,
            ),
    {
        match self.config.focus_behaviour {
            FocusBehaviour::FirstNonCached => {
                let has_username = self.config.remember_username && self.widgets.username.as_str().unicode_len()
                    > 0;
                let has_environment = self.config.remember_environment && match
                    self.widgets.selected_environment {
                    Some(i) => self.widgets.environments[i].0.as_str().unicode_len() > 0,
                    None => false,
                };
                if has_username && has_environment {
                    InputMode::Password
                } else if has_username {
                    InputMode::Username
                } else if matches!(self.config.switcher_visibility, SwitcherVisibility::Visible) {
                    InputMode::Switcher
                } else {
                    InputMode::Username
                }
            },
            FocusBehaviour::NoFocus => InputMode::Normal,
            FocusBehaviour::Environment => InputMode::Switcher,
            FocusBehaviour::Username => InputMode::Username,
            FocusBehaviour::Password => InputMode::Password,
        }
    }
}

/// The initial focus: with `FirstNonCached`, a cached username and target
/// put the cursor on the password, a cached username alone on the username,
/// and otherwise on the switcher when it is visible; the fixed behaviours
/// pick their widget directly.
pub open spec fn spec_initial_input_mode(
    behaviour: FocusBehaviour,
    has_username: bool,
    has_environment: bool,
    visibility: SwitcherVisibility,
) -> InputMode {
    match behaviour {
        FocusBehaviour::FirstNonCached => if has_username && has_environment {
            InputMode::Password
        } else if has_username {
            InputMode::Username
        } else if visibility == SwitcherVisibility::Visible {
            InputMode::Switcher
        } else {
            InputMode::Username
        },
        FocusBehaviour::NoFocus => InputMode::Normal,
        FocusBehaviour::Environment => InputMode::Switcher,
        FocusBehaviour::Username => InputMode::Username,
        FocusBehaviour::Password => InputMode::Password,
    }
}

/// A key press, reduced to what the form reacts to.
#[derive(Debug, Clone, Copy, PartialEq, Eq, Structural)]
pub enum Key {
    Enter,
    Tab,
    BackTab,
    Up,
    Down,
    Esc,
    /// A function key, by number.
    Func(u8),
    /// A printable character.
    Chr(char),
    /// Any other key.
    Other,
}

/// Modifier keys held during a key press.
#[derive(Debug, Clone, Copy, PartialEq, Eq, Structural)]
pub struct HeldModifiers {
    pub alt: bool,
    pub shift: bool,
    pub control: bool,
}

/// What the event loop must do for one key press.
#[derive(Debug, Clone, Copy, PartialEq, Eq, Structural)]
pub enum FormAction {
    /// Submit: authenticate and start the selected session.
    StartSession,
    /// Play the authentication motions without doing anything (preview).
    PreviewSubmit,
    /// Save the cached username and environment.
    SaveCache,
    /// Move the focus backward.
    FocusPrev,
    /// Move the focus forward.
    FocusNext,
    /// Leave the focused widget.
    LeaveInput,
    /// Stop the form; only the preview may be quit this way.
    Quit,
    /// Hand the function key to the key menu and the switcher.
    FunctionKey(u8),
    /// Hand the key to the focused widget.
    ForwardToWidget,
    /// The press means nothing in this state.
    Ignore,
}

/// What one key press means, given the focus and the held modifiers: Enter
/// on the password submits; `s` with nothing selected saves the cache;
/// Up, BackTab, alt- or shift-Tab and control-p move backward; Enter, Down,
/// Tab and control-n move forward; Esc leaves the focused widget, and quits
/// the preview when nothing is focused; function keys go to the menus; any
/// other key goes to the focused widget.
pub open spec fn spec_form_action(
    mode: InputMode,
    key: Key,
    held: HeldModifiers,
    preview: bool,
) -> FormAction {
    if key == Key::Enter && mode == InputMode::Password {
        if preview {
            FormAction::PreviewSubmit
        } else {
            FormAction::StartSession
        }
    } else if key == Key::Chr('s') && mode == InputMode::Normal {
        FormAction::SaveCache
    } else if key == Key::Up || key == Key::BackTab || (key == Key::Tab && (held.alt
        || held.shift)) || (key == Key::Chr('p') && held.control) {
        FormAction::FocusPrev
    } else if key == Key::Enter || key == Key::Down || key == Key::Tab || (key == Key::Chr('n')
        && held.control) {
        FormAction::FocusNext
    } else if key == Key::Esc && mode == InputMode::Normal {
        if preview {
            FormAction::Quit
        } else {
            FormAction::Ignore
        }
    } else if key == Key::Esc {
        FormAction::LeaveInput
    } else if key is Func {
        FormAction::FunctionKey(key->Func_0)
    } else {
        FormAction::ForwardToWidget
    }
}

/// Decide what one key press means, exactly as [`spec_form_action`] states.
pub fn form_action(mode: InputMode, key: Key, held: HeldModifiers, preview: bool) -> (r:
    FormAction)
    ensures
        r == spec_form_action(mode, key, held, preview),
{
    if key == Key::Enter && mode == InputMode::Password {
        if preview {
            FormAction::PreviewSubmit
        } else {
            FormAction::StartSession
        }
    } else if key == Key::Chr('s') && mode == InputMode::Normal {
        FormAction::SaveCache
    } else if key == Key::Up || key == Key::BackTab || (key == Key::Tab && (held.alt
        || held.shift)) || (key == Key::Chr('p') && held.control) {
        FormAction::FocusPrev
    } else if key == Key::Enter || key == Key::Down || key == Key::Tab || (key == Key::Chr('n')
        && held.control) {
        FormAction::FocusNext
    } else if key == Key::Esc && mode == InputMode::Normal {
        if preview {
            FormAction::Quit
        } else {
            FormAction::Ignore
        }
    } else if key == Key::Esc {
        FormAction::LeaveInput
    } else {
        match key {
            Key::Func(n) => FormAction::FunctionKey(n),
            _ => FormAction::ForwardToWidget,
        }
    }
}

} // verus!
