//! The keybinding resolver: which key presses the compositor keeps for
//! itself, and what they ask for.

use vstd::prelude::*;

verus! {

/// Key symbol of the letter `h`.
pub const KEY_H_LOWER: u32 = 0x0068;

/// Key symbol of the letter `H`.
pub const KEY_H_UPPER: u32 = 0x0048;

/// Key symbol of the letter `q`.
pub const KEY_Q_LOWER: u32 = 0x0071;

/// Key symbol of the letter `Q`.
pub const KEY_Q_UPPER: u32 = 0x0051;

/// Key symbol of the letter `x`.
pub const KEY_X_LOWER: u32 = 0x0078;

/// Key symbol of the letter `X`.
pub const KEY_X_UPPER: u32 = 0x0058;

/// Key symbol of the Return key.
pub const KEY_RETURN: u32 = 0xff0d;

/// Whether a key or button went down or came up.
#[derive(Clone, Copy, Debug, PartialEq, Eq, Structural)]
pub enum KeyState {
    Pressed,
    Released,
}

/// The modifiers that can serve as leader.
#[derive(Clone, Copy, Debug, PartialEq, Eq, Structural)]
pub enum Modifier {
    Shift,
    Ctrl,
    Alt,
    Logo,
}

/// A snapshot of the seat's modifier keys.
#[derive(Clone, Copy, Debug, PartialEq, Eq, Structural)]
pub struct ModifierState {
    pub shift: bool,
    pub ctrl: bool,
    pub alt: bool,
    pub logo: bool,
    pub caps_lock: bool,
    pub num_lock: bool,
}

/// An entry of the static binding table.
#[derive(Clone, Copy, Debug, PartialEq, Eq, Structural)]
pub enum Binding {
    Launcher,
    Terminal,
    Quit,
    CloseWindow,
}

/// What a key event asks of the compositor. `Forward` stands for a key that
/// is no binding and goes to the focused client.
#[derive(Clone, Debug, PartialEq, Eq)]
pub enum Action {
    Launch(String),
    Spawn(String),
    Quit,
    CloseWindow,
    Forward,
}

/// What the keyboard filter hands back to the seat.
#[derive(Clone, Debug, PartialEq, Eq)]
pub enum FilterResult {
    /// Deliver the key to the focused client.
    Forward,
    /// Keep the key from clients; the action runs once the filter has returned.
    Intercept(Action),
}

/// The settings the resolver and the grabs read.
#[derive(Clone, Debug, PartialEq, Eq)]
pub struct Config {
    /// The modifier that turns a key press into a binding.
    pub leader: Modifier,
    /// Command of the program launcher.
    pub launcher: String,
    /// Command of the terminal.
    pub terminal: String,
    /// The smallest size an interactive resize proposes.
    pub min_size: crate::geometry::Size,
}

impl ModifierState {
    /// A snapshot with no modifier held.
    pub fn none() -> (r: ModifierState)
        ensures
            r == (ModifierState {
                shift: false,
                ctrl: false,
                alt: false,
                logo: false,
                caps_lock: false,
                num_lock: false,
            }),
    {
        ModifierState {
            shift: false,
            ctrl: false,
            alt: false,
            logo: false,
            caps_lock: false,
            num_lock: false,
        }
    }

    /// Whether the modifier `m` is held in this snapshot.
    pub open spec fn spec_holds(&self, m: Modifier) -> bool {
        match m {
            Modifier::Shift => self.shift,
            Modifier::Ctrl => self.ctrl,
            Modifier::Alt => self.alt,
            Modifier::Logo => self.logo,
        }
    }

    #[verifier::when_used_as_spec(spec_holds)]
    pub fn holds(&self, m: Modifier) -> (r: bool)
        ensures
            r == self.spec_holds(m),
    {
        match m {
            Modifier::Shift => self.shift,
            Modifier::Ctrl => self.ctrl,
            Modifier::Alt => self.alt,
            Modifier::Logo => self.logo,
        }
    }
}

/// The binding table: a letter is bound in both of its cases.
pub open spec fn spec_binding_for(keysym: u32) -> Option<Binding> {
    if keysym == KEY_H_LOWER || keysym == KEY_H_UPPER {
        Some(Binding::Launcher)
    } else if keysym == KEY_Q_LOWER || keysym == KEY_Q_UPPER {
        Some(Binding::Quit)
    } else if keysym == KEY_RETURN {
        Some(Binding::Terminal)
    } else if keysym == KEY_X_LOWER || keysym == KEY_X_UPPER {
        Some(Binding::CloseWindow)
    } else {
        None
    }
}

/// Looks a key symbol up in the binding table.
#[verifier::when_used_as_spec(spec_binding_for)]
pub fn binding_for(keysym: u32) -> (r: Option<Binding>)
    ensures
        r == spec_binding_for(keysym),
{
    if keysym == KEY_H_LOWER || keysym == KEY_H_UPPER {
        Some(Binding::Launcher)
    } else if keysym == KEY_Q_LOWER || keysym == KEY_Q_UPPER {
        Some(Binding::Quit)
    } else if keysym == KEY_RETURN {
        Some(Binding::Terminal)
    } else if keysym == KEY_X_LOWER || keysym == KEY_X_UPPER {
        Some(Binding::CloseWindow)
    } else {
        None
    }
}

/// The binding a key event selects: one of the table, and only for a press
/// with the leader held.
pub open spec fn selected_binding(
    leader: Modifier,
    modifiers: ModifierState,
    keysym: u32,
    state: KeyState,
) -> Option<Binding> {
    if modifiers.spec_holds(leader) && state == KeyState::Pressed {
        spec_binding_for(keysym)
    } else {
        None
    }
}

/// The action a key event asks for under `config`.
pub open spec fn spec_resolve(
    config: Config,
    modifiers: ModifierState,
    keysym: u32,
    state: KeyState,
) -> Action {
    match selected_binding(config.leader, modifiers, keysym, state) {
        None => Action::Forward,
        Some(Binding::Launcher) => Action::Launch(config.launcher),
        Some(Binding::Terminal) => Action::Spawn(config.terminal),
        Some(Binding::Quit) => Action::Quit,
        Some(Binding::CloseWindow) => Action::CloseWindow,
    }
}

/// What the keyboard filter answers for a key event: it intercepts exactly
/// the events that resolve to a binding.
pub open spec fn spec_key_filter(
    config: Config,
    modifiers: ModifierState,
    keysym: u32,
    state: KeyState,
) -> FilterResult {
    match spec_resolve(config, modifiers, keysym, state) {
        Action::Forward => FilterResult::Forward,
        other => FilterResult::Intercept(other),
    }
}

/// Resolves a key event to the action it asks for. Reads its arguments and
/// nothing else.
pub fn resolve(config: &Config, modifiers: ModifierState, keysym: u32, state: KeyState) -> (r:
    Action)
    ensures
        r == spec_resolve(*config, modifiers, keysym, state),
        !modifiers.spec_holds(config.leader) ==> r is Forward,
        state == KeyState::Released ==> r is Forward,
{
    if !(modifiers.holds(config.leader) && state == KeyState::Pressed) {
        return Action::Forward;
    }
    match binding_for(keysym) {
        None => Action::Forward,
        Some(Binding::Launcher) => Action::Launch(config.launcher.clone()),
        Some(Binding::Terminal) => Action::Spawn(config.terminal.clone()),
        Some(Binding::Quit) => Action::Quit,
        Some(Binding::CloseWindow) => Action::CloseWindow,
    }
}

/// The keyboard filter: intercepts a key exactly when it resolves to a
/// binding, and forwards it otherwise.
pub fn key_filter(config: &Config, modifiers: ModifierState, keysym: u32, state: KeyState) -> (r:
    FilterResult)
    ensures
        r == spec_key_filter(*config, modifiers, keysym, state),
        !modifiers.spec_holds(config.leader) ==> r is Forward,
        state == KeyState::Released ==> r is Forward,
{
    let action = resolve(config, modifiers, keysym, state);
    match action {
        Action::Forward => FilterResult::Forward,
        other => FilterResult::Intercept(other),
    }
}

} // verus!
