use corrosion_input::geometry::Size;
use corrosion_input::keybinding::{
    binding_for, key_filter, resolve, Action, Binding, Config, FilterResult, KeyState, Modifier,
    ModifierState, KEY_H_LOWER, KEY_H_UPPER, KEY_Q_LOWER, KEY_Q_UPPER, KEY_RETURN, KEY_X_LOWER,
    KEY_X_UPPER,
};

fn config(leader: Modifier) -> Config {
    Config {
        leader,
        launcher: String::from("wofi --show drun"),
        terminal: String::from("kitty"),
        min_size: Size { w: 1, h: 1 },
    }
}

fn held(m: Modifier) -> ModifierState {
    let mut s = ModifierState::none();
    match m {
        Modifier::Shift => s.shift = true,
        Modifier::Ctrl => s.ctrl = true,
        Modifier::Alt => s.alt = true,
        Modifier::Logo => s.logo = true,
    }
    s
}

#[test]
fn key_symbols_have_their_standard_values() {
    assert_eq!(KEY_H_LOWER, 0x68);
    assert_eq!(KEY_H_UPPER, 0x48);
    assert_eq!(KEY_Q_LOWER, 0x71);
    assert_eq!(KEY_Q_UPPER, 0x51);
    assert_eq!(KEY_X_LOWER, 0x78);
    assert_eq!(KEY_X_UPPER, 0x58);
    assert_eq!(KEY_RETURN, 0xff0d);
}

#[test]
fn unmodified_keys_are_forwarded() {
    let c = config(Modifier::Logo);
    for keysym in [KEY_H_LOWER, KEY_Q_LOWER, KEY_Q_UPPER, KEY_RETURN, KEY_X_LOWER, 0x61, 0] {
        for state in [KeyState::Pressed, KeyState::Released] {
            assert_eq!(resolve(&c, ModifierState::none(), keysym, state), Action::Forward);
            assert_eq!(key_filter(&c, ModifierState::none(), keysym, state), FilterResult::Forward);
        }
    }
}

#[test]
fn other_modifiers_do_not_stand_in_for_the_leader() {
    let c = config(Modifier::Logo);
    let mut m = ModifierState::none();
    m.shift = true;
    m.ctrl = true;
    m.alt = true;
    m.caps_lock = true;
    m.num_lock = true;
    assert_eq!(resolve(&c, m, KEY_Q_LOWER, KeyState::Pressed), Action::Forward);
}

#[test]
fn releases_are_forwarded_whatever_the_modifiers() {
    let c = config(Modifier::Logo);
    let mut all = ModifierState::none();
    all.shift = true;
    all.ctrl = true;
    all.alt = true;
    all.logo = true;
    for m in [ModifierState::none(), held(Modifier::Logo), all] {
        for keysym in [KEY_H_LOWER, KEY_Q_LOWER, KEY_RETURN, KEY_X_UPPER, 0x20] {
            assert_eq!(resolve(&c, m, keysym, KeyState::Released), Action::Forward);
            assert_eq!(key_filter(&c, m, keysym, KeyState::Released), FilterResult::Forward);
        }
    }
}

#[test]
fn quit_key_with_leader_quits() {
    let c = config(Modifier::Logo);
    assert_eq!(resolve(&c, held(Modifier::Logo), KEY_Q_LOWER, KeyState::Pressed), Action::Quit);
    assert_eq!(
        key_filter(&c, held(Modifier::Logo), KEY_Q_LOWER, KeyState::Pressed),
        FilterResult::Intercept(Action::Quit)
    );
}

#[test]
fn letters_are_bound_in_both_cases() {
    let c = config(Modifier::Logo);
    let m = held(Modifier::Logo);
    assert_eq!(resolve(&c, m, KEY_Q_UPPER, KeyState::Pressed), Action::Quit);
    assert_eq!(
        resolve(&c, m, KEY_H_LOWER, KeyState::Pressed),
        Action::Launch(String::from("wofi --show drun"))
    );
    assert_eq!(
        resolve(&c, m, KEY_H_UPPER, KeyState::Pressed),
        Action::Launch(String::from("wofi --show drun"))
    );
    assert_eq!(resolve(&c, m, KEY_X_LOWER, KeyState::Pressed), Action::CloseWindow);
    assert_eq!(resolve(&c, m, KEY_X_UPPER, KeyState::Pressed), Action::CloseWindow);
}

#[test]
fn return_spawns_the_terminal() {
    let c = config(Modifier::Logo);
    assert_eq!(
        resolve(&c, held(Modifier::Logo), KEY_RETURN, KeyState::Pressed),
        Action::Spawn(String::from("kitty"))
    );
    assert_eq!(
        key_filter(&c, held(Modifier::Logo), KEY_RETURN, KeyState::Pressed),
        FilterResult::Intercept(Action::Spawn(String::from("kitty")))
    );
}

#[test]
fn unbound_key_with_leader_is_forwarded() {
    let c = config(Modifier::Logo);
    assert_eq!(resolve(&c, held(Modifier::Logo), 0x61, KeyState::Pressed), Action::Forward);
    assert_eq!(
        key_filter(&c, held(Modifier::Logo), 0x61, KeyState::Pressed),
        FilterResult::Forward
    );
}

#[test]
fn the_configured_leader_decides() {
    let c = config(Modifier::Alt);
    assert_eq!(resolve(&c, held(Modifier::Logo), KEY_Q_LOWER, KeyState::Pressed), Action::Forward);
    assert_eq!(resolve(&c, held(Modifier::Alt), KEY_Q_LOWER, KeyState::Pressed), Action::Quit);
    let c = config(Modifier::Ctrl);
    assert_eq!(resolve(&c, held(Modifier::Ctrl), KEY_X_LOWER, KeyState::Pressed), Action::CloseWindow);
    let c = config(Modifier::Shift);
    assert_eq!(resolve(&c, held(Modifier::Shift), KEY_Q_UPPER, KeyState::Pressed), Action::Quit);
}

#[test]
fn binding_table_lookup() {
    assert_eq!(binding_for(KEY_H_LOWER), Some(Binding::Launcher));
    assert_eq!(binding_for(KEY_RETURN), Some(Binding::Terminal));
    assert_eq!(binding_for(KEY_Q_UPPER), Some(Binding::Quit));
    assert_eq!(binding_for(KEY_X_LOWER), Some(Binding::CloseWindow));
    assert_eq!(binding_for(0x7a), None);
}

#[test]
fn modifier_snapshot_reports_what_is_held() {
    let m = held(Modifier::Ctrl);
    assert!(m.holds(Modifier::Ctrl));
    assert!(!m.holds(Modifier::Logo));
    assert!(!m.holds(Modifier::Alt));
    assert!(!m.holds(Modifier::Shift));
}
