use winit_input::keyboard::{
    KeyCode, NamedKey, SmolStr, MODIFIER_KEY_LSHIFT, MODIFIER_KEY_RMETA, MODIFIER_KEY_RSHIFT,
};
use winit_input::{
    Key, KeyLocation, ModifiersKeyState, ModifiersKeys, ModifiersState, NativeKey, NativeKeyCode,
    PhysicalKey,
};

fn native_codes() -> Vec<NativeKeyCode> {
    vec![
        NativeKeyCode::Unidentified,
        NativeKeyCode::Android(0x2a),
        NativeKeyCode::MacOS(0x35),
        NativeKeyCode::Windows(0x1c),
        NativeKeyCode::Xkb(0x26),
        NativeKeyCode::Xkb(u32::MAX),
    ]
}

#[test]
fn key_code_round_trips_through_physical_key() {
    for code in [KeyCode::KeyA, KeyCode::Enter, KeyCode::F20, KeyCode::Unidentified] {
        assert_eq!(PhysicalKey::from(code), PhysicalKey::Code(code));
        assert_eq!(KeyCode::from(PhysicalKey::from(code)), code);
    }
}

#[test]
fn native_key_code_degrades_to_unidentified() {
    for native in native_codes() {
        assert_eq!(PhysicalKey::from(native), PhysicalKey::Unidentified(native));
        assert_eq!(KeyCode::from(PhysicalKey::from(native)), KeyCode::Unidentified);
    }
}

#[test]
fn widened_native_key_equals_its_code_both_ways() {
    for code in native_codes() {
        let key = NativeKey::from(code);
        assert!(key == code);
        assert!(code == key);
    }
    assert_eq!(NativeKey::from(NativeKeyCode::MacOS(7)), NativeKey::MacOS(7));
    assert_eq!(NativeKey::from(NativeKeyCode::Unidentified), NativeKey::Unidentified);
}

#[test]
fn native_key_and_code_of_other_platform_differ() {
    assert!(NativeKeyCode::MacOS(7) != NativeKey::Windows(7));
    assert!(NativeKey::Windows(7) != NativeKeyCode::MacOS(7));
    assert!(NativeKeyCode::Xkb(1) != NativeKey::Xkb(2));
    assert!(NativeKeyCode::Unidentified != NativeKey::Web(SmolStr::new("a")));
    assert!(NativeKey::Web(SmolStr::new("a")) != NativeKeyCode::Unidentified);
}

#[test]
fn native_key_equality_compares_text() {
    assert!(NativeKey::Web(SmolStr::new("Dead")) == NativeKey::Web(SmolStr::new("Dead")));
    assert!(NativeKey::Web(SmolStr::new("Dead")) != NativeKey::Web(SmolStr::new("Tab")));
    assert!(NativeKey::Android(3) != NativeKey::Xkb(3));
    let web = NativeKey::Web(SmolStr::new("F1"));
    assert!(web.clone() == web);
}

#[test]
fn physical_key_cross_equality() {
    let a = PhysicalKey::Code(KeyCode::KeyA);
    assert!(a == KeyCode::KeyA);
    assert!(KeyCode::KeyA == a);
    assert!(a != KeyCode::KeyB);
    assert!(a != NativeKeyCode::Unidentified);
    let native = PhysicalKey::Unidentified(NativeKeyCode::Windows(0x56));
    assert!(native == NativeKeyCode::Windows(0x56));
    assert!(NativeKeyCode::Windows(0x56) == native);
    assert!(native != NativeKeyCode::Windows(0x57));
    assert!(native != KeyCode::Unidentified);
    assert!(KeyCode::Unidentified != native);
}

#[test]
fn key_from_named_and_native() {
    assert_eq!(Key::from(NamedKey::Escape), Key::Named(NamedKey::Escape));
    assert_eq!(Key::from(NativeKey::Xkb(0xff0d)), Key::Unidentified(NativeKey::Xkb(0xff0d)));
}

#[test]
fn key_cross_equality() {
    let enter: Key = Key::Named(NamedKey::Enter);
    assert!(enter == NamedKey::Enter);
    assert!(enter != NamedKey::Tab);
    let a: Key = Key::Character(SmolStr::new("a"));
    assert!(a != NamedKey::Enter);
    assert!(a == *"a");
    assert!(a == "a");
    assert!(a != "b");
    assert!(enter != "a");
    let unknown: Key = Key::Unidentified(NativeKey::Android(5));
    assert!(unknown == NativeKey::Android(5));
    assert!(NativeKey::Android(5) == unknown);
    assert!(unknown != NativeKey::Android(6));
    assert!(NativeKey::Android(5) != a);
    let dead: Key = Key::Dead(Some('`'));
    assert!(dead != NativeKey::Unidentified);
    assert!(dead != NamedKey::Dead);
}

#[test]
fn key_as_ref_borrows_text() {
    let a: Key = Key::Character(SmolStr::new("ab"));
    assert_eq!(a.as_ref(), Key::Character("ab"));
    let enter: Key = Key::Named(NamedKey::Enter);
    assert_eq!(enter.as_ref(), Key::Named(NamedKey::Enter));
    let dead: Key = Key::Dead(None);
    assert_eq!(dead.as_ref(), Key::Dead(None));
    let web: Key = Key::Unidentified(NativeKey::Web(SmolStr::new("Hyper")));
    assert_eq!(web.as_ref(), Key::Unidentified(NativeKey::Web(SmolStr::new("Hyper"))));
}

#[test]
fn to_text_of_character() {
    assert_eq!(Key::Character("a".into()).to_text(), Some("a"));
    assert_eq!(Key::Character(SmolStr::new("ß")).to_text(), Some("ß"));
}

#[test]
fn to_text_of_named_keys() {
    assert_eq!(Key::Named(NamedKey::Enter).to_text(), Some("\r"));
    assert_eq!(Key::Named(NamedKey::F20).to_text(), None);
    assert_eq!(Key::Named(NamedKey::Backspace).to_text(), Some("\x08"));
    assert_eq!(Key::Named(NamedKey::Tab).to_text(), Some("\t"));
    assert_eq!(Key::Named(NamedKey::Escape).to_text(), Some("\x1b"));
    assert_eq!(Key::Named(NamedKey::CapsLock).to_text(), None);
}

#[test]
fn to_text_of_other_keys() {
    assert_eq!(Key::Dead(Some('~')).to_text(), None);
    assert_eq!(Key::Dead(None).to_text(), None);
    assert_eq!(Key::Unidentified(NativeKey::Web(SmolStr::new("x"))).to_text(), None);
}

#[test]
fn modifiers_default_is_empty() {
    let state = ModifiersState::default();
    assert!(!state.shift_key());
    assert!(!state.control_key());
    assert!(!state.alt_key());
    assert!(!state.super_key());
    assert!(state.is_empty());
    assert_eq!(state.bits(), 0);
}

#[test]
fn modifiers_shift_only() {
    let mut state = ModifiersState::default();
    state.insert(ModifiersState::shift());
    assert!(state.shift_key());
    assert!(!state.control_key());
    assert!(!state.alt_key());
    assert!(!state.super_key());
    assert_eq!(state.bits(), 0b100);
}

#[test]
fn modifiers_each_flag_has_its_bit() {
    assert_eq!(ModifiersState::shift().bits(), 0b100);
    assert_eq!(ModifiersState::control().bits(), 0b100_000);
    assert_eq!(ModifiersState::alt().bits(), 0b100_000_000);
    assert_eq!(ModifiersState::meta().bits(), 0b100_000_000_000);
    assert_eq!(ModifiersState::all().bits(), 0b100_100_100_100);
    assert!(ModifiersState::control().control_key());
    assert!(ModifiersState::alt().alt_key());
    assert!(ModifiersState::meta().super_key());
    assert!(!ModifiersState::meta().shift_key());
}

#[test]
fn modifiers_set_and_remove() {
    let mut state = ModifiersState::empty();
    state.set(ModifiersState::alt(), true);
    state.set(ModifiersState::meta(), true);
    assert!(state.alt_key() && state.super_key());
    assert!(state.contains(ModifiersState::alt().union(ModifiersState::meta())));
    assert!(!state.contains(ModifiersState::alt().union(ModifiersState::shift())));
    assert!(state.intersects(ModifiersState::alt().union(ModifiersState::shift())));
    state.remove(ModifiersState::alt());
    assert!(!state.alt_key());
    state.set(ModifiersState::meta(), false);
    assert!(state.is_empty());
    assert_eq!(ModifiersState::from_bits_truncate(0xffff_ffff), ModifiersState::all());
    assert_eq!(ModifiersState::from_bits_truncate(0b11), ModifiersState::empty());
}

#[test]
fn modifiers_key_state_default_is_unknown() {
    assert_eq!(ModifiersKeyState::default(), ModifiersKeyState::Unknown);
    assert_ne!(ModifiersKeyState::Pressed, ModifiersKeyState::Unknown);
}

#[test]
fn modifiers_keys_track_sides() {
    let mut keys = ModifiersKeys::default();
    assert_eq!(keys.bits(), 0);
    keys.insert(ModifiersKeys::from_bits(MODIFIER_KEY_LSHIFT));
    keys.insert(ModifiersKeys::from_bits(MODIFIER_KEY_RMETA));
    assert_eq!(keys.bits(), 0b1000_0001);
    assert!(keys.contains(ModifiersKeys::from_bits(MODIFIER_KEY_LSHIFT)));
    assert!(!keys.contains(ModifiersKeys::from_bits(MODIFIER_KEY_RSHIFT)));
    keys.remove(ModifiersKeys::from_bits(MODIFIER_KEY_LSHIFT));
    assert_eq!(keys, ModifiersKeys::from_bits(0b1000_0000));
    assert_eq!(ModifiersKeys::empty(), ModifiersKeys::default());
}

#[test]
fn key_locations_are_distinct() {
    let all = [KeyLocation::Standard, KeyLocation::Left, KeyLocation::Right, KeyLocation::Numpad];
    for (i, a) in all.iter().enumerate() {
        for (j, b) in all.iter().enumerate() {
            assert_eq!(i == j, a == b);
        }
    }
}
