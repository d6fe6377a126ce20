//! Types related to the keyboard.

use vstd::prelude::*;
use vstd::std_specs::cmp::{PartialEqSpec, PartialEqSpecImpl};
use vstd::std_specs::convert::{FromSpec, FromSpecImpl};

pub use keyboard_types::{Code as KeyCode, NamedKey};
pub use smol_str::SmolStr;

verus! {

/// Contains the platform-native physical key identifier.
///
/// The values vary from platform to platform, but they are primarily tied to the key's physical
/// location on the keyboard. They let callers match press and release events for keys that have
/// no standardized [`KeyCode`] variant.
#[derive(Clone, Copy, Debug, PartialEq, Eq, Structural, PartialOrd, Ord, Hash)]
pub enum NativeKeyCode {
    Unidentified,
    /// An Android "scancode".
    Android(u32),
    /// A macOS "scancode".
    MacOS(u16),
    /// A Windows "scancode".
    Windows(u16),
    /// An XKB "keycode".
    Xkb(u32),
}

/// The location of the key on the keyboard.
///
/// Certain physical keys can have the same value but sit in different locations: the Shift key
/// on the left or right side, or the number keys above the letters or on the numpad.
#[derive(Clone, Copy, Debug, PartialEq, Eq, Structural, PartialOrd, Ord, Hash)]
pub enum KeyLocation {
    /// The key is in its "normal" location on the keyboard, or its location is unknown.
    Standard,
    /// The key is on the left side of the keyboard.
    Left,
    /// The key is on the right side of the keyboard.
    Right,
    /// The key is on the numpad.
    Numpad,
}

/// The state of a particular modifier key.
#[derive(Clone, Copy, Debug, PartialEq, Eq, Structural, PartialOrd, Ord, Hash)]
pub enum ModifiersKeyState {
    /// The particular key is pressed.
    Pressed,
    /// The state of the key is unknown.
    Unknown,
}

impl Default for ModifiersKeyState {
    fn default() -> (r: Self)
        ensures
            r == ModifiersKeyState::Unknown,
    {
        ModifiersKeyState::Unknown
    }
}


/// Represents the current state of the keyboard modifiers.
///
/// Each flag represents a modifier and is set if this modifier is active. The flags are bits of
/// a `u32`: shift is `0b100`, and each following modifier sits three bits higher.
#[derive(Clone, Copy, Debug, PartialEq, Eq, Structural, PartialOrd, Ord, Hash)]
pub struct ModifiersState {
    bits: u32,
}

/// The bit of the "shift" key in [`ModifiersState`].
pub const MODIFIER_SHIFT: u32 = 0b100;
/// The bit of the "control" key in [`ModifiersState`].
pub const MODIFIER_CONTROL: u32 = 0b100_000;
/// The bit of the "alt" key in [`ModifiersState`].
pub const MODIFIER_ALT: u32 = 0b100_000_000;
/// The bit of the "meta" key in [`ModifiersState`].
pub const MODIFIER_META: u32 = 0b100_000_000_000;
/// The bits that name a modifier of [`ModifiersState`].
pub const MODIFIERS_STATE_ALL_BITS: u32 = 0b100_100_100_100;

impl ModifiersState {
    /// The set holding only the "shift" key.
    pub fn shift() -> (r: Self)
        ensures
            r.spec_bits() == MODIFIER_SHIFT,
    {
        ModifiersState { bits: MODIFIER_SHIFT }
    }

    /// The set holding only the "control" key.
    pub fn control() -> (r: Self)
        ensures
            r.spec_bits() == MODIFIER_CONTROL,
    {
        ModifiersState { bits: MODIFIER_CONTROL }
    }

    /// The set holding only the "alt" key.
    pub fn alt() -> (r: Self)
        ensures
            r.spec_bits() == MODIFIER_ALT,
    {
        ModifiersState { bits: MODIFIER_ALT }
    }

    /// The set holding only the "meta" key: the "windows" key on PC and "command" key on Mac.
    pub fn meta() -> (r: Self)
        ensures
            r.spec_bits() == MODIFIER_META,
    {
        ModifiersState { bits: MODIFIER_META }
    }

    /// The raw bits of this set.
    pub closed spec fn spec_bits(&self) -> u32 {
        self.bits
    }

    /// Whether `self` and `other` share at least one modifier.
    pub open spec fn shares(&self, other: ModifiersState) -> bool {
        self.spec_bits() & other.spec_bits() != 0
    }

    /// Whether every modifier of `other` is in `self`.
    pub open spec fn includes(&self, other: ModifiersState) -> bool {
        self.spec_bits() & other.spec_bits() == other.spec_bits()
    }

    /// The empty set of modifiers.
    pub fn empty() -> (r: Self)
        ensures
            r.spec_bits() == 0,
    {
        ModifiersState { bits: 0 }
    }

    /// The set of all four modifiers.
    pub fn all() -> (r: Self)
        ensures
            r.spec_bits() == MODIFIERS_STATE_ALL_BITS,
    {
        ModifiersState { bits: MODIFIERS_STATE_ALL_BITS }
    }

    /// The raw bits of this set.
    pub fn bits(&self) -> (r: u32)
        ensures
            r == self.spec_bits(),
    {
        self.bits
    }

    /// The set made of the modifier bits of `bits`; other bits are dropped.
    pub fn from_bits_truncate(bits: u32) -> (r: Self)
        ensures
            r.spec_bits() == bits & MODIFIERS_STATE_ALL_BITS,
    {
        ModifiersState { bits: bits & MODIFIERS_STATE_ALL_BITS }
    }

    /// Returns `true` if no modifier is set.
    pub fn is_empty(&self) -> (r: bool)
        ensures
            r == (self.spec_bits() == 0),
    {
        self.bits == 0
    }

    /// Returns `true` if `self` and `other` share at least one modifier.
    pub fn intersects(&self, other: Self) -> (r: bool)
        ensures
            r == self.shares(other),
    {
        self.bits & other.bits != 0
    }

    /// Returns `true` if every modifier of `other` is set in `self`.
    pub fn contains(&self, other: Self) -> (r: bool)
        ensures
            r == self.includes(other),
    {
        self.bits & other.bits == other.bits
    }

    /// The modifiers set in `self` or in `other`.
    pub fn union(self, other: Self) -> (r: Self)
        ensures
            r.spec_bits() == self.spec_bits() | other.spec_bits(),
    {
        ModifiersState { bits: self.bits | other.bits }
    }

    /// Sets the modifiers of `other` in `self`.
    pub fn insert(&mut self, other: Self)
        ensures
            final(self).spec_bits() == old(self).spec_bits() | other.spec_bits(),
    {
        self.bits = self.bits | other.bits;
    }

    /// Clears the modifiers of `other` in `self`.
    pub fn remove(&mut self, other: Self)
        ensures
            final(self).spec_bits() == old(self).spec_bits() & !other.spec_bits(),
    {
        self.bits = self.bits & !other.bits;
    }

    /// Sets the modifiers of `other` in `self` when `value` holds, and clears them otherwise.
    pub fn set(&mut self, other: Self, value: bool)
        ensures
            value ==> final(self).spec_bits() == old(self).spec_bits() | other.spec_bits(),
            !value ==> final(self).spec_bits() == old(self).spec_bits() & !other.spec_bits(),
    {
        if value {
            self.insert(other);
        } else {
            self.remove(other);
        }
    }

    /// Returns `true` if the shift key is pressed.
    pub fn shift_key(&self) -> (r: bool)
        ensures
            r == (self.spec_bits() & MODIFIER_SHIFT != 0),
    {
        self.bits & MODIFIER_SHIFT != 0
    }

    /// Returns `true` if the control key is pressed.
    pub fn control_key(&self) -> (r: bool)
        ensures
            r == (self.spec_bits() & MODIFIER_CONTROL != 0),
    {
        self.bits & MODIFIER_CONTROL != 0
    }

    /// Returns `true` if the alt key is pressed.
    pub fn alt_key(&self) -> (r: bool)
        ensures
            r == (self.spec_bits() & MODIFIER_ALT != 0),
    {
        self.bits & MODIFIER_ALT != 0
    }

    /// Returns `true` if the super key is pressed.
    pub fn super_key(&self) -> (r: bool)
        ensures
            r == (self.spec_bits() & MODIFIER_META != 0),
    {
        self.bits & MODIFIER_META != 0
    }
}

impl Default for ModifiersState {
    /// No modifier is set.
    fn default() -> (r: Self)
        ensures
            r.spec_bits() == 0,
    {
        ModifiersState::empty()
    }
}


/// The bit of the left "shift" key in [`ModifiersKeys`].
pub const MODIFIER_KEY_LSHIFT: u8 = 0b0000_0001;
/// The bit of the right "shift" key in [`ModifiersKeys`].
pub const MODIFIER_KEY_RSHIFT: u8 = 0b0000_0010;
/// The bit of the left "control" key in [`ModifiersKeys`].
pub const MODIFIER_KEY_LCONTROL: u8 = 0b0000_0100;
/// The bit of the right "control" key in [`ModifiersKeys`].
pub const MODIFIER_KEY_RCONTROL: u8 = 0b0000_1000;
/// The bit of the left "alt" key in [`ModifiersKeys`].
pub const MODIFIER_KEY_LALT: u8 = 0b0001_0000;
/// The bit of the right "alt" key in [`ModifiersKeys`].
pub const MODIFIER_KEY_RALT: u8 = 0b0010_0000;
/// The bit of the left "meta" key in [`ModifiersKeys`].
pub const MODIFIER_KEY_LMETA: u8 = 0b0100_0000;
/// The bit of the right "meta" key in [`ModifiersKeys`].
pub const MODIFIER_KEY_RMETA: u8 = 0b1000_0000;

/// Which side of each symmetric modifier is currently held.
///
/// [`ModifiersState`] collapses left and right into one flag; this set keeps them apart, one bit
/// per key, so that modifiers can be told apart by their position.
#[derive(Clone, Copy, Debug, PartialEq, Eq, Structural, Hash)]
pub struct ModifiersKeys {
    bits: u8,
}

impl ModifiersKeys {
    /// The raw bits of this set.
    pub closed spec fn spec_bits(&self) -> u8 {
        self.bits
    }

    /// The set in which no modifier key is held.
    pub fn empty() -> (r: Self)
        ensures
            r.spec_bits() == 0,
    {
        ModifiersKeys { bits: 0 }
    }

    /// The set of keys whose bits are set in `bits`.
    pub fn from_bits(bits: u8) -> (r: Self)
        ensures
            r.spec_bits() == bits,
    {
        ModifiersKeys { bits }
    }

    /// The raw bits of this set.
    pub fn bits(&self) -> (r: u8)
        ensures
            r == self.spec_bits(),
    {
        self.bits
    }

    /// Returns `true` if every key of `other` is held in `self`.
    pub fn contains(&self, other: Self) -> (r: bool)
        ensures
            r == (self.spec_bits() & other.spec_bits() == other.spec_bits()),
    {
        self.bits & other.bits == other.bits
    }

    /// Records the keys of `other` as held.
    pub fn insert(&mut self, other: Self)
        ensures
            final(self).spec_bits() == old(self).spec_bits() | other.spec_bits(),
    {
        self.bits = self.bits | other.bits;
    }

    /// Records the keys of `other` as released.
    pub fn remove(&mut self, other: Self)
        ensures
            final(self).spec_bits() == old(self).spec_bits() & !other.spec_bits(),
    {
        self.bits = self.bits & !other.bits;
    }
}

impl Default for ModifiersKeys {
    /// No modifier key is held.
    fn default() -> (r: Self)
        ensures
            r.spec_bits() == 0,
    {
        ModifiersKeys::empty()
    }
}

#[verifier::external_type_specification]
#[verifier::external_body]
pub struct ExSmolStr(smol_str::SmolStr);

/// The characters that a `SmolStr` holds.
pub uninterp spec fn smol_chars(s: SmolStr) -> Seq<char>;

/// Relies on `SmolStr::as_str`: it borrows the characters that the string holds.
pub assume_specification[ smol_str::SmolStr::as_str ](s: &smol_str::SmolStr) -> (r: &str)
    ensures
        r@ == smol_chars(*s),
;

/// Relies on `SmolStr`'s `Clone`: the copy holds the same characters.
pub assume_specification[ <smol_str::SmolStr as core::clone::Clone>::clone ](
    s: &smol_str::SmolStr,
) -> (r: smol_str::SmolStr)
    ensures
        smol_chars(r) == smol_chars(*s),
;

/// Relies on `SmolStr`'s `PartialEq`: two strings are equal when they hold the same characters.
pub assume_specification[ <smol_str::SmolStr as core::cmp::PartialEq>::eq ](
    a: &smol_str::SmolStr,
    b: &smol_str::SmolStr,
) -> (r: bool)
    ensures
        r == (smol_chars(*a) == smol_chars(*b)),
;

/// What a [`NativeKey`] identifies, with a textual key given by its characters.
pub enum NativeKeyView {
    Unidentified,
    Android(u32),
    MacOS(u16),
    Windows(u16),
    Xkb(u32),
    Web(Seq<char>),
}

/// Contains the platform-native logical key identifier.
///
/// Exactly what that means differs from platform to platform, but the values are to some degree
/// tied to the currently active keyboard layout. It lets callers bind keys that have no
/// standardized [`Key`] variant.
#[derive(Debug, Hash, PartialOrd, Ord)]
pub enum NativeKey {
    Unidentified,
    /// An Android "keycode", which is similar to a "virtual-key code" on Windows.
    Android(u32),
    /// A macOS "scancode". There does not appear to be any direct analogue to either keysyms or
    /// "virtual-key" codes in macOS, so the scancode is reported instead.
    MacOS(u16),
    /// A Windows "virtual-key code".
    Windows(u16),
    /// An XKB "keysym".
    Xkb(u32),
    /// A "key value string".
    Web(SmolStr),
}

impl View for NativeKey {
    type V = NativeKeyView;

    open spec fn view(&self) -> NativeKeyView {
        match self {
            NativeKey::Unidentified => NativeKeyView::Unidentified,
            NativeKey::Android(x) => NativeKeyView::Android(*x),
            NativeKey::MacOS(x) => NativeKeyView::MacOS(*x),
            NativeKey::Windows(x) => NativeKeyView::Windows(*x),
            NativeKey::Xkb(x) => NativeKeyView::Xkb(*x),
            NativeKey::Web(s) => NativeKeyView::Web(smol_chars(*s)),
        }
    }
}

impl Clone for NativeKey {
    fn clone(&self) -> (r: Self)
        ensures
            r@ == self@,
    {
        match self {
            NativeKey::Unidentified => NativeKey::Unidentified,
            NativeKey::Android(x) => NativeKey::Android(*x),
            NativeKey::MacOS(x) => NativeKey::MacOS(*x),
            NativeKey::Windows(x) => NativeKey::Windows(*x),
            NativeKey::Xkb(x) => NativeKey::Xkb(*x),
            NativeKey::Web(s) => NativeKey::Web(s.clone()),
        }
    }
}

impl PartialEq for NativeKey {
    fn eq(&self, rhs: &NativeKey) -> (r: bool) {
        match (self, rhs) {
            (NativeKey::Unidentified, NativeKey::Unidentified) => true,
            (NativeKey::Android(a), NativeKey::Android(b)) => *a == *b,
            (NativeKey::MacOS(a), NativeKey::MacOS(b)) => *a == *b,
            (NativeKey::Windows(a), NativeKey::Windows(b)) => *a == *b,
            (NativeKey::Xkb(a), NativeKey::Xkb(b)) => *a == *b,
            (NativeKey::Web(a), NativeKey::Web(b)) => a.eq(b),
            _ => false,
        }
    }
}

impl PartialEqSpecImpl for NativeKey {
    open spec fn obeys_eq_spec() -> bool {
        true
    }

    open spec fn eq_spec(&self, rhs: &NativeKey) -> bool {
        self@ == rhs@
    }
}

impl Eq for NativeKey {}

/// The logical key that a physical key code widens to: the variant of the same platform.
pub open spec fn native_key_of(code: NativeKeyCode) -> NativeKeyView {
    match code {
        NativeKeyCode::Unidentified => NativeKeyView::Unidentified,
        NativeKeyCode::Android(x) => NativeKeyView::Android(x),
        NativeKeyCode::MacOS(x) => NativeKeyView::MacOS(x),
        NativeKeyCode::Windows(x) => NativeKeyView::Windows(x),
        NativeKeyCode::Xkb(x) => NativeKeyView::Xkb(x),
    }
}

impl From<NativeKeyCode> for NativeKey {
    fn from(code: NativeKeyCode) -> (r: NativeKey) {
        match code {
            NativeKeyCode::Unidentified => NativeKey::Unidentified,
            NativeKeyCode::Android(x) => NativeKey::Android(x),
            NativeKeyCode::MacOS(x) => NativeKey::MacOS(x),
            NativeKeyCode::Windows(x) => NativeKey::Windows(x),
            NativeKeyCode::Xkb(x) => NativeKey::Xkb(x),
        }
    }
}

impl FromSpecImpl<NativeKeyCode> for NativeKey {
    open spec fn obeys_from_spec() -> bool {
        true
    }

    open spec fn from_spec(code: NativeKeyCode) -> NativeKey {
        match code {
            NativeKeyCode::Unidentified => NativeKey::Unidentified,
            NativeKeyCode::Android(x) => NativeKey::Android(x),
            NativeKeyCode::MacOS(x) => NativeKey::MacOS(x),
            NativeKeyCode::Windows(x) => NativeKey::Windows(x),
            NativeKeyCode::Xkb(x) => NativeKey::Xkb(x),
        }
    }
}

impl PartialEq<NativeKey> for NativeKeyCode {
    fn eq(&self, rhs: &NativeKey) -> (r: bool) {
        NativeKey::from(*self) == *rhs
    }
}

impl PartialEqSpecImpl<NativeKey> for NativeKeyCode {
    open spec fn obeys_eq_spec() -> bool {
        true
    }

    open spec fn eq_spec(&self, rhs: &NativeKey) -> bool {
        native_key_of(*self) == rhs@
    }
}

impl PartialEq<NativeKeyCode> for NativeKey {
    fn eq(&self, rhs: &NativeKeyCode) -> (r: bool) {
        rhs == self
    }
}

impl PartialEqSpecImpl<NativeKeyCode> for NativeKey {
    open spec fn obeys_eq_spec() -> bool {
        true
    }

    open spec fn eq_spec(&self, rhs: &NativeKeyCode) -> bool {
        self@ == native_key_of(*rhs)
    }
}

/// A native logical key widened from a native physical key code is equal to it, whichever side
/// of `==` each stands on.
pub proof fn lemma_widened_native_key_eq(code: NativeKeyCode)
    ensures
        ({
            let key = <NativeKey as FromSpec<NativeKeyCode>>::from_spec(code);
            &&& <NativeKeyCode as PartialEqSpec<NativeKey>>::eq_spec(&code, &key)
            &&& <NativeKey as PartialEqSpec<NativeKeyCode>>::eq_spec(&key, &code)
        }),
{
}

#[verifier::external_type_specification]
pub struct ExKeyCode(keyboard_types::Code);

/// Relies on the derived `PartialEq` of `keyboard_types::Code`: equal exactly for the same
/// variant.
pub assume_specification[ <keyboard_types::Code as core::cmp::PartialEq>::eq ](
    a: &keyboard_types::Code,
    b: &keyboard_types::Code,
) -> (r: bool)
    ensures
        r == (*a == *b),
;

/// Represents the location of a physical key.
///
/// A key that cannot be recognized is never given as `Code(KeyCode::Unidentified)`: it is
/// `Unidentified`, with the native key code that the platform reported.
#[derive(Debug, Clone, Copy, PartialEq, Eq, PartialOrd, Ord, Hash)]
pub enum PhysicalKey {
    /// A known key code.
    Code(KeyCode),
    /// This variant is used when the key cannot be translated to a [`KeyCode`].
    ///
    /// The native keycode is provided (if available) so that key-press and key-release events
    /// can be matched by hashing the [`PhysicalKey`].
    Unidentified(NativeKeyCode),
}

impl PhysicalKey {
    /// The key code that a physical key degrades to: unrecognized keys become
    /// `KeyCode::Unidentified`.
    pub open spec fn key_code(self) -> KeyCode {
        match self {
            PhysicalKey::Code(code) => code,
            PhysicalKey::Unidentified(_) => KeyCode::Unidentified,
        }
    }
}

impl From<KeyCode> for PhysicalKey {
    fn from(code: KeyCode) -> (r: PhysicalKey) {
        PhysicalKey::Code(code)
    }
}

impl FromSpecImpl<KeyCode> for PhysicalKey {
    open spec fn obeys_from_spec() -> bool {
        true
    }

    open spec fn from_spec(code: KeyCode) -> PhysicalKey {
        PhysicalKey::Code(code)
    }
}

impl From<PhysicalKey> for KeyCode {
    fn from(key: PhysicalKey) -> (r: KeyCode) {
        match key {
            PhysicalKey::Code(code) => code,
            PhysicalKey::Unidentified(_) => KeyCode::Unidentified,
        }
    }
}

impl FromSpecImpl<PhysicalKey> for KeyCode {
    open spec fn obeys_from_spec() -> bool {
        true
    }

    open spec fn from_spec(key: PhysicalKey) -> KeyCode {
        key.key_code()
    }
}

impl From<NativeKeyCode> for PhysicalKey {
    fn from(code: NativeKeyCode) -> (r: PhysicalKey) {
        PhysicalKey::Unidentified(code)
    }
}

impl FromSpecImpl<NativeKeyCode> for PhysicalKey {
    open spec fn obeys_from_spec() -> bool {
        true
    }

    open spec fn from_spec(code: NativeKeyCode) -> PhysicalKey {
        PhysicalKey::Unidentified(code)
    }
}

impl PartialEq<KeyCode> for PhysicalKey {
    fn eq(&self, rhs: &KeyCode) -> (r: bool) {
        match self {
            PhysicalKey::Code(code) => code.eq(rhs),
            _ => false,
        }
    }
}

impl PartialEqSpecImpl<KeyCode> for PhysicalKey {
    open spec fn obeys_eq_spec() -> bool {
        true
    }

    open spec fn eq_spec(&self, rhs: &KeyCode) -> bool {
        *self == PhysicalKey::Code(*rhs)
    }
}

impl PartialEq<PhysicalKey> for KeyCode {
    fn eq(&self, rhs: &PhysicalKey) -> (r: bool) {
        rhs == self
    }
}

impl PartialEqSpecImpl<PhysicalKey> for KeyCode {
    open spec fn obeys_eq_spec() -> bool {
        true
    }

    open spec fn eq_spec(&self, rhs: &PhysicalKey) -> bool {
        *rhs == PhysicalKey::Code(*self)
    }
}

impl PartialEq<NativeKeyCode> for PhysicalKey {
    fn eq(&self, rhs: &NativeKeyCode) -> (r: bool) {
        match self {
            PhysicalKey::Unidentified(code) => *code == *rhs,
            _ => false,
        }
    }
}

impl PartialEqSpecImpl<NativeKeyCode> for PhysicalKey {
    open spec fn obeys_eq_spec() -> bool {
        true
    }

    open spec fn eq_spec(&self, rhs: &NativeKeyCode) -> bool {
        *self == PhysicalKey::Unidentified(*rhs)
    }
}

impl PartialEq<PhysicalKey> for NativeKeyCode {
    fn eq(&self, rhs: &PhysicalKey) -> (r: bool) {
        rhs == self
    }
}

impl PartialEqSpecImpl<PhysicalKey> for NativeKeyCode {
    open spec fn obeys_eq_spec() -> bool {
        true
    }

    open spec fn eq_spec(&self, rhs: &PhysicalKey) -> bool {
        *rhs == PhysicalKey::Unidentified(*self)
    }
}

/// A key code made into a physical key and read back is the same key code.
pub proof fn lemma_key_code_round_trip(code: KeyCode)
    ensures
        <KeyCode as FromSpec<PhysicalKey>>::from_spec(
            <PhysicalKey as FromSpec<KeyCode>>::from_spec(code),
        ) == code,
{
}

/// A native key code made into a physical key reads back as `KeyCode::Unidentified`.
pub proof fn lemma_native_key_code_degrades(native: NativeKeyCode)
    ensures
        <KeyCode as FromSpec<PhysicalKey>>::from_spec(
            <PhysicalKey as FromSpec<NativeKeyCode>>::from_spec(native),
        ) == KeyCode::Unidentified,
{
}

#[verifier::external_type_specification]
pub struct ExNamedKey(keyboard_types::NamedKey);

/// Relies on the derived `PartialEq` of `keyboard_types::NamedKey`: equal exactly for the same
/// variant.
pub assume_specification[ <keyboard_types::NamedKey as core::cmp::PartialEq>::eq ](
    a: &keyboard_types::NamedKey,
    b: &keyboard_types::NamedKey,
) -> (r: bool)
    ensures
        r == (*a == *b),
;

/// Relies on the derived `Clone` of `keyboard_types::NamedKey`, a `Copy` type: the copy is the
/// same variant.
pub assume_specification[ <keyboard_types::NamedKey as core::clone::Clone>::clone ](
    a: &keyboard_types::NamedKey,
) -> (r: keyboard_types::NamedKey)
    ensures
        r == *a,
;

/// Relies on `SmolStr`'s `PartialEq<str>`: equal when the string holds exactly the characters.
pub assume_specification[ <smol_str::SmolStr as core::cmp::PartialEq<str>>::eq ](
    a: &smol_str::SmolStr,
    b: &str,
) -> (r: bool)
    ensures
        r == (smol_chars(*a) == b@),
;

/// Key represents the meaning of a keypress.
///
/// This is a superset of the UI Events Specification's `KeyboardEvent.key` with additions:
/// - All simple variants are wrapped under the `Named` variant.
/// - The `Unidentified` variant here can still identify a key through its [`NativeKey`].
/// - The `Dead` variant here can specify the character which is inserted when pressing the
///   dead-key twice.
#[derive(Debug, Clone, PartialEq, Eq, Hash, PartialOrd, Ord)]
pub enum Key<Str = SmolStr> {
    /// A simple (unparameterised) action.
    Named(NamedKey),
    /// A key string that corresponds to the character typed by the user, taking into account the
    /// user's current locale setting and any system-level keyboard mapping overrides.
    Character(Str),
    /// This variant is used when the key cannot be translated to any other variant.
    ///
    /// The native key is provided (if available) so that keys which this API does not define
    /// can still be bound.
    Unidentified(NativeKey),
    /// Contains the text representation of the dead-key when available.
    Dead(Option<char>),
}

/// The control character that a named key stands for, if it has an unambiguous one.
pub open spec fn named_key_text(key: NamedKey) -> Option<Seq<char>> {
    match key {
        NamedKey::Enter => Some(seq!['\r']),
        NamedKey::Backspace => Some(seq!['\x08']),
        NamedKey::Tab => Some(seq!['\t']),
        NamedKey::Escape => Some(seq!['\x1b']),
        _ => None,
    }
}

/// The approximate textual equivalent of a key.
pub open spec fn key_text(key: Key) -> Option<Seq<char>> {
    match key {
        Key::Named(named) => named_key_text(named),
        Key::Character(s) => Some(smol_chars(s)),
        _ => None,
    }
}

/// The characters of a borrowed text, if there is one.
pub open spec fn text_view(text: Option<&str>) -> Option<Seq<char>> {
    match text {
        Some(t) => Some(t@),
        None => None,
    }
}

impl From<NamedKey> for Key {
    fn from(action: NamedKey) -> (r: Key) {
        Key::Named(action)
    }
}

impl FromSpecImpl<NamedKey> for Key {
    open spec fn obeys_from_spec() -> bool {
        true
    }

    open spec fn from_spec(action: NamedKey) -> Key {
        Key::Named(action)
    }
}

impl From<NativeKey> for Key {
    fn from(code: NativeKey) -> (r: Key) {
        Key::Unidentified(code)
    }
}

impl FromSpecImpl<NativeKey> for Key {
    open spec fn obeys_from_spec() -> bool {
        true
    }

    open spec fn from_spec(code: NativeKey) -> Key {
        Key::Unidentified(code)
    }
}

impl<Str> PartialEq<NamedKey> for Key<Str> {
    fn eq(&self, rhs: &NamedKey) -> (r: bool) {
        match self {
            Key::Named(a) => a.eq(rhs),
            _ => false,
        }
    }
}

impl<Str> PartialEqSpecImpl<NamedKey> for Key<Str> {
    open spec fn obeys_eq_spec() -> bool {
        true
    }

    open spec fn eq_spec(&self, rhs: &NamedKey) -> bool {
        *self matches Key::Named(a) && a == *rhs
    }
}

impl PartialEq<str> for Key<SmolStr> {
    fn eq(&self, rhs: &str) -> (r: bool) {
        match self {
            Key::Character(s) => s.eq(rhs),
            _ => false,
        }
    }
}

impl PartialEqSpecImpl<str> for Key<SmolStr> {
    open spec fn obeys_eq_spec() -> bool {
        true
    }

    open spec fn eq_spec(&self, rhs: &str) -> bool {
        *self matches Key::Character(s) && smol_chars(s) == rhs@
    }
}

impl<'a> PartialEq<&'a str> for Key<SmolStr> {
    fn eq(&self, rhs: &&'a str) -> (r: bool) {
        match self {
            Key::Character(s) => s.eq(*rhs),
            _ => false,
        }
    }
}

impl<'a> PartialEqSpecImpl<&'a str> for Key<SmolStr> {
    open spec fn obeys_eq_spec() -> bool {
        true
    }

    open spec fn eq_spec(&self, rhs: &&'a str) -> bool {
        *self matches Key::Character(s) && smol_chars(s) == (*rhs)@
    }
}

impl<Str> PartialEq<NativeKey> for Key<Str> {
    fn eq(&self, rhs: &NativeKey) -> (r: bool) {
        match self {
            Key::Unidentified(code) => code.eq(rhs),
            _ => false,
        }
    }
}

impl<Str> PartialEqSpecImpl<NativeKey> for Key<Str> {
    open spec fn obeys_eq_spec() -> bool {
        true
    }

    open spec fn eq_spec(&self, rhs: &NativeKey) -> bool {
        *self matches Key::Unidentified(code) && code@ == rhs@
    }
}

impl<Str> PartialEq<Key<Str>> for NativeKey {
    fn eq(&self, rhs: &Key<Str>) -> (r: bool) {
        rhs.eq(self)
    }
}

impl<Str> PartialEqSpecImpl<Key<Str>> for NativeKey {
    open spec fn obeys_eq_spec() -> bool {
        true
    }

    open spec fn eq_spec(&self, rhs: &Key<Str>) -> bool {
        rhs matches Key::Unidentified(code) && code@ == self@
    }
}

impl Key<SmolStr> {
    /// Convert `Key::Character(SmolStr)` to `Key::Character(&str)` so that a `Key` can be
    /// matched more easily. All other variants remain unchanged.
    pub fn as_ref(&self) -> (r: Key<&str>)
        ensures
            match (*self, r) {
                (Key::Named(a), Key::Named(b)) => a == b,
                (Key::Character(a), Key::Character(b)) => smol_chars(a) == b@,
                (Key::Unidentified(a), Key::Unidentified(b)) => a@ == b@,
                (Key::Dead(a), Key::Dead(b)) => a == b,
                _ => false,
            },
    {
        match self {
            Key::Named(a) => Key::Named(*a),
            Key::Character(ch) => Key::Character(ch.as_str()),
            Key::Dead(d) => Key::Dead(*d),
            Key::Unidentified(u) => Key::Unidentified(u.clone()),
        }
    }

    /// Convert a key to its approximate textual equivalent.
    ///
    /// Enter, Backspace, Tab and Escape give their control character, a character key gives its
    /// text, and every other key gives `None`.
    pub fn to_text(&self) -> (r: Option<&str>)
        ensures
            text_view(r) == key_text(*self),
    {
        proof {
            reveal_strlit("\r");
            reveal_strlit("\x08");
            reveal_strlit("\t");
            reveal_strlit("\x1b");
        }
        match self {
            Key::Named(action) => match action {
                NamedKey::Enter => Some("\r"),
                NamedKey::Backspace => Some("\x08"),
                NamedKey::Tab => Some("\t"),
                NamedKey::Escape => Some("\x1b"),
                _ => None,
            },
            Key::Character(ch) => Some(ch.as_str()),
            _ => None,
        }
    }
}

/// Every cross-type equality gives the same answer whichever side of `==` each value stands on.
pub proof fn lemma_cross_equality_symmetric(
    physical: PhysicalKey,
    code: KeyCode,
    native_code: NativeKeyCode,
    native: NativeKey,
    key: Key,
)
    ensures
        <PhysicalKey as PartialEqSpec<KeyCode>>::eq_spec(&physical, &code)
            == <KeyCode as PartialEqSpec<PhysicalKey>>::eq_spec(&code, &physical),
        <PhysicalKey as PartialEqSpec<NativeKeyCode>>::eq_spec(&physical, &native_code)
            == <NativeKeyCode as PartialEqSpec<PhysicalKey>>::eq_spec(&native_code, &physical),
        <NativeKeyCode as PartialEqSpec<NativeKey>>::eq_spec(&native_code, &native)
            == <NativeKey as PartialEqSpec<NativeKeyCode>>::eq_spec(&native, &native_code),
        <Key as PartialEqSpec<NativeKey>>::eq_spec(&key, &native)
            == <NativeKey as PartialEqSpec<Key>>::eq_spec(&native, &key),
{
}

} // verus!
