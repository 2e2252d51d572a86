//! The global hotkey: which key it is, who listens for it, and what a press and a
//! release of it do.

use vstd::prelude::*;

use std::str::FromStr;

use crate::config::Config;
use crate::engine::{step_for, Command, EngineStep};
use crate::text::{
    after_prefix, ascii_lowered, ascii_uppered, chars, decimal, decimal_reads_back, i32_value,
    is_space, lowering_commutes_with_trimming, parse_i32, prefixes_come_off, same,
    space_around_is_trimmed, strip_prefix, to_ascii_lower, to_ascii_upper, to_decimal, trim,
    trimmed, trimmed_end, uppering_commutes_with_trimming,
};
use evdev::{EventType, InputEvent, InputEventKind, Key};

verus! {

/// The name under which the shortcut is registered with the portal.
pub const SHORTCUT_ID: &'static str = "toggle_dictation";

/// What the desktop shows of the shortcut.
pub const SHORTCUT_DESCRIPTION: &'static str = "Toggle / hold FluidSiren dictation";

/// The key unless the settings name another.
pub const DEFAULT_KEY: &'static str = "KEY_F12";

/// How the key drives recording.
#[derive(Clone, Copy, Debug, PartialEq, Eq, Structural)]
pub enum HotkeyMode {
    /// Press once to start, press again to stop.
    Toggle,
    /// Record while the key is held; stop on release.
    PushToTalk,
}

/// Which listener to use.
#[derive(Clone, Copy, Debug, PartialEq, Eq, Structural)]
pub enum HotkeyBackend {
    /// Try evdev (direct key), fall back to the portal.
    Auto,
    /// XDG GlobalShortcuts portal only.
    Portal,
    /// Raw evdev `/dev/input` only.
    Evdev,
}

impl Default for HotkeyMode {
    fn default() -> (r: Self)
        ensures
            r == HotkeyMode::Toggle,
    {
        HotkeyMode::Toggle
    }
}

impl Default for HotkeyBackend {
    fn default() -> (r: Self)
        ensures
            r == HotkeyBackend::Auto,
    {
        HotkeyBackend::Auto
    }
}

/// What can be wrong with a hotkey.
#[derive(Debug)]
pub enum HotkeyError {
    /// There is no mode of this name.
    UnknownMode(String),
    /// There is no backend of this name.
    UnknownBackend(String),
    /// There is no key of this name.
    UnknownKey(String),
    /// No device that can be read has the key of this name.
    NoDevice(String),
}

/// `s` with hyphens and spaces turned into underscores.
pub open spec fn underscored(s: Seq<char>) -> Seq<char> {
    Seq::new(
        s.len(),
        |i: int|
            if s[i] == '-' || s[i] == ' ' {
                '_'
            } else {
                s[i]
            },
    )
}

fn between(front: &str, middle: &str, back: &str) -> (r: String)
    ensures
        r@ == front@ + middle@ + back@,
{
    let mut out = front.to_string();
    out.append(middle);
    out.append(back);
    out
}

fn to_underscores(s: &str) -> (r: String)
    ensures
        r@ == underscored(s@),
{
    let cs = chars(s);
    let mut out = String::new();
    let mut i: usize = 0;
    while i < cs.len()
        invariant
            i <= cs@.len(),
            out@ == underscored(cs@).take(i as int),
        decreases cs@.len() - i,
    {
        let c: char = cs[i];
        out.push(if c == '-' || c == ' ' { '_' } else { c });
        i += 1;
    }
    out
}

/// The name of a mode in its plain form: no white space around it, lower case, and
/// underscores between words.
pub open spec fn plain_mode(s: Seq<char>) -> Seq<char> {
    underscored(ascii_lowered(trimmed(s)))
}

/// The mode that `s` names.
pub open spec fn named_mode(s: Seq<char>) -> Option<HotkeyMode> {
    let plain = plain_mode(s);
    if plain == "toggle"@ {
        Some(HotkeyMode::Toggle)
    } else if plain == "push_to_talk"@ || plain == "ptt"@ || plain == "hold"@ {
        Some(HotkeyMode::PushToTalk)
    } else {
        None
    }
}

impl FromStr for HotkeyMode {
    type Err = HotkeyError;

    fn from_str(s: &str) -> (r: Result<Self, HotkeyError>)
        ensures
            match named_mode(s@) {
                Some(mode) => r matches Ok(m) && m == mode,
                None => r matches Err(HotkeyError::UnknownMode(name)) && name@ == plain_mode(s@),
            },
    {
        let plain = to_underscores(to_ascii_lower(trim(s).as_str()).as_str());
        if same(plain.as_str(), "toggle") {
            Ok(HotkeyMode::Toggle)
        } else if same(plain.as_str(), "push_to_talk") || same(plain.as_str(), "ptt") || same(
            plain.as_str(),
            "hold",
        ) {
            Ok(HotkeyMode::PushToTalk)
        } else {
            Err(HotkeyError::UnknownMode(plain))
        }
    }
}

/// The name of a backend in its plain form: no white space around it, lower case.
pub open spec fn plain_backend(s: Seq<char>) -> Seq<char> {
    ascii_lowered(trimmed(s))
}

/// The backend that `s` names.
pub open spec fn named_backend(s: Seq<char>) -> Option<HotkeyBackend> {
    let plain = plain_backend(s);
    if plain == "auto"@ || plain == ""@ {
        Some(HotkeyBackend::Auto)
    } else if plain == "portal"@ || plain == "xdg"@ || plain == "globalshortcuts"@ {
        Some(HotkeyBackend::Portal)
    } else if plain == "evdev"@ || plain == "input"@ {
        Some(HotkeyBackend::Evdev)
    } else {
        None
    }
}

impl FromStr for HotkeyBackend {
    type Err = HotkeyError;

    fn from_str(s: &str) -> (r: Result<Self, HotkeyError>)
        ensures
            match named_backend(s@) {
                Some(backend) => r matches Ok(b) && b == backend,
                None => r matches Err(HotkeyError::UnknownBackend(name)) && name@ == plain_backend(
                    s@,
                ),
            },
    {
        let lowered = to_ascii_lower(trim(s).as_str());
        let plain = lowered.as_str();
        if same(plain, "auto") || same(plain, "") {
            Ok(HotkeyBackend::Auto)
        } else if same(plain, "portal") || same(plain, "xdg") || same(plain, "globalshortcuts") {
            Ok(HotkeyBackend::Portal)
        } else if same(plain, "evdev") || same(plain, "input") {
            Ok(HotkeyBackend::Evdev)
        } else {
            Err(HotkeyError::UnknownBackend(lowered))
        }
    }
}

impl HotkeyError {
    /// The message for the log.
    pub fn message(&self) -> (r: String)
        ensures
            r@ == (match *self {
                HotkeyError::UnknownMode(name) => "unknown hotkey mode '"@ + name@
                    + "' (use 'toggle' or 'push_to_talk')"@,
                HotkeyError::UnknownBackend(name) => "unknown hotkey backend '"@ + name@
                    + "' (use 'auto', 'portal' or 'evdev')"@,
                HotkeyError::UnknownKey(name) => "unknown evdev key name '"@ + name@ + "'"@,
                HotkeyError::NoDevice(name) => "no readable input device exposes "@ + name@
                    + ". Add yourself to the 'input' group (sudo usermod -aG input $USER) and re-login, or pick a key your keyboard has."@,
            }),
    {
        match self {
            HotkeyError::UnknownMode(name) => between(
                "unknown hotkey mode '",
                name.as_str(),
                "' (use 'toggle' or 'push_to_talk')",
            ),
            HotkeyError::UnknownBackend(name) => between(
                "unknown hotkey backend '",
                name.as_str(),
                "' (use 'auto', 'portal' or 'evdev')",
            ),
            HotkeyError::UnknownKey(name) => between(
                "unknown evdev key name '",
                name.as_str(),
                "'",
            ),
            HotkeyError::NoDevice(name) => between(
                "no readable input device exposes ",
                name.as_str(),
                ". Add yourself to the 'input' group (sudo usermod -aG input $USER) and re-login, or pick a key your keyboard has.",
            ),
        }
    }
}

/// A key that can be the hotkey.
#[derive(Clone, Copy, Debug, PartialEq, Eq, Structural)]
pub enum HotkeyKey {
    /// `KEY_F1`
    F1,
    /// `KEY_F2`
    F2,
    /// `KEY_F3`
    F3,
    /// `KEY_F4`
    F4,
    /// `KEY_F5`
    F5,
    /// `KEY_F6`
    F6,
    /// `KEY_F7`
    F7,
    /// `KEY_F8`
    F8,
    /// `KEY_F9`
    F9,
    /// `KEY_F10`
    F10,
    /// `KEY_F11`
    F11,
    /// `KEY_F12`
    F12,
    /// `KEY_RIGHTCTRL`
    RightCtrl,
    /// `KEY_LEFTCTRL`
    LeftCtrl,
    /// `KEY_RIGHTALT`
    RightAlt,
    /// `KEY_LEFTALT`
    LeftAlt,
    /// `KEY_RIGHTSHIFT`
    RightShift,
    /// `KEY_LEFTSHIFT`
    LeftShift,
    /// `KEY_RIGHTMETA`
    RightMeta,
    /// `KEY_LEFTMETA`
    LeftMeta,
    /// `KEY_CAPSLOCK`
    CapsLock,
    /// `KEY_SCROLLLOCK`
    ScrollLock,
    /// `KEY_PAUSE`
    Pause,
    /// `KEY_INSERT`
    Insert,
    /// `KEY_COMPOSE`
    Compose,
}

/// The code that the kernel gives a key.
pub open spec fn key_code(key: HotkeyKey) -> u16 {
    match key {
        HotkeyKey::F1 => 59,
        HotkeyKey::F2 => 60,
        HotkeyKey::F3 => 61,
        HotkeyKey::F4 => 62,
        HotkeyKey::F5 => 63,
        HotkeyKey::F6 => 64,
        HotkeyKey::F7 => 65,
        HotkeyKey::F8 => 66,
        HotkeyKey::F9 => 67,
        HotkeyKey::F10 => 68,
        HotkeyKey::F11 => 87,
        HotkeyKey::F12 => 88,
        HotkeyKey::RightCtrl => 97,
        HotkeyKey::LeftCtrl => 29,
        HotkeyKey::RightAlt => 100,
        HotkeyKey::LeftAlt => 56,
        HotkeyKey::RightShift => 54,
        HotkeyKey::LeftShift => 42,
        HotkeyKey::RightMeta => 126,
        HotkeyKey::LeftMeta => 125,
        HotkeyKey::CapsLock => 58,
        HotkeyKey::ScrollLock => 70,
        HotkeyKey::Pause => 119,
        HotkeyKey::Insert => 110,
        HotkeyKey::Compose => 127,
    }
}

/// The place of a key in the table of key codes.
pub open spec fn key_place(key: HotkeyKey) -> int {
    match key {
        HotkeyKey::F1 => 0,
        HotkeyKey::F2 => 1,
        HotkeyKey::F3 => 2,
        HotkeyKey::F4 => 3,
        HotkeyKey::F5 => 4,
        HotkeyKey::F6 => 5,
        HotkeyKey::F7 => 6,
        HotkeyKey::F8 => 7,
        HotkeyKey::F9 => 8,
        HotkeyKey::F10 => 9,
        HotkeyKey::F11 => 10,
        HotkeyKey::F12 => 11,
        HotkeyKey::RightCtrl => 12,
        HotkeyKey::LeftCtrl => 13,
        HotkeyKey::RightAlt => 14,
        HotkeyKey::LeftAlt => 15,
        HotkeyKey::RightShift => 16,
        HotkeyKey::LeftShift => 17,
        HotkeyKey::RightMeta => 18,
        HotkeyKey::LeftMeta => 19,
        HotkeyKey::CapsLock => 20,
        HotkeyKey::ScrollLock => 21,
        HotkeyKey::Pause => 22,
        HotkeyKey::Insert => 23,
        HotkeyKey::Compose => 24,
    }
}

/// The codes of the keys, in the order of their places.
pub open spec fn key_codes() -> Seq<u16> {
    seq![
        59, 60, 61, 62, 63, 64, 65, 66, 67,
        68, 87, 88, 97, 29, 100, 56, 54, 42,
        126, 125, 58, 70, 119, 110, 127,
    ]
}

/// The constants `evdev::Key::KEY_F1` to `KEY_F12` and those of the other keys, with
/// `evdev::Key::code`: each has the code that the kernel's list of input events
/// gives that key.
#[verifier::external_body]
fn evdev_code(place: usize) -> (r: u16)
    requires
        place < 25,
    ensures
        r == key_codes()[place as int],
{
    let keys = [
        Key::KEY_F1, Key::KEY_F2, Key::KEY_F3, Key::KEY_F4,
        Key::KEY_F5, Key::KEY_F6, Key::KEY_F7, Key::KEY_F8,
        Key::KEY_F9, Key::KEY_F10, Key::KEY_F11, Key::KEY_F12,
        Key::KEY_RIGHTCTRL, Key::KEY_LEFTCTRL, Key::KEY_RIGHTALT, Key::KEY_LEFTALT,
        Key::KEY_RIGHTSHIFT, Key::KEY_LEFTSHIFT, Key::KEY_RIGHTMETA, Key::KEY_LEFTMETA,
        Key::KEY_CAPSLOCK, Key::KEY_SCROLLLOCK, Key::KEY_PAUSE, Key::KEY_INSERT,
        Key::KEY_COMPOSE,
    ];
    keys[place].code()
}

impl HotkeyKey {
    /// The code that the kernel gives the key.
    pub fn code(self) -> (r: u16)
        ensures
            r == key_code(self),
    {
        let place: usize = match self {
            HotkeyKey::F1 => 0,
            HotkeyKey::F2 => 1,
            HotkeyKey::F3 => 2,
            HotkeyKey::F4 => 3,
            HotkeyKey::F5 => 4,
            HotkeyKey::F6 => 5,
            HotkeyKey::F7 => 6,
            HotkeyKey::F8 => 7,
            HotkeyKey::F9 => 8,
            HotkeyKey::F10 => 9,
            HotkeyKey::F11 => 10,
            HotkeyKey::F12 => 11,
            HotkeyKey::RightCtrl => 12,
            HotkeyKey::LeftCtrl => 13,
            HotkeyKey::RightAlt => 14,
            HotkeyKey::LeftAlt => 15,
            HotkeyKey::RightShift => 16,
            HotkeyKey::LeftShift => 17,
            HotkeyKey::RightMeta => 18,
            HotkeyKey::LeftMeta => 19,
            HotkeyKey::CapsLock => 20,
            HotkeyKey::ScrollLock => 21,
            HotkeyKey::Pause => 22,
            HotkeyKey::Insert => 23,
            HotkeyKey::Compose => 24,
        };
        evdev_code(place)
    }
}

/// The name of a key in its plain form: no white space around it, upper case, and
/// no `KEY_` in front.
pub open spec fn plain_key(s: Seq<char>) -> Seq<char> {
    let up = ascii_uppered(trimmed(s));
    match after_prefix(up, "KEY_"@) {
        Some(rest) => rest,
        None => up,
    }
}

/// The key that `s` names.
pub open spec fn named_key(s: Seq<char>) -> Option<HotkeyKey> {
    let plain = plain_key(s);
    if plain == "F1"@ {
        Some(HotkeyKey::F1)
    } else if plain == "F2"@ {
        Some(HotkeyKey::F2)
    } else if plain == "F3"@ {
        Some(HotkeyKey::F3)
    } else if plain == "F4"@ {
        Some(HotkeyKey::F4)
    } else if plain == "F5"@ {
        Some(HotkeyKey::F5)
    } else if plain == "F6"@ {
        Some(HotkeyKey::F6)
    } else if plain == "F7"@ {
        Some(HotkeyKey::F7)
    } else if plain == "F8"@ {
        Some(HotkeyKey::F8)
    } else if plain == "F9"@ {
        Some(HotkeyKey::F9)
    } else if plain == "F10"@ {
        Some(HotkeyKey::F10)
    } else if plain == "F11"@ {
        Some(HotkeyKey::F11)
    } else if plain == "F12"@ {
        Some(HotkeyKey::F12)
    } else if plain == "RIGHTCTRL"@ || plain == "RCTRL"@ {
        Some(HotkeyKey::RightCtrl)
    } else if plain == "LEFTCTRL"@ || plain == "LCTRL"@ {
        Some(HotkeyKey::LeftCtrl)
    } else if plain == "RIGHTALT"@ || plain == "RALT"@ || plain == "ALTGR"@ {
        Some(HotkeyKey::RightAlt)
    } else if plain == "LEFTALT"@ || plain == "LALT"@ {
        Some(HotkeyKey::LeftAlt)
    } else if plain == "RIGHTSHIFT"@ || plain == "RSHIFT"@ {
        Some(HotkeyKey::RightShift)
    } else if plain == "LEFTSHIFT"@ || plain == "LSHIFT"@ {
        Some(HotkeyKey::LeftShift)
    } else if plain == "RIGHTMETA"@ || plain == "RMETA"@ || plain == "RSUPER"@ || plain == "RWIN"@ {
        Some(HotkeyKey::RightMeta)
    } else if plain == "LEFTMETA"@ || plain == "LMETA"@ || plain == "LSUPER"@ || plain == "LWIN"@ || plain == "SUPER"@ {
        Some(HotkeyKey::LeftMeta)
    } else if plain == "CAPSLOCK"@ || plain == "CAPS"@ {
        Some(HotkeyKey::CapsLock)
    } else if plain == "SCROLLLOCK"@ {
        Some(HotkeyKey::ScrollLock)
    } else if plain == "PAUSE"@ {
        Some(HotkeyKey::Pause)
    } else if plain == "INSERT"@ || plain == "INS"@ {
        Some(HotkeyKey::Insert)
    } else if plain == "MENU"@ || plain == "COMPOSE"@ {
        Some(HotkeyKey::Compose)
    } else {
        None
    }
}

/// The key that a human key name stands for: "F12", "KEY_F12", "key_f12" and so
/// on. Covers the keys people pick for a dictation hotkey (function keys,
/// modifiers, and a few odds).
pub fn key_from_name(name: &str) -> (r: Option<HotkeyKey>)
    ensures
        r == named_key(name@),
{
    let shouted = to_ascii_upper(trim(name).as_str());
    let plain = match strip_prefix(shouted.as_str(), "KEY_") {
        Some(rest) => rest,
        None => shouted,
    };
    let up = plain.as_str();
    if same(up, "F1") {
        Some(HotkeyKey::F1)
    } else if same(up, "F2") {
        Some(HotkeyKey::F2)
    } else if same(up, "F3") {
        Some(HotkeyKey::F3)
    } else if same(up, "F4") {
        Some(HotkeyKey::F4)
    } else if same(up, "F5") {
        Some(HotkeyKey::F5)
    } else if same(up, "F6") {
        Some(HotkeyKey::F6)
    } else if same(up, "F7") {
        Some(HotkeyKey::F7)
    } else if same(up, "F8") {
        Some(HotkeyKey::F8)
    } else if same(up, "F9") {
        Some(HotkeyKey::F9)
    } else if same(up, "F10") {
        Some(HotkeyKey::F10)
    } else if same(up, "F11") {
        Some(HotkeyKey::F11)
    } else if same(up, "F12") {
        Some(HotkeyKey::F12)
    } else if same(up, "RIGHTCTRL") || same(up, "RCTRL") {
        Some(HotkeyKey::RightCtrl)
    } else if same(up, "LEFTCTRL") || same(up, "LCTRL") {
        Some(HotkeyKey::LeftCtrl)
    } else if same(up, "RIGHTALT") || same(up, "RALT") || same(up, "ALTGR") {
        Some(HotkeyKey::RightAlt)
    } else if same(up, "LEFTALT") || same(up, "LALT") {
        Some(HotkeyKey::LeftAlt)
    } else if same(up, "RIGHTSHIFT") || same(up, "RSHIFT") {
        Some(HotkeyKey::RightShift)
    } else if same(up, "LEFTSHIFT") || same(up, "LSHIFT") {
        Some(HotkeyKey::LeftShift)
    } else if same(up, "RIGHTMETA") || same(up, "RMETA") || same(up, "RSUPER") || same(up, "RWIN") {
        Some(HotkeyKey::RightMeta)
    } else if same(up, "LEFTMETA") || same(up, "LMETA") || same(up, "LSUPER") || same(up, "LWIN") || same(up, "SUPER") {
        Some(HotkeyKey::LeftMeta)
    } else if same(up, "CAPSLOCK") || same(up, "CAPS") {
        Some(HotkeyKey::CapsLock)
    } else if same(up, "SCROLLLOCK") {
        Some(HotkeyKey::ScrollLock)
    } else if same(up, "PAUSE") {
        Some(HotkeyKey::Pause)
    } else if same(up, "INSERT") || same(up, "INS") {
        Some(HotkeyKey::Insert)
    } else if same(up, "MENU") || same(up, "COMPOSE") {
        Some(HotkeyKey::Compose)
    } else {
        None
    }
}

/// `evdev::Key`: one key of a keyboard.
#[verifier::external_type_specification]
#[verifier::external_body]
pub struct ExKey(evdev::Key);

/// `evdev::AttributeSetRef`: the keys that a device can send, among others.
#[verifier::external_type_specification]
#[verifier::external_body]
#[verifier::reject_recursive_types(T)]
pub struct ExAttributeSetRef<T>(evdev::AttributeSetRef<T>);

/// The codes of the keys in a set of keys.
pub uninterp spec fn codes_in(keys: &evdev::AttributeSetRef<evdev::Key>) -> Set<u16>;

/// `evdev::AttributeSetRef::contains` tests whether a key is in the set.
#[verifier::external_body]
fn set_contains(keys: &evdev::AttributeSetRef<evdev::Key>, code: u16) -> (r: bool)
    ensures
        r == codes_in(keys).contains(code),
{
    keys.contains(evdev::Key::new(code))
}

/// Whether a device is worth listening to: it reports which keys it has, and `key`
/// is one of them.
pub fn has_key(keys: Option<&evdev::AttributeSetRef<evdev::Key>>, key: HotkeyKey) -> (r: bool)
    ensures
        r == (keys matches Some(set) && codes_in(set).contains(key_code(key))),
{
    match keys {
        Some(set) => set_contains(set, key.code()),
        None => false,
    }
}

/// What is wrong with listening for the key named `key_name` when `readers` devices
/// have it: nothing, or there is no such key, or no device has it.
pub fn evdev_ready(key_name: &str, readers: usize) -> (r: Result<HotkeyKey, HotkeyError>)
    ensures
        match named_key(key_name@) {
            None => r matches Err(HotkeyError::UnknownKey(name)) && name@ == key_name@,
            Some(key) => if readers == 0 {
                r matches Err(HotkeyError::NoDevice(name)) && name@ == key_name@
            } else {
                r matches Ok(k) && k == key
            },
        },
{
    match key_from_name(key_name) {
        None => Err(HotkeyError::UnknownKey(key_name.to_string())),
        Some(key) => if readers == 0 {
            Err(HotkeyError::NoDevice(key_name.to_string()))
        } else {
            Ok(key)
        },
    }
}

/// `s` without `KEY_` in front.
pub open spec fn bare_key(s: Seq<char>) -> Seq<char> {
    match after_prefix(s, "KEY_"@) {
        Some(rest) => rest,
        None => s,
    }
}

/// The trigger to prefer when the shortcut is registered with the portal, e.g.
/// "F12" for "KEY_F12".
pub fn portal_trigger(evdev_key: &str) -> (r: String)
    ensures
        r@ == bare_key(evdev_key@),
{
    match strip_prefix(evdev_key, "KEY_") {
        Some(rest) => rest,
        None => evdev_key.to_string(),
    }
}

/// The Qt code of the function key that `s` names: F1 has 0x01000030, and the
/// others up to F24 follow.
pub open spec fn qt_code(s: Seq<char>) -> Option<i32> {
    match after_prefix(bare_key(s), "F"@) {
        Some(number) => match i32_value(number) {
            Some(n) => if 1 <= n <= 24 {
                Some((0x0100_002F + n) as i32)
            } else {
                None
            },
            None => None,
        },
        None => None,
    }
}

/// Qt key code (`Qt::Key`) for an evdev key name. Function keys only.
pub fn qt_keycode_for(evdev_name: &str) -> (r: Option<i32>)
    ensures
        r == qt_code(evdev_name@),
{
    let up = portal_trigger(evdev_name);
    match strip_prefix(up.as_str(), "F") {
        Some(number) => match parse_i32(number.as_str()) {
            Some(n) => if 1 <= n && n <= 24 {
                Some(0x0100_002F + n)
            } else {
                None
            },
            None => None,
        },
        None => None,
    }
}

/// The shortcut as the desktop names it.
pub open spec fn portal_action() -> Seq<char> {
    "['dev.altic.FluidSiren','"@ + SHORTCUT_ID@ + "','FluidSiren','"@ + SHORTCUT_DESCRIPTION@
        + "']"@
}

/// The arguments of `gdbus` that bind the shortcut to the key named `evdev_name`,
/// with the call that the desktop's own settings make; nothing where the key has no
/// Qt code.
pub fn portal_shortcut_call(evdev_name: &str) -> (r: Option<Vec<String>>)
    ensures
        match qt_code(evdev_name@) {
            Some(qt) => r matches Some(args) && args.deep_view() == seq![
                "call"@,
                "--session"@,
                "--dest"@,
                "org.kde.kglobalaccel"@,
                "--object-path"@,
                "/kglobalaccel"@,
                "--method"@,
                "org.kde.KGlobalAccel.setForeignShortcut"@,
                portal_action(),
                "["@ + decimal(qt as nat) + "]"@,
            ],
            None => r is None,
        },
{
    let qt: i32 = match qt_keycode_for(evdev_name) {
        Some(code) => code,
        None => {
            return None;
        },
    };
    let mut action = "['dev.altic.FluidSiren','".to_string();
    action.append(SHORTCUT_ID);
    action.append("','FluidSiren','");
    action.append(SHORTCUT_DESCRIPTION);
    action.append("']");
    let mut args: Vec<String> = Vec::new();
    args.push("call".to_string());
    args.push("--session".to_string());
    args.push("--dest".to_string());
    args.push("org.kde.kglobalaccel".to_string());
    args.push("--object-path".to_string());
    args.push("/kglobalaccel".to_string());
    args.push("--method".to_string());
    args.push("org.kde.KGlobalAccel.setForeignShortcut".to_string());
    args.push(action);
    args.push(between("[", to_decimal(qt as u64).as_str(), "]"));
    Some(args)
}

/// `evdev::InputEvent::kind` of an event with this type, code and value: an event
/// of the type `EV_KEY`, which is 1, is about the key with its code; no other is
/// about a key.
#[verifier::external_body]
fn event_key(event_type: u16, code: u16, value: i32) -> (r: Option<u16>)
    ensures
        r == (if event_type == 1 {
            Some(code)
        } else {
            None
        }),
{
    match InputEvent::new(EventType(event_type), code, value).kind() {
        InputEventKind::Key(key) => Some(key.code()),
        _ => None,
    }
}

/// What the key tells the dictation engine.
#[derive(Clone, Copy, Debug, PartialEq, Eq, Structural)]
pub enum HotkeyAction {
    /// Begin recording.
    Start,
    /// End the recording.
    Stop,
    /// Nothing.
    Ignore,
}

/// The command that an action sends to the engine, where there is one.
pub open spec fn action_command(action: HotkeyAction) -> Option<Command> {
    match action {
        HotkeyAction::Start => Some(Command::Start),
        HotkeyAction::Stop => Some(Command::Stop),
        HotkeyAction::Ignore => None,
    }
}

impl HotkeyAction {
    /// The command to send to the engine, where there is one.
    pub fn command(self) -> (r: Option<Command>)
        ensures
            r == action_command(self),
    {
        match self {
            HotkeyAction::Start => Some(Command::Start),
            HotkeyAction::Stop => Some(Command::Stop),
            HotkeyAction::Ignore => None,
        }
    }
}

/// A signal of the portal's.
#[derive(Debug)]
pub enum PortalEvent {
    /// The listener is to wind down.
    Shutdown,
    /// The shortcut of this name was pressed; none when the signals have ended.
    Activated(Option<String>),
    /// The shortcut of this name was released; none when the signals have ended.
    Deactivated(Option<String>),
}

/// What a listener remembers from one event to the next. All devices share one, so
/// that the key on any keyboard toggles the same recording.
#[derive(Clone, Copy, Debug, PartialEq, Eq, Structural)]
pub struct HotkeyState {
    /// How the key drives recording.
    pub mode: HotkeyMode,
    /// Whether the key has started a recording that it has not stopped.
    pub recording: bool,
}

/// A press of the key.
pub open spec fn pressed(state: HotkeyState) -> (HotkeyState, HotkeyAction) {
    match state.mode {
        HotkeyMode::Toggle => (
            HotkeyState { mode: state.mode, recording: !state.recording },
            if state.recording {
                HotkeyAction::Stop
            } else {
                HotkeyAction::Start
            },
        ),
        HotkeyMode::PushToTalk => (state, HotkeyAction::Start),
    }
}

/// A release of the key.
pub open spec fn released(state: HotkeyState) -> (HotkeyState, HotkeyAction) {
    match state.mode {
        HotkeyMode::Toggle => (state, HotkeyAction::Ignore),
        HotkeyMode::PushToTalk => (state, HotkeyAction::Stop),
    }
}

/// An event of an input device. Only key events with the code of `key` count, and of
/// those the value 1 is a press and the value 0 a release; the rest are repeats.
pub open spec fn device_event(
    state: HotkeyState,
    key: HotkeyKey,
    event_type: u16,
    code: u16,
    value: i32,
) -> (HotkeyState, HotkeyAction) {
    if event_type != 1 || code != key_code(key) {
        (state, HotkeyAction::Ignore)
    } else if value == 1 {
        pressed(state)
    } else if value == 0 {
        released(state)
    } else {
        (state, HotkeyAction::Ignore)
    }
}

/// Whether a signal ends the portal listener.
pub open spec fn ends_portal(event: PortalEvent) -> bool {
    match event {
        PortalEvent::Shutdown => true,
        PortalEvent::Activated(id) => id is None,
        PortalEvent::Deactivated(id) => id is None,
    }
}

/// A signal of the portal's that does not end the listener. Only those of the
/// dictation shortcut count.
pub open spec fn portal_signal(state: HotkeyState, event: PortalEvent) -> (
    HotkeyState,
    HotkeyAction,
) {
    match event {
        PortalEvent::Activated(Some(id)) => if id@ == SHORTCUT_ID@ {
            pressed(state)
        } else {
            (state, HotkeyAction::Ignore)
        },
        PortalEvent::Deactivated(Some(id)) => if id@ == SHORTCUT_ID@ {
            released(state)
        } else {
            (state, HotkeyAction::Ignore)
        },
        _ => (state, HotkeyAction::Ignore),
    }
}

impl HotkeyState {
    /// No recording yet.
    pub fn new(mode: HotkeyMode) -> (r: HotkeyState)
        ensures
            r == (HotkeyState { mode, recording: false }),
    {
        HotkeyState { mode, recording: false }
    }

    /// The key went down.
    pub fn press(&mut self) -> (r: HotkeyAction)
        ensures
            (*final(self), r) == pressed(*old(self)),
    {
        match self.mode {
            HotkeyMode::Toggle => {
                let was: bool = self.recording;
                self.recording = !was;
                if was {
                    HotkeyAction::Stop
                } else {
                    HotkeyAction::Start
                }
            },
            HotkeyMode::PushToTalk => HotkeyAction::Start,
        }
    }

    /// The key went up.
    pub fn release(&mut self) -> (r: HotkeyAction)
        ensures
            (*final(self), r) == released(*old(self)),
    {
        match self.mode {
            HotkeyMode::Toggle => HotkeyAction::Ignore,
            HotkeyMode::PushToTalk => HotkeyAction::Stop,
        }
    }

    /// An input device reported an event.
    pub fn evdev_event(
        &mut self,
        key: HotkeyKey,
        event_type: u16,
        code: u16,
        value: i32,
    ) -> (r: HotkeyAction)
        ensures
            (*final(self), r) == device_event(*old(self), key, event_type, code, value),
    {
        let ours: bool = match event_key(event_type, code, value) {
            Some(about) => about == key.code(),
            None => false,
        };
        if !ours {
            return HotkeyAction::Ignore;
        }
        if value == 1 {
            self.press()
        } else if value == 0 {
            self.release()
        } else {
            HotkeyAction::Ignore
        }
    }

    /// The portal sent a signal. Nothing comes back when the listener is at its end.
    pub fn portal_event(&mut self, event: &PortalEvent) -> (r: Option<HotkeyAction>)
        ensures
            r is None <==> ends_portal(*event),
            r is None ==> *final(self) == *old(self),
            r matches Some(action) ==> (*final(self), action) == portal_signal(*old(self), *event),
    {
        match event {
            PortalEvent::Shutdown => None,
            PortalEvent::Activated(id) => match id {
                None => None,
                Some(name) => if same(name.as_str(), SHORTCUT_ID) {
                    Some(self.press())
                } else {
                    Some(HotkeyAction::Ignore)
                },
            },
            PortalEvent::Deactivated(id) => match id {
                None => None,
                Some(name) => if same(name.as_str(), SHORTCUT_ID) {
                    Some(self.release())
                } else {
                    Some(HotkeyAction::Ignore)
                },
            },
        }
    }
}

/// A way to listen for the key.
#[derive(Clone, Copy, Debug, PartialEq, Eq, Structural)]
pub enum Listener {
    /// The input devices.
    Evdev,
    /// The desktop's portal.
    Portal,
}

/// The listener that a backend starts with.
pub fn first_listener(backend: HotkeyBackend) -> (r: Listener)
    ensures
        r == (if backend == HotkeyBackend::Portal {
            Listener::Portal
        } else {
            Listener::Evdev
        }),
{
    match backend {
        HotkeyBackend::Portal => Listener::Portal,
        _ => Listener::Evdev,
    }
}

/// The listener to try after `tried` has ended, where there is one: with the
/// automatic backend the portal follows on input devices that cannot be used,
/// unless the app is shutting down.
pub fn next_listener(
    backend: HotkeyBackend,
    tried: Listener,
    failed: bool,
    running: bool,
) -> (r: Option<Listener>)
    ensures
        r == (if backend == HotkeyBackend::Auto && tried == Listener::Evdev && failed && running {
            Some(Listener::Portal)
        } else {
            None
        }),
{
    match backend {
        HotkeyBackend::Auto => match tried {
            Listener::Evdev => if failed && running {
                Some(Listener::Portal)
            } else {
                None
            },
            Listener::Portal => None,
        },
        _ => None,
    }
}

/// The mode and the backend that the settings name, or else the defaults.
pub fn hotkey_settings(cfg: &Config) -> (r: (HotkeyMode, HotkeyBackend))
    ensures
        r.0 == (match named_mode(cfg.hotkey_mode@) {
            Some(mode) => mode,
            None => HotkeyMode::Toggle,
        }),
        r.1 == (match named_backend(cfg.hotkey_backend@) {
            Some(backend) => backend,
            None => HotkeyBackend::Auto,
        }),
{
    let mode = match HotkeyMode::from_str(cfg.hotkey_mode.as_str()) {
        Ok(mode) => mode,
        Err(_) => HotkeyMode::default(),
    };
    let backend = match HotkeyBackend::from_str(cfg.hotkey_backend.as_str()) {
        Ok(backend) => backend,
        Err(_) => HotkeyBackend::default(),
    };
    (mode, backend)
}

/// Whether the hotkey has to be bound anew: its key, its mode or its backend has
/// changed in the settings.
pub fn hotkey_changed(current: &Config, latest: &Config) -> (r: bool)
    ensures
        r == (latest.hotkey_key@ != current.hotkey_key@ || latest.hotkey_mode@
            != current.hotkey_mode@ || latest.hotkey_backend@ != current.hotkey_backend@),
{
    !(latest.hotkey_key == current.hotkey_key) || !(latest.hotkey_mode == current.hotkey_mode)
        || !(latest.hotkey_backend == current.hotkey_backend)
}

/// What `n` presses in a row leave behind.
pub open spec fn after_presses(state: HotkeyState, n: nat) -> HotkeyState
    decreases n,
{
    if n == 0 {
        state
    } else {
        pressed(after_presses(state, (n - 1) as nat)).0
    }
}

/// In toggle mode, starting idle, the presses alternate: every other one, the first
/// to begin with, starts a recording, and the one after it stops it.
pub proof fn toggle_alternates(n: nat)
    ensures
        ({
            let idle = HotkeyState { mode: HotkeyMode::Toggle, recording: false };
            let before = after_presses(idle, n);
            &&& before == (HotkeyState { mode: HotkeyMode::Toggle, recording: n % 2 == 1 })
            &&& pressed(before).1 == if n % 2 == 0 {
                HotkeyAction::Start
            } else {
                HotkeyAction::Stop
            }
        }),
    decreases n,
{
    if n > 0 {
        toggle_alternates((n - 1) as nat);
    }
}

/// In push-to-talk mode the recording lasts while the key is held: a press starts
/// it and a release stops it, whatever came before.
pub proof fn push_to_talk_follows_the_key(state: HotkeyState)
    requires
        state.mode == HotkeyMode::PushToTalk,
    ensures
        pressed(state) == (state, HotkeyAction::Start),
        released(state) == (state, HotkeyAction::Stop),
{
}

/// In toggle mode, once a press has started a recording, the next press has the
/// engine work on it: whatever the engine did before, the first press opens the
/// microphone, and with the microphone open the second one ends the recording.
pub proof fn two_presses_make_a_clip(state: HotkeyState, recording: bool)
    requires
        state.mode == HotkeyMode::Toggle,
        !state.recording,
    ensures
        ({
            let (between, first) = pressed(state);
            let (after, second) = pressed(between);
            &&& step_for(recording, action_command(first)->0).1 == EngineStep::OpenMicrophone
            &&& step_for(true, action_command(second)->0) == (false, EngineStep::ProcessRecording)
            &&& after == state
        }),
{
}

/// No event changes the mode.
pub proof fn mode_is_kept(
    state: HotkeyState,
    key: HotkeyKey,
    event_type: u16,
    code: u16,
    value: i32,
    signal: PortalEvent,
)
    ensures
        device_event(state, key, event_type, code, value).0.mode == state.mode,
        portal_signal(state, signal).0.mode == state.mode,
{
}

/// Both listeners take the key alike: a press and a release reported by an input
/// device do what the same press and release do when the portal reports them.
pub proof fn listeners_agree(state: HotkeyState, key: HotkeyKey, id: String)
    requires
        id@ == SHORTCUT_ID@,
    ensures
        device_event(state, key, 1, key_code(key), 1) == portal_signal(
            state,
            PortalEvent::Activated(Some(id)),
        ),
        device_event(state, key, 1, key_code(key), 0) == portal_signal(
            state,
            PortalEvent::Deactivated(Some(id)),
        ),
{
}

/// Repeats of a held key, other keys, and events that are about no key change
/// nothing and start nothing.
pub proof fn other_events_are_ignored(
    state: HotkeyState,
    key: HotkeyKey,
    event_type: u16,
    code: u16,
    value: i32,
)
    requires
        event_type != 1 || code != key_code(key) || (value != 0 && value != 1),
    ensures
        device_event(state, key, event_type, code, value) == (state, HotkeyAction::Ignore),
{
}

/// No two hotkeys share a code.
pub proof fn key_codes_are_distinct(a: HotkeyKey, b: HotkeyKey)
    requires
        key_code(a) == key_code(b),
    ensures
        a == b,
{
}

/// The names of modes and backends are read alike in upper and in lower case.
pub proof fn settings_ignore_case(a: Seq<char>, b: Seq<char>)
    requires
        ascii_lowered(a) == ascii_lowered(b),
    ensures
        named_mode(a) == named_mode(b),
        named_backend(a) == named_backend(b),
{
    lowering_commutes_with_trimming(a);
    lowering_commutes_with_trimming(b);
}

/// Between the words of a mode's name a hyphen, a space and an underscore mean the
/// same.
pub proof fn mode_words_may_be_parted_alike(a: Seq<char>, b: Seq<char>)
    requires
        underscored(trimmed(a)) == underscored(trimmed(b)),
    ensures
        named_mode(a) == named_mode(b),
{
    let (s, t) = (trimmed(a), trimmed(b));
    assert(underscored(ascii_lowered(s)) == ascii_lowered(underscored(s)));
    assert(underscored(ascii_lowered(t)) == ascii_lowered(underscored(t)));
}

/// Key names are read alike in upper and in lower case.
pub proof fn key_names_ignore_case(a: Seq<char>, b: Seq<char>)
    requires
        ascii_uppered(a) == ascii_uppered(b),
    ensures
        named_key(a) == named_key(b),
{
    uppering_commutes_with_trimming(a);
    uppering_commutes_with_trimming(b);
}

/// Trimming the end of a text leaves alone what stands before a part of it that
/// starts with no white space.
proof fn trimming_the_end_keeps_the_front(front: Seq<char>, s: Seq<char>)
    requires
        s.len() > 0,
        !is_space(s.first()),
    ensures
        trimmed_end(front + s) == front + trimmed_end(s),
    decreases s.len(),
{
    assert((front + s).last() == s.last());
    if is_space(s.last()) {
        trimming_the_end_keeps_the_front(front, s.drop_last());
        assert((front + s).drop_last() == front + s.drop_last());
    }
}

/// A key name means the same with `KEY_` in front.
pub proof fn key_prefix_is_optional(name: Seq<char>)
    requires
        name.len() > 0 ==> !is_space(name.first()),
        !"KEY_"@.is_prefix_of(ascii_uppered(trimmed(name))),
    ensures
        named_key("KEY_"@ + name) == named_key(name),
        bare_key("KEY_"@ + name) == name,
{
    reveal_strlit("KEY_");
    let long = "KEY_"@ + name;
    let short = trimmed(name);
    if name.len() == 0 {
        assert(long == "KEY_"@);
    } else {
        trimming_the_end_keeps_the_front("KEY_"@, name);
    }
    assert(trimmed(long) == "KEY_"@ + short);
    let up = ascii_uppered("KEY_"@ + short);
    assert(up == "KEY_"@ + ascii_uppered(short));
    assert(up.subrange(0, 4) == "KEY_"@);
    assert(up.skip(4) == ascii_uppered(short));
    assert(long.subrange(0, 4) == "KEY_"@);
    assert(long.skip(4) == name);
}

/// The portal is given the Qt codes of the function keys in a row, from F1 up.
pub proof fn function_keys_have_qt_codes(n: nat)
    requires
        1 <= n <= 24,
    ensures
        qt_code("F"@ + decimal(n)) == Some((0x0100_002F + n) as i32),
        qt_code("KEY_F"@ + decimal(n)) == Some((0x0100_002F + n) as i32),
{
    reveal_strlit("F");
    reveal_strlit("KEY_");
    reveal_strlit("KEY_F");
    decimal_reads_back(n);
    let short = "F"@ + decimal(n);
    let long = "KEY_F"@ + decimal(n);
    assert(!"KEY_"@.is_prefix_of(short)) by {
        if "KEY_"@.is_prefix_of(short) {
            assert(short.subrange(0, 4)[0] == 'K');
        }
    }
    assert(short.subrange(0, 1) == "F"@);
    assert(short.skip(1) == decimal(n));
    assert(long.subrange(0, 4) == "KEY_"@);
    assert(long.skip(4) == short);
}

/// The function key of this number.
pub open spec fn function_key(n: nat) -> HotkeyKey {
    if n == 1 {
        HotkeyKey::F1
    } else if n == 2 {
        HotkeyKey::F2
    } else if n == 3 {
        HotkeyKey::F3
    } else if n == 4 {
        HotkeyKey::F4
    } else if n == 5 {
        HotkeyKey::F5
    } else if n == 6 {
        HotkeyKey::F6
    } else if n == 7 {
        HotkeyKey::F7
    } else if n == 8 {
        HotkeyKey::F8
    } else if n == 9 {
        HotkeyKey::F9
    } else if n == 10 {
        HotkeyKey::F10
    } else if n == 11 {
        HotkeyKey::F11
    } else {
        HotkeyKey::F12
    }
}

/// The function keys that the settings window offers are known to both listeners by
/// the same name.
pub proof fn function_keys_suit_both_listeners(n: nat)
    requires
        1 <= n <= 12,
    ensures
        named_key("F"@ + decimal(n)) == Some(function_key(n)),
        qt_code("F"@ + decimal(n)) is Some,
{
    function_keys_have_qt_codes(n);
    reveal_strlit("F");
    reveal_strlit("KEY_");
    reveal_strlit("F1");
    reveal_strlit("F2");
    reveal_strlit("F3");
    reveal_strlit("F4");
    reveal_strlit("F5");
    reveal_strlit("F6");
    reveal_strlit("F7");
    reveal_strlit("F8");
    reveal_strlit("F9");
    reveal_strlit("F10");
    reveal_strlit("F11");
    reveal_strlit("F12");
    reveal_with_fuel(decimal, 2);
    let name = "F"@ + decimal(n);
    if n == 1 {
        assert("F"@ + decimal(1) =~= "F1"@);
    }
    if n == 2 {
        assert("F"@ + decimal(2) =~= "F2"@);
    }
    if n == 3 {
        assert("F"@ + decimal(3) =~= "F3"@);
    }
    if n == 4 {
        assert("F"@ + decimal(4) =~= "F4"@);
    }
    if n == 5 {
        assert("F"@ + decimal(5) =~= "F5"@);
    }
    if n == 6 {
        assert("F"@ + decimal(6) =~= "F6"@);
    }
    if n == 7 {
        assert("F"@ + decimal(7) =~= "F7"@);
    }
    if n == 8 {
        assert("F"@ + decimal(8) =~= "F8"@);
    }
    if n == 9 {
        assert("F"@ + decimal(9) =~= "F9"@);
    }
    if n == 10 {
        assert("F"@ + decimal(10) =~= "F10"@);
    }
    if n == 11 {
        assert("F"@ + decimal(11) =~= "F11"@);
    }
    if n == 12 {
        assert("F"@ + decimal(12) =~= "F12"@);
    }
    assert(trimmed(name) == name);
    assert(ascii_uppered(name) == name);
    assert(!"KEY_"@.is_prefix_of(name)) by {
        if "KEY_"@.is_prefix_of(name) {
            assert(name.subrange(0, 4)[0] == 'K');
        }
    }
}

/// White space around the name of a mode, a backend or a key does not matter.
pub proof fn space_around_names_is_dropped(left: char, s: Seq<char>, right: char)
    requires
        is_space(left),
        is_space(right),
    ensures
        named_mode(seq![left] + s + seq![right]) == named_mode(s),
        named_backend(seq![left] + s + seq![right]) == named_backend(s),
        named_key(seq![left] + s + seq![right]) == named_key(s),
{
    space_around_is_trimmed(left, s, right);
}

/// Modes have these names and no others.
pub proof fn modes_have_four_names(s: Seq<char>)
    ensures
        ({
            let plain = underscored(ascii_lowered(trimmed(s)));
            &&& named_mode(s) == Some(HotkeyMode::Toggle) <==> plain == "toggle"@
            &&& named_mode(s) == Some(HotkeyMode::PushToTalk) <==> plain == "push_to_talk"@
                || plain == "ptt"@ || plain == "hold"@
        }),
{
    reveal_strlit("toggle");
    reveal_strlit("push_to_talk");
    reveal_strlit("ptt");
    reveal_strlit("hold");
    assert("toggle"@.len() == 6 && "push_to_talk"@.len() == 12 && "ptt"@.len() == 3
        && "hold"@.len() == 4);
}

/// Only hyphens and blanks are turned into underscores, each where it stands.
pub proof fn only_hyphens_and_blanks_are_replaced(s: Seq<char>, i: int)
    requires
        0 <= i < s.len(),
    ensures
        underscored(s).len() == s.len(),
        s[i] == '-' || s[i] == ' ' ==> underscored(s)[i] == '_',
        s[i] != '-' && s[i] != ' ' ==> underscored(s)[i] == s[i],
{
}

/// Backends have these names and no others.
pub proof fn backends_have_seven_names(s: Seq<char>)
    ensures
        ({
            let plain = ascii_lowered(trimmed(s));
            &&& named_backend(s) == Some(HotkeyBackend::Auto) <==> plain == "auto"@ || plain.len()
                == 0
            &&& named_backend(s) == Some(HotkeyBackend::Portal) <==> plain == "portal"@ || plain
                == "xdg"@ || plain == "globalshortcuts"@
            &&& named_backend(s) == Some(HotkeyBackend::Evdev) <==> plain == "evdev"@ || plain
                == "input"@
        }),
{
    reveal_strlit("");
    reveal_strlit("auto");
    reveal_strlit("portal");
    reveal_strlit("xdg");
    reveal_strlit("globalshortcuts");
    reveal_strlit("evdev");
    reveal_strlit("input");
    assert("auto"@.len() == 4 && "portal"@.len() == 6 && "xdg"@.len() == 3
        && "globalshortcuts"@.len() == 15 && "evdev"@.len() == 5 && "input"@.len() == 5);
    let plain = ascii_lowered(trimmed(s));
    if plain.len() == 0 {
        assert(plain =~= ""@);
    }
}

/// Only the plain name decides which key is meant.
pub proof fn plain_names_decide(a: Seq<char>, b: Seq<char>)
    requires
        bare_key(ascii_uppered(trimmed(a))) == bare_key(ascii_uppered(trimmed(b))),
    ensures
        named_key(a) == named_key(b),
{
}

/// Whether a plain name is one of those that stand for a key.
pub open spec fn is_name_of(key: HotkeyKey, plain: Seq<char>) -> bool {
    match key {
        HotkeyKey::F1 => plain == "F1"@,
        HotkeyKey::F2 => plain == "F2"@,
        HotkeyKey::F3 => plain == "F3"@,
        HotkeyKey::F4 => plain == "F4"@,
        HotkeyKey::F5 => plain == "F5"@,
        HotkeyKey::F6 => plain == "F6"@,
        HotkeyKey::F7 => plain == "F7"@,
        HotkeyKey::F8 => plain == "F8"@,
        HotkeyKey::F9 => plain == "F9"@,
        HotkeyKey::F10 => plain == "F10"@,
        HotkeyKey::F11 => plain == "F11"@,
        HotkeyKey::F12 => plain == "F12"@,
        HotkeyKey::RightCtrl => plain == "RIGHTCTRL"@ || plain == "RCTRL"@,
        HotkeyKey::LeftCtrl => plain == "LEFTCTRL"@ || plain == "LCTRL"@,
        HotkeyKey::RightAlt => plain == "RIGHTALT"@ || plain == "RALT"@ || plain == "ALTGR"@,
        HotkeyKey::LeftAlt => plain == "LEFTALT"@ || plain == "LALT"@,
        HotkeyKey::RightShift => plain == "RIGHTSHIFT"@ || plain == "RSHIFT"@,
        HotkeyKey::LeftShift => plain == "LEFTSHIFT"@ || plain == "LSHIFT"@,
        HotkeyKey::RightMeta => plain == "RIGHTMETA"@ || plain == "RMETA"@ || plain == "RSUPER"@
            || plain == "RWIN"@,
        HotkeyKey::LeftMeta => plain == "LEFTMETA"@ || plain == "LMETA"@ || plain == "LSUPER"@
            || plain == "LWIN"@ || plain == "SUPER"@,
        HotkeyKey::CapsLock => plain == "CAPSLOCK"@ || plain == "CAPS"@,
        HotkeyKey::ScrollLock => plain == "SCROLLLOCK"@,
        HotkeyKey::Pause => plain == "PAUSE"@,
        HotkeyKey::Insert => plain == "INSERT"@ || plain == "INS"@,
        HotkeyKey::Compose => plain == "MENU"@ || plain == "COMPOSE"@,
    }
}

/// A key is meant by its own names only, and each of them means some key.
pub proof fn keys_are_meant_by_their_names(s: Seq<char>, key: HotkeyKey)
    ensures
        named_key(s) == Some(key) ==> is_name_of(key, bare_key(ascii_uppered(trimmed(s)))),
        is_name_of(key, bare_key(ascii_uppered(trimmed(s)))) ==> named_key(s) is Some,
{
}

/// `KEY_` in front of a name comes off, whatever the name.
pub proof fn key_prefix_comes_off(name: Seq<char>)
    ensures
        bare_key("KEY_"@ + name) == name,
{
    prefixes_come_off("KEY_"@, name);
}

/// A name without `KEY_` in front is kept as it is.
pub proof fn bare_names_are_kept(s: Seq<char>)
    requires
        !"KEY_"@.is_prefix_of(s),
    ensures
        bare_key(s) == s,
{
}

/// However its number is written, a function key from 1 to 24 has its Qt code, and
/// one with another number has none.
pub proof fn numbers_name_function_keys(number: Seq<char>, n: i32)
    requires
        i32_value(number) == Some(n),
    ensures
        1 <= n <= 24 ==> qt_code("F"@ + number) == Some((0x0100_002F + n) as i32),
        !(1 <= n <= 24) ==> qt_code("F"@ + number) is None,
{
    reveal_strlit("F");
    reveal_strlit("KEY_");
    let name = "F"@ + number;
    assert(!"KEY_"@.is_prefix_of(name)) by {
        if "KEY_"@.is_prefix_of(name) {
            assert(name.subrange(0, 4)[0] == 'K');
        }
    }
    prefixes_come_off("F"@, number);
}

/// Only the function keys have Qt codes: a name with a code is an F and a number
/// from 1 to 24, and the code follows from that number.
pub proof fn only_function_keys_have_qt_codes(s: Seq<char>)
    ensures
        qt_code(s) matches Some(code) ==> {
            &&& bare_key(s).len() > 1
            &&& bare_key(s).first() == 'F'
            &&& i32_value(bare_key(s).drop_first()) == Some((code - 0x0100_002F) as i32)
            &&& 0x0100_0030 <= code <= 0x0100_0047
        },
{
    reveal_strlit("F");
    let name = bare_key(s);
    if "F"@.is_prefix_of(name) {
        assert(name.subrange(0, 1)[0] == 'F');
        assert(name.skip(1) =~= name.drop_first());
    }
}

/// In toggle mode a release does nothing.
pub proof fn toggle_ignores_releases(state: HotkeyState)
    requires
        state.mode == HotkeyMode::Toggle,
    ensures
        released(state) == (state, HotkeyAction::Ignore),
{
}

/// What a press does follows from the mode and from whether there is a recording.
pub proof fn presses_start_and_stop(state: HotkeyState)
    ensures
        pressed(state).1 == HotkeyAction::Stop <==> state.mode == HotkeyMode::Toggle
            && state.recording,
        pressed(state).1 == HotkeyAction::Start <==> state.mode == HotkeyMode::PushToTalk
            || !state.recording,
        state.mode == HotkeyMode::Toggle ==> pressed(state).0.recording != state.recording,
        state.mode == HotkeyMode::PushToTalk ==> pressed(state).0.recording == state.recording,
{
}

/// The key is followed on every device: its events with the value 1 are presses and
/// those with the value 0 releases.
pub proof fn devices_report_the_key(state: HotkeyState, key: HotkeyKey)
    ensures
        device_event(state, key, 1, key_code(key), 1) == pressed(state),
        device_event(state, key, 1, key_code(key), 0) == released(state),
{
}

/// The portal's signals of the dictation shortcut are presses and releases; those of
/// any other shortcut change nothing.
pub proof fn signals_report_the_shortcut(state: HotkeyState, id: String)
    ensures
        id@ == SHORTCUT_ID@ ==> portal_signal(state, PortalEvent::Activated(Some(id))) == pressed(
            state,
        ),
        id@ == SHORTCUT_ID@ ==> portal_signal(state, PortalEvent::Deactivated(Some(id)))
            == released(state),
        id@ != SHORTCUT_ID@ ==> portal_signal(state, PortalEvent::Activated(Some(id))) == (
            state,
            HotkeyAction::Ignore,
        ),
        id@ != SHORTCUT_ID@ ==> portal_signal(state, PortalEvent::Deactivated(Some(id))) == (
            state,
            HotkeyAction::Ignore,
        ),
{
}

/// The portal listener goes on for as long as signals come: it ends when it is told
/// to, or when either kind of signal has ended.
pub proof fn listener_ends_with_its_signals(id: String)
    ensures
        ends_portal(PortalEvent::Shutdown),
        ends_portal(PortalEvent::Activated(None)),
        ends_portal(PortalEvent::Deactivated(None)),
        !ends_portal(PortalEvent::Activated(Some(id))),
        !ends_portal(PortalEvent::Deactivated(Some(id))),
{
}

/// An action sends the command of its name, and ignoring sends none.
pub proof fn actions_send_their_commands(action: HotkeyAction)
    ensures
        action_command(action) == Some(Command::Start) <==> action == HotkeyAction::Start,
        action_command(action) == Some(Command::Stop) <==> action == HotkeyAction::Stop,
        action_command(action) is None <==> action == HotkeyAction::Ignore,
{
}

} // verus!
