//! Host input as the bridge receives it, toolkit input as it hands it on,
//! and the pieces of the translation between them that hold no state.
use vstd::prelude::*;
use crate::keys::{Key, KeyCode, LogicalKey};

verus! {

/// The toolkit's modifier set.
#[derive(PartialEq, Eq, Structural, Clone, Copy, Debug)]
pub struct Modifiers {
    pub alt: bool,
    pub ctrl: bool,
    pub shift: bool,
    /// The Command key of a Mac keyboard.
    pub mac_cmd: bool,
    /// The platform's command key: Command on a Mac, Control elsewhere.
    pub command: bool,
}

impl Modifiers {
    /// No modifier held.
    pub open spec fn spec_none() -> Modifiers {
        Modifiers { alt: false, ctrl: false, shift: false, mac_cmd: false, command: false }
    }

    /// No modifier held.
    pub fn none() -> (r: Modifiers)
        ensures
            r == Modifiers::spec_none(),
    {
        Modifiers { alt: false, ctrl: false, shift: false, mac_cmd: false, command: false }
    }
}

/// The modifier flags the host reports.
#[derive(PartialEq, Eq, Structural, Clone, Copy, Debug)]
pub struct NativeModifiers {
    pub alt: bool,
    pub control: bool,
    pub shift: bool,
    /// The "super" key: Command on a Mac, the logo key elsewhere.
    pub super_key: bool,
}

/// The canonical modifier set for the host's flags. On a Mac
/// (`command_is_super`) the super key is both the Mac command key and the
/// platform command; elsewhere the platform command is Control.
pub open spec fn canonical_modifiers(m: NativeModifiers, command_is_super: bool) -> Modifiers {
    Modifiers {
        alt: m.alt,
        ctrl: m.control,
        shift: m.shift,
        mac_cmd: command_is_super && m.super_key,
        command: if command_is_super { m.super_key } else { m.control },
    }
}

/// Computes the canonical modifier set for the host's flags.
pub fn to_canonical_modifiers(m: &NativeModifiers, command_is_super: bool) -> (r: Modifiers)
    ensures
        r == canonical_modifiers(*m, command_is_super),
{
    Modifiers {
        alt: m.alt,
        ctrl: m.control,
        shift: m.shift,
        mac_cmd: command_is_super && m.super_key,
        command: if command_is_super { m.super_key } else { m.control },
    }
}

/// A mouse button as the host names it.
#[derive(PartialEq, Eq, Structural, Clone, Copy, Debug)]
pub enum MouseButton {
    Left,
    Right,
    Middle,
    Other(u16),
}

/// A pointer button the toolkit knows.
#[derive(PartialEq, Eq, Structural, Clone, Copy, Debug)]
pub enum PointerButton {
    Primary,
    Secondary,
    Middle,
}

/// The toolkit button for a host button; only the three main buttons have one.
pub open spec fn pointer_button(b: MouseButton) -> Option<PointerButton> {
    match b {
        MouseButton::Left => Some(PointerButton::Primary),
        MouseButton::Right => Some(PointerButton::Secondary),
        MouseButton::Middle => Some(PointerButton::Middle),
        MouseButton::Other(_) => None,
    }
}

/// Maps a host button to the toolkit button.
pub fn to_pointer_button(b: MouseButton) -> (r: Option<PointerButton>)
    ensures
        r == pointer_button(b),
{
    match b {
        MouseButton::Left => Some(PointerButton::Primary),
        MouseButton::Right => Some(PointerButton::Secondary),
        MouseButton::Middle => Some(PointerButton::Middle),
        MouseButton::Other(_) => None,
    }
}

/// A key press or release as the host reports it.
#[derive(PartialEq, Eq, Debug)]
pub struct KeyEvent {
    pub pressed: bool,
    pub repeat: bool,
    /// The text the key produced, if any.
    pub text: Option<String>,
    pub logical_key: LogicalKey,
    pub physical_key: KeyCode,
}

/// An input event for one window, as the host reports it. Positions and
/// wheel deltas are of type `P` and already in the toolkit's logical
/// points.
#[derive(PartialEq, Debug)]
pub enum WindowEvent<P> {
    CursorMoved(P),
    ModifiersChanged(NativeModifiers),
    MouseInput { pressed: bool, button: MouseButton },
    MouseWheel(P),
    KeyboardInput(KeyEvent),
    ReceivedImeText(String),
    Resized { width: u32, height: u32 },
    Moved,
    Other,
}

/// An input event for the toolkit.
#[derive(PartialEq, Debug)]
pub enum ToolkitEvent<P> {
    PointerMoved(P),
    PointerButton { pos: P, button: PointerButton, pressed: bool, modifiers: Modifiers },
    MouseWheel { delta: P, modifiers: Modifiers },
    Text(String),
    Key { key: Key, pressed: bool, repeat: bool, modifiers: Modifiers },
}

/// The mathematical value of a toolkit event: text as a sequence of
/// characters.
pub enum EventView<P> {
    PointerMoved(P),
    PointerButton { pos: P, button: PointerButton, pressed: bool, modifiers: Modifiers },
    MouseWheel { delta: P, modifiers: Modifiers },
    Text(Seq<char>),
    Key { key: Key, pressed: bool, repeat: bool, modifiers: Modifiers },
}

impl<P> View for ToolkitEvent<P> {
    type V = EventView<P>;

    open spec fn view(&self) -> EventView<P> {
        match *self {
            ToolkitEvent::PointerMoved(p) => EventView::PointerMoved(p),
            ToolkitEvent::PointerButton { pos, button, pressed, modifiers } =>
                EventView::PointerButton { pos, button, pressed, modifiers },
            ToolkitEvent::MouseWheel { delta, modifiers } => EventView::MouseWheel { delta, modifiers },
            ToolkitEvent::Text(s) => EventView::Text(s@),
            ToolkitEvent::Key { key, pressed, repeat, modifiers } =>
                EventView::Key { key, pressed, repeat, modifiers },
        }
    }
}

/// The values of a sequence of toolkit events.
pub open spec fn events_view<P>(s: Seq<ToolkitEvent<P>>) -> Seq<EventView<P>> {
    s.map_values(|e: ToolkitEvent<P>| e@)
}

/// A control character: Unicode general category Cc.
pub open spec fn is_control(c: char) -> bool {
    ('\0' <= c && c <= '\x1f') || ('\x7f' <= c && c <= '\u{9f}')
}

/// Whether text input keeps a character: anything but a control
/// character, save tab, newline and carriage return.
pub open spec fn kept_in_text(c: char) -> bool {
    !is_control(c) || c == '\t' || c == '\n' || c == '\r'
}

/// Text input with the dropped control characters taken out, in order.
pub open spec fn filtered_text(s: Seq<char>) -> Seq<char> {
    s.filter(|c: char| kept_in_text(c))
}

/// Tests whether a character is a control character.
pub fn char_is_control(c: char) -> (r: bool)
    ensures
        r == is_control(c),
{
    ('\0' <= c && c <= '\x1f') || ('\x7f' <= c && c <= '\u{9f}')
}

/// Removes from text input every control character but tab, newline and
/// carriage return, keeping the order of the rest.
pub fn filter_text(text: &str) -> (r: String)
    ensures
        r@ == filtered_text(text@),
{
    let n = text.unicode_len();
    let mut out = String::new();
    let mut i: usize = 0;
    while i < n
        invariant
            n == text@.len(),
            i <= n,
            out@ == filtered_text(text@.subrange(0, i as int)),
        decreases n - i,
    {
        let c = text.get_char(i);
        proof {
            let pre = text@.subrange(0, i as int);
            let next = text@.subrange(0, i as int + 1);
            assert(next.drop_last() =~= pre);
            assert(next.last() == c);
            reveal(Seq::filter);
        }
        if !char_is_control(c) || c == '\t' || c == '\n' || c == '\r' {
            out.append(text.substring_char(i, i + 1));
        }
        i = i + 1;
    }
    assert(text@.subrange(0, n as int) =~= text@);
    out
}

/// Filtered text input holds no control character but tab, newline and
/// carriage return, and every character of the input that is kept appears
/// in it.
pub proof fn lemma_filtered_text_keeps_printable(s: Seq<char>)
    ensures
        forall|i: int| 0 <= i < filtered_text(s).len() ==> kept_in_text(#[trigger] filtered_text(s)[i]),
        forall|i: int| 0 <= i < s.len() && kept_in_text(s[i]) ==> filtered_text(s).contains(#[trigger] s[i]),
        filtered_text(s).len() <= s.len(),
{
    assert forall|i: int| 0 <= i < filtered_text(s).len() implies kept_in_text(#[trigger] filtered_text(s)[i]) by {
        s.lemma_filter_pred(|c: char| kept_in_text(c), i);
    }
    assert forall|i: int| 0 <= i < s.len() && kept_in_text(s[i]) implies filtered_text(s).contains(#[trigger] s[i]) by {
        s.lemma_filter_contains(|c: char| kept_in_text(c), i);
    }
    s.lemma_filter_len(|c: char| kept_in_text(c));
}

} // verus!
