//! The state of one window with a GUI overlay: its size, the toolkit input
//! gathered since the last frame, and the translation of host input into
//! that buffer.
use vstd::prelude::*;
use crate::input::{
    canonical_modifiers, events_view, filter_text, filtered_text, pointer_button,
    to_canonical_modifiers, to_pointer_button, EventView, KeyEvent, Modifiers, MouseButton, ToolkitEvent,
    WindowEvent,
};
use crate::keys::{
    logical_key, physical_key, translate_logical_key, translate_physical_key, Key,
};

verus! {

/// A size in physical pixels.
#[derive(PartialEq, Eq, Structural, Clone, Copy, Debug)]
pub struct Size {
    pub width: u32,
    pub height: u32,
}

/// Toolkit input gathered for the next frame.
#[derive(Debug)]
pub struct RawInput<P> {
    pub events: Vec<ToolkitEvent<P>>,
    /// The modifier set last forwarded to the toolkit during this batch.
    pub modifiers: Modifiers,
}

/// What a frame receives: the batch of input gathered since the previous
/// frame, the window's size and the largest texture side the GPU backend
/// takes by default.
#[derive(Debug)]
pub struct FrameInput<P> {
    pub events: Vec<ToolkitEvent<P>>,
    pub modifiers: Modifiers,
    pub size: Size,
    pub max_texture_side: usize,
}

/// The mathematical state of a window's input translation.
pub struct InputView<P> {
    /// Toolkit events gathered since the last frame, in arrival order.
    pub events: Seq<EventView<P>>,
    pub batch_modifiers: Modifiers,
    /// The last pointer position seen, if any.
    pub pointer_pos: Option<P>,
    /// The modifier set currently held.
    pub modifiers: Modifiers,
    /// The position used for a button event before any pointer move.
    pub origin: P,
    pub command_is_super: bool,
}

/// The text event a key event produces: its text, filtered, when the key is
/// pressed and something is left.
pub open spec fn key_text_events<P>(k: KeyEvent) -> Seq<EventView<P>> {
    if k.pressed && k.text is Some && filtered_text(k.text->0@).len() > 0 {
        seq![EventView::Text(filtered_text(k.text->0@))]
    } else {
        seq![]
    }
}

/// The key a key event names: its logical key if that names one, else its
/// physical key.
pub open spec fn event_key(k: KeyEvent) -> Option<Key> {
    match logical_key(k.logical_key) {
        Some(key) => Some(key),
        None => physical_key(k.physical_key),
    }
}

/// The key event a host key event produces, if its key names one.
pub open spec fn key_event_of<P>(k: KeyEvent, modifiers: Modifiers) -> Seq<EventView<P>> {
    match event_key(k) {
        Some(key) => seq![EventView::Key { key, pressed: k.pressed, repeat: k.repeat, modifiers }],
        None => seq![],
    }
}

/// The toolkit events a key event produces: its text, then its key.
pub open spec fn key_events<P>(k: KeyEvent, modifiers: Modifiers) -> Seq<EventView<P>> {
    key_text_events(k) + key_event_of(k, modifiers)
}

/// The position a button event carries: the last pointer position, or the
/// origin if the pointer has not moved yet.
pub open spec fn button_pos<P>(v: InputView<P>) -> P {
    match v.pointer_pos {
        Some(p) => p,
        None => v.origin,
    }
}

/// The input state after one host event. Resizes and moves leave it as it
/// is: the window itself handles those.
pub open spec fn next_input<P>(v: InputView<P>, e: WindowEvent<P>) -> InputView<P> {
    match e {
        WindowEvent::CursorMoved(p) => InputView {
            events: v.events.push(EventView::PointerMoved(p)),
            pointer_pos: Some(p),
            ..v
        },
        WindowEvent::ModifiersChanged(m) => InputView {
            modifiers: canonical_modifiers(m, v.command_is_super),
            batch_modifiers: canonical_modifiers(m, v.command_is_super),
            ..v
        },
        WindowEvent::MouseInput { pressed, button } => match pointer_button(button) {
            Some(b) => InputView {
                events: v.events.push(
                    EventView::PointerButton { pos: button_pos(v), button: b, pressed, modifiers: v.modifiers },
                ),
                ..v
            },
            None => v,
        },
        WindowEvent::MouseWheel(d) => InputView {
            events: v.events.push(EventView::MouseWheel { delta: d, modifiers: v.modifiers }),
            ..v
        },
        WindowEvent::KeyboardInput(k) => InputView {
            events: v.events + key_events(k, v.modifiers),
            ..v
        },
        WindowEvent::ReceivedImeText(s) => if filtered_text(s@).len() > 0 {
            InputView { events: v.events.push(EventView::Text(filtered_text(s@))), ..v }
        } else {
            v
        },
        _ => v,
    }
}

/// Whether a host event means something to the toolkit.
pub open spec fn consumes<P>(v: InputView<P>, e: WindowEvent<P>) -> bool {
    match e {
        WindowEvent::CursorMoved(_) => true,
        WindowEvent::ModifiersChanged(_) => true,
        WindowEvent::MouseInput { button, .. } => pointer_button(button) is Some,
        WindowEvent::MouseWheel(_) => true,
        WindowEvent::KeyboardInput(k) => key_text_events::<P>(k).len() > 0 || event_key(k) is Some,
        WindowEvent::ReceivedImeText(s) => filtered_text(s@).len() > 0,
        _ => false,
    }
}

/// The input state once a frame has taken the batch: no events, no
/// modifiers forwarded yet; pointer and held modifiers stay.
pub open spec fn drained<P>(v: InputView<P>) -> InputView<P> {
    InputView { events: seq![], batch_modifiers: Modifiers::spec_none(), ..v }
}

/// Relies on wgpu's `Limits::default()`: its `max_texture_dimension_2d`
/// is 8192.
#[verifier::external_body]
fn default_max_texture_side() -> (r: u32)
    ensures
        r == 8192,
{
    wgpu::Limits::default().max_texture_dimension_2d
}

/// One window with a GUI overlay. `H` holds what the host side owns for it
/// (toolkit context, renderer, UI callback); `P` is the toolkit's point type.
pub struct EguiWindow<P, H> {
    pub host: H,
    /// The size of the last resize seen.
    pub size: Size,
    pub egui_input: RawInput<P>,
    pub pointer_pos: Option<P>,
    pub modifiers: Modifiers,
    pub origin: P,
    /// Whether the platform's command key is the super key (a Mac).
    pub command_is_super: bool,
}

impl<P, H> EguiWindow<P, H> {
    /// The window's input translation state.
    pub open spec fn input_view(&self) -> InputView<P> {
        InputView {
            events: events_view(self.egui_input.events@),
            batch_modifiers: self.egui_input.modifiers,
            pointer_pos: self.pointer_pos,
            modifiers: self.modifiers,
            origin: self.origin,
            command_is_super: self.command_is_super,
        }
    }
}

impl<P: Copy, H> EguiWindow<P, H> {
    /// A window of the given size with no input gathered yet.
    pub fn new(host: H, size: Size, origin: P, command_is_super: bool) -> (r: Self)
        ensures
            r.host == host,
            r.size == size,
            r.input_view() == (InputView {
                events: Seq::<EventView<P>>::empty(),
                batch_modifiers: Modifiers::spec_none(),
                pointer_pos: None,
                modifiers: Modifiers::spec_none(),
                origin,
                command_is_super,
            }),
    {
        let r = EguiWindow {
            host,
            size,
            egui_input: RawInput { events: Vec::new(), modifiers: Modifiers::none() },
            pointer_pos: None,
            modifiers: Modifiers::none(),
            origin,
            command_is_super,
        };
        assert(r.input_view().events =~= Seq::<EventView<P>>::empty());
        r
    }

    fn push_event(&mut self, e: ToolkitEvent<P>)
        ensures
            final(self).input_view() == (InputView {
                events: old(self).input_view().events.push(e@),
                ..old(self).input_view()
            }),
            final(self).host == old(self).host,
            final(self).size == old(self).size,
    {
        self.egui_input.events.push(e);
        assert(events_view(self.egui_input.events@) =~= events_view(old(self).egui_input.events@).push(e@));
    }

    fn push_key_text(&mut self, event: &KeyEvent) -> (r: bool)
        ensures
            final(self).input_view() == (InputView {
                events: old(self).input_view().events + key_text_events::<P>(*event),
                ..old(self).input_view()
            }),
            r == (key_text_events::<P>(*event).len() > 0),
            final(self).host == old(self).host,
            final(self).size == old(self).size,
    {
        let ghost v0 = self.input_view();
        if event.pressed {
            match &event.text {
                Some(text) => {
                    let filtered = filter_text(text.as_str());
                    if filtered.as_str().unicode_len() > 0 {
                        self.push_event(ToolkitEvent::Text(filtered));
                        assert(self.input_view().events =~= v0.events + key_text_events::<P>(*event));
                        return true;
                    }
                },
                None => {},
            }
        }
        assert(self.input_view().events =~= v0.events + key_text_events::<P>(*event));
        false
    }

    fn push_key(&mut self, event: &KeyEvent) -> (r: bool)
        ensures
            final(self).input_view() == (InputView {
                events: old(self).input_view().events + key_event_of(*event, old(self).modifiers),
                ..old(self).input_view()
            }),
            r == event_key(*event) is Some,
            final(self).host == old(self).host,
            final(self).size == old(self).size,
    {
        let ghost v0 = self.input_view();
        let key = match translate_logical_key(&event.logical_key) {
            Some(key) => Some(key),
            None => translate_physical_key(&event.physical_key),
        };
        match key {
            Some(key) => {
                self.push_event(
                    ToolkitEvent::Key { key, pressed: event.pressed, repeat: event.repeat, modifiers: self.modifiers },
                );
                assert(self.input_view().events =~= v0.events + key_event_of(*event, v0.modifiers));
                true
            },
            None => {
                assert(self.input_view().events =~= v0.events + key_event_of(*event, v0.modifiers));
                false
            },
        }
    }

    /// Translates a key event: its filtered text on a press, then the key it
    /// names, logical key first. Reports whether anything was produced.
    pub fn handle_keyboard_event(&mut self, event: &KeyEvent) -> (r: bool)
        ensures
            final(self).input_view() == (InputView {
                events: old(self).input_view().events + key_events(*event, old(self).modifiers),
                ..old(self).input_view()
            }),
            r == (key_text_events::<P>(*event).len() > 0 || event_key(*event) is Some),
            final(self).host == old(self).host,
            final(self).size == old(self).size,
    {
        let ghost v0 = self.input_view();
        let text_handled = self.push_key_text(event);
        let key_handled = self.push_key(event);
        assert(self.input_view().events =~= v0.events + key_events(*event, v0.modifiers));
        text_handled || key_handled
    }

    /// Translates one host input event into toolkit input appended to the
    /// batch, and reports whether the event meant anything to the toolkit.
    pub fn handle_event(&mut self, event: &WindowEvent<P>) -> (r: bool)
        ensures
            final(self).input_view() == next_input(old(self).input_view(), *event),
            r == consumes(old(self).input_view(), *event),
            final(self).host == old(self).host,
            final(self).size == old(self).size,
    {
        match event {
            WindowEvent::CursorMoved(pos) => {
                self.pointer_pos = Some(*pos);
                self.push_event(ToolkitEvent::PointerMoved(*pos));
                true
            },
            WindowEvent::ModifiersChanged(m) => {
                self.modifiers = to_canonical_modifiers(m, self.command_is_super);
                self.egui_input.modifiers = self.modifiers;
                true
            },
            WindowEvent::MouseInput { pressed, button } => {
                match to_pointer_button(*button) {
                    Some(b) => {
                        let pos = match self.pointer_pos {
                            Some(p) => p,
                            None => self.origin,
                        };
                        self.push_event(
                            ToolkitEvent::PointerButton { pos, button: b, pressed: *pressed, modifiers: self.modifiers },
                        );
                        true
                    },
                    None => false,
                }
            },
            WindowEvent::MouseWheel(delta) => {
                self.push_event(ToolkitEvent::MouseWheel { delta: *delta, modifiers: self.modifiers });
                true
            },
            WindowEvent::KeyboardInput(k) => self.handle_keyboard_event(k),
            WindowEvent::ReceivedImeText(text) => {
                let filtered = filter_text(text.as_str());
                if filtered.as_str().unicode_len() > 0 {
                    self.push_event(ToolkitEvent::Text(filtered));
                    true
                } else {
                    false
                }
            },
            _ => false,
        }
    }

    /// Records a new size. Returns whether it differs from the old one, that
    /// is whether the GPU surface needs configuring again.
    pub fn resize(&mut self, width: u32, height: u32) -> (changed: bool)
        ensures
            final(self).size == (Size { width, height }),
            changed == (old(self).size != (Size { width, height })),
            final(self).input_view() == old(self).input_view(),
            final(self).host == old(self).host,
    {
        let changed = self.size.width != width || self.size.height != height;
        self.size = Size { width, height };
        changed
    }

    /// Hands the gathered batch to a frame and starts an empty one.
    pub fn take_egui_input(&mut self) -> (r: FrameInput<P>)
        ensures
            events_view(r.events@) == old(self).input_view().events,
            r.modifiers == old(self).egui_input.modifiers,
            r.size == old(self).size,
            r.max_texture_side == 8192,
            final(self).input_view() == drained(old(self).input_view()),
            final(self).host == old(self).host,
            final(self).size == old(self).size,
    {
        let mut batch = RawInput { events: Vec::new(), modifiers: Modifiers::none() };
        std::mem::swap(&mut self.egui_input, &mut batch);
        assert(self.input_view().events =~= Seq::<EventView<P>>::empty());
        let max_texture_side = default_max_texture_side() as usize;
        FrameInput { events: batch.events, modifiers: batch.modifiers, size: self.size, max_texture_side }
    }
}

} // verus!

verus! {

/// The input state after a sequence of host events, in order.
pub open spec fn run_input<P>(v: InputView<P>, es: Seq<WindowEvent<P>>) -> InputView<P>
    decreases es.len(),
{
    if es.len() == 0 {
        v
    } else {
        next_input(run_input(v, es.drop_last()), es.last())
    }
}

/// The position of the last pointer move in a sequence of host events.
pub open spec fn last_move<P>(es: Seq<WindowEvent<P>>) -> Option<P>
    decreases es.len(),
{
    if es.len() == 0 {
        None
    } else {
        match es.last() {
            WindowEvent::CursorMoved(p) => Some(p),
            _ => last_move(es.drop_last()),
        }
    }
}

proof fn lemma_run_pointer<P>(v: InputView<P>, es: Seq<WindowEvent<P>>)
    ensures
        run_input(v, es).pointer_pos == match last_move(es) {
            Some(p) => Some(p),
            None => v.pointer_pos,
        },
        run_input(v, es).origin == v.origin,
        run_input(v, es).command_is_super == v.command_is_super,
    decreases es.len(),
{
    if es.len() > 0 {
        lemma_run_pointer(v, es.drop_last());
    }
}

/// A button event carries the position of the most recent pointer move
/// before it; with no move in between, the position known before, and on a
/// window that never saw a move, the origin.
pub proof fn lemma_button_uses_last_move<P>(
    v: InputView<P>,
    es: Seq<WindowEvent<P>>,
    pressed: bool,
    button: MouseButton,
)
    requires
        pointer_button(button) is Some,
    ensures
        ({
            let w = run_input(v, es);
            let pos = match last_move(es) {
                Some(p) => p,
                None => match v.pointer_pos {
                    Some(p) => p,
                    None => v.origin,
                },
            };
            next_input(w, WindowEvent::MouseInput { pressed, button }).events == w.events.push(
                EventView::PointerButton { pos, button: pointer_button(button)->0, pressed, modifiers: w.modifiers },
            )
        }),
{
    lemma_run_pointer(v, es);
}

proof fn lemma_next_input_events<P>(v: InputView<P>, u: InputView<P>, e: WindowEvent<P>)
    requires
        u == (InputView { events: u.events, batch_modifiers: u.batch_modifiers, ..v }),
    ensures
        next_input(u, e).events.len() >= u.events.len(),
        next_input(v, e).events == v.events + next_input(u, e).events.subrange(u.events.len() as int, next_input(u, e).events.len() as int),
        next_input(u, e).events.subrange(0, u.events.len() as int) == u.events,
        next_input(u, e) == (InputView { events: next_input(u, e).events, batch_modifiers: next_input(u, e).batch_modifiers, ..next_input(v, e) }),
{
    let a = next_input(v, e).events;
    let b = next_input(u, e).events;
    assert(b.subrange(0, u.events.len() as int) =~= u.events);
    assert(a =~= v.events + b.subrange(u.events.len() as int, b.len() as int));
}

/// Input that arrives after a frame has drained the batch lands in the next
/// batch and in no earlier one: the drained state holds no events, and the
/// events a sequence of host events appends are the same whatever the batch
/// held before.
pub proof fn lemma_drain_separates_batches<P>(v: InputView<P>, es: Seq<WindowEvent<P>>)
    ensures
        drained(v).events.len() == 0,
        run_input(v, es).events == v.events + run_input(drained(v), es).events,
    decreases es.len(),
{
    lemma_drain_general(v, drained(v), es);
    assert(v.events + run_input(drained(v), es).events =~= v.events + run_input(drained(v), es).events.subrange(0, run_input(drained(v), es).events.len() as int));
    assert(run_input(drained(v), es).events.subrange(0, run_input(drained(v), es).events.len() as int) =~= run_input(drained(v), es).events);
}

proof fn lemma_drain_general<P>(v: InputView<P>, u: InputView<P>, es: Seq<WindowEvent<P>>)
    requires
        u == (InputView { events: u.events, batch_modifiers: u.batch_modifiers, ..v }),
    ensures
        run_input(u, es).events.len() >= u.events.len(),
        run_input(v, es).events == v.events + run_input(u, es).events.subrange(u.events.len() as int, run_input(u, es).events.len() as int),
        run_input(u, es).events.subrange(0, u.events.len() as int) == u.events,
        run_input(u, es) == (InputView { events: run_input(u, es).events, batch_modifiers: run_input(u, es).batch_modifiers, ..run_input(v, es) }),
    decreases es.len(),
{
    if es.len() == 0 {
        assert(u.events.subrange(u.events.len() as int, u.events.len() as int) =~= Seq::<EventView<P>>::empty());
        assert(v.events + Seq::<EventView<P>>::empty() =~= v.events);
        assert(u.events.subrange(0, u.events.len() as int) =~= u.events);
    } else {
        let t = es.drop_last();
        lemma_drain_general(v, u, t);
        let vt = run_input(v, t);
        let ut = run_input(u, t);
        lemma_next_input_events(vt, ut, es.last());
        let a = next_input(vt, es.last()).events;
        let b = next_input(ut, es.last()).events;
        let k = u.events.len() as int;
        assert(b.subrange(0, k) =~= ut.events.subrange(0, k));
        assert(a =~= v.events + b.subrange(k, b.len() as int));
    }
}

/// A key event whose key names no toolkit key, logically or physically,
/// appends no key event; its text, filtered, is still appended on a press,
/// and the event counts as consumed exactly when that text was appended.
pub proof fn lemma_unmapped_key_keeps_text<P>(v: InputView<P>, k: KeyEvent)
    requires
        logical_key(k.logical_key) is None,
        physical_key(k.physical_key) is None,
    ensures
        next_input(v, WindowEvent::KeyboardInput(k)).events == v.events + key_text_events::<P>(k),
        consumes(v, WindowEvent::KeyboardInput(k)) == (key_text_events::<P>(k).len() > 0),
        (key_text_events::<P>(k).len() > 0) == (k.pressed && k.text is Some && filtered_text(k.text->0@).len() > 0),
{
    assert(key_events::<P>(k, v.modifiers) =~= key_text_events::<P>(k));
}

} // verus!
