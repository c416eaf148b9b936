//! The event bridge: a registry of windows with a GUI overlay, keyed by the
//! host's window label, a staging slot for a window built before the host's
//! event stream has named it, and the routing of host events to windows.
use vstd::prelude::*;
use crate::input::{events_view, WindowEvent};
use crate::window::{consumes, drained, next_input, EguiWindow, FrameInput, Size};

verus! {

/// The slot for a window whose overlay is built but which the host's event
/// stream has not named yet.
pub struct StagingWindowWrapper<P, H> {
    pub window: Option<(String, EguiWindow<P, H>)>,
}

/// An event of the host's stream, for the window the host names by label.
#[derive(Debug)]
pub enum HostEvent<P> {
    /// Input or a lifecycle notice for the window.
    Window(WindowEvent<P>),
    /// The host asks the window to draw a frame.
    RedrawRequested,
    /// Anything else.
    Other,
}

/// What the host side has to do after an event.
#[derive(Debug)]
pub enum Action<P> {
    Nothing,
    /// Configure the window's GPU surface for its new size.
    ResizeSurface(Size),
    /// Ask the host to redraw the window.
    RequestRedraw,
    /// Run a frame on this input, then present it.
    DriveFrame(FrameInput<P>),
}

/// The bridge's answer to an event: whether the GUI layer used it, and what
/// the host side has to do.
#[derive(Debug)]
pub struct EventOutcome<P> {
    pub consumed: bool,
    pub action: Action<P>,
}

/// The windows of a sequence of (label, window) entries, by label; a later
/// entry wins over an earlier one.
pub open spec fn label_map<P, H>(s: Seq<(String, EguiWindow<P, H>)>) -> Map<Seq<char>, EguiWindow<P, H>>
    decreases s.len(),
{
    if s.len() == 0 {
        Map::empty()
    } else {
        label_map(s.drop_last()).insert(s.last().0@, s.last().1)
    }
}

/// No two entries share a label.
pub open spec fn unique_labels<P, H>(s: Seq<(String, EguiWindow<P, H>)>) -> bool {
    forall|i: int, j: int| 0 <= i < j < s.len() ==> s[i].0@ != s[j].0@
}

proof fn lemma_label_map<P, H>(s: Seq<(String, EguiWindow<P, H>)>)
    requires
        unique_labels(s),
    ensures
        forall|i: int| 0 <= i < s.len() ==> {
            &&& #[trigger] label_map(s).contains_key(s[i].0@)
            &&& label_map(s)[s[i].0@] == s[i].1
        },
        forall|l: Seq<char>| #[trigger] label_map(s).contains_key(l) ==> exists|i: int| 0 <= i < s.len() && s[i].0@ == l,
    decreases s.len(),
{
    if s.len() > 0 {
        let t = s.drop_last();
        assert(unique_labels(t)) by {
            assert forall|i: int, j: int| 0 <= i < j < t.len() implies t[i].0@ != t[j].0@ by {
                assert(t[i] == s[i] && t[j] == s[j]);
            }
        }
        lemma_label_map(t);
        assert forall|i: int| 0 <= i < s.len() implies {
            &&& #[trigger] label_map(s).contains_key(s[i].0@)
            &&& label_map(s)[s[i].0@] == s[i].1
        } by {
            if i < s.len() - 1 {
                assert(t[i] == s[i]);
                assert(s[i].0@ != s[s.len() - 1].0@);
                assert(label_map(t).contains_key(t[i].0@));
            }
        }
        assert forall|l: Seq<char>| #[trigger] label_map(s).contains_key(l) implies exists|i: int| 0 <= i < s.len() && s[i].0@ == l by {
            if l != s.last().0@ {
                assert(label_map(t).contains_key(l));
                let i = choose|i: int| 0 <= i < t.len() && t[i].0@ == l;
                assert(s[i] == t[i]);
            } else {
                assert(s[s.len() - 1].0@ == l);
            }
        }
    }
}

proof fn lemma_label_map_update<P, H>(s: Seq<(String, EguiWindow<P, H>)>, i: int, w: EguiWindow<P, H>)
    requires
        unique_labels(s),
        0 <= i < s.len(),
    ensures
        label_map(s.update(i, (s[i].0, w))) == label_map(s).insert(s[i].0@, w),
        unique_labels(s.update(i, (s[i].0, w))),
    decreases s.len(),
{
    let u = s.update(i, (s[i].0, w));
    let t = s.drop_last();
    if i == s.len() - 1 {
        assert(u.drop_last() =~= t);
        assert(label_map(u) =~= label_map(s).insert(s[i].0@, w));
    } else {
        assert(u.drop_last() =~= t.update(i, (t[i].0, w)));
        lemma_label_map_update(t, i, w);
        assert(s.last().0@ != s[i].0@);
        assert(label_map(u) =~= label_map(s).insert(s[i].0@, w));
    }
    assert forall|a: int, b: int| 0 <= a < b < u.len() implies u[a].0@ != u[b].0@ by {
        assert(u[a].0 == s[a].0 && u[b].0 == s[b].0);
    }
}

proof fn lemma_label_map_update_any<P, H>(s: Seq<(String, EguiWindow<P, H>)>, i: int)
    requires
        unique_labels(s),
        0 <= i < s.len(),
    ensures
        forall|w: EguiWindow<P, H>| #[trigger] label_map(s.update(i, (s[i].0, w))) == label_map(s).insert(s[i].0@, w)
            && unique_labels(s.update(i, (s[i].0, w))),
{
    assert forall|w: EguiWindow<P, H>| #[trigger] label_map(s.update(i, (s[i].0, w))) == label_map(s).insert(s[i].0@, w)
        && unique_labels(s.update(i, (s[i].0, w))) by {
        lemma_label_map_update(s, i, w);
    }
}

proof fn lemma_label_map_push<P, H>(s: Seq<(String, EguiWindow<P, H>)>, l: String, w: EguiWindow<P, H>)
    requires
        unique_labels(s),
        !label_map(s).contains_key(l@),
    ensures
        label_map(s.push((l, w))) == label_map(s).insert(l@, w),
        unique_labels(s.push((l, w))),
{
    lemma_label_map(s);
    assert(s.push((l, w)).drop_last() =~= s);
    assert forall|a: int, b: int| 0 <= a < b < s.len() + 1 implies s.push((l, w))[a].0@ != s.push((l, w))[b].0@ by {
        if b == s.len() {
            assert(label_map(s).contains_key(s[a].0@));
        }
    }
}

/// The mathematical state of the bridge.
pub struct PluginView<P, H> {
    /// The window waiting in the staging slot, by label.
    pub staged: Option<(Seq<char>, EguiWindow<P, H>)>,
    /// The registered windows, by label.
    pub windows: Map<Seq<char>, EguiWindow<P, H>>,
}

/// The bridge's state once an event for `label` has arrived: a window
/// staged under that label, and not registered yet, moves into the registry.
pub open spec fn promoted<P, H>(v: PluginView<P, H>, label: Seq<char>) -> PluginView<P, H> {
    match v.staged {
        Some((l, w)) => if !v.windows.contains_key(label) && l == label {
            PluginView { staged: None, windows: v.windows.insert(label, w) }
        } else {
            v
        },
        None => v,
    }
}

/// How an event for a registered window changes it (`w` before, `w2`
/// after), and what the bridge answers.
pub open spec fn window_step<P, H>(
    w: EguiWindow<P, H>,
    event: HostEvent<P>,
    w2: EguiWindow<P, H>,
    out: EventOutcome<P>,
) -> bool {
    &&& w2.host == w.host
    &&& match event {
        HostEvent::Window(WindowEvent::Resized { width, height }) => {
            &&& w2.size == (Size { width, height })
            &&& w2.input_view() == w.input_view()
            &&& out.consumed
            &&& out.action == if w.size != (Size { width, height }) {
                Action::<P>::ResizeSurface(Size { width, height })
            } else {
                Action::<P>::Nothing
            }
        },
        HostEvent::Window(e) => {
            &&& w2.size == w.size
            &&& w2.input_view() == next_input(w.input_view(), e)
            &&& out.consumed == consumes(w.input_view(), e)
            &&& out.action == Action::<P>::RequestRedraw
        },
        HostEvent::RedrawRequested => {
            &&& w2.size == w.size
            &&& w2.input_view() == drained(w.input_view())
            &&& !out.consumed
            &&& out.action is DriveFrame
            &&& events_view(out.action->DriveFrame_0.events@) == w.input_view().events
            &&& out.action->DriveFrame_0.modifiers == w.egui_input.modifiers
            &&& out.action->DriveFrame_0.size == w.size
            &&& out.action->DriveFrame_0.max_texture_side == 8192
        },
        HostEvent::Other => {
            &&& w2 == w
            &&& !out.consumed
            &&& out.action == Action::<P>::Nothing
        },
    }
}

/// The bridge: registered windows by label, and the staging slot.
pub struct EguiPlugin<P, H> {
    staging_window: StagingWindowWrapper<P, H>,
    windows: Vec<(String, EguiWindow<P, H>)>,
}

impl<P: Copy, H> EguiPlugin<P, H> {
    pub closed spec fn view(&self) -> PluginView<P, H> {
        PluginView {
            staged: match self.staging_window.window {
                Some((l, w)) => Some((l@, w)),
                None => None,
            },
            windows: label_map(self.windows@),
        }
    }

    /// The bridge's invariant: no label is registered twice.
    pub closed spec fn wf(&self) -> bool {
        unique_labels(self.windows@)
    }

    /// A bridge with no window registered or staged.
    pub fn new() -> (r: Self)
        ensures
            r.wf(),
            r.view().staged is None,
            r.view().windows == Map::<Seq<char>, EguiWindow<P, H>>::empty(),
    {
        let r = EguiPlugin { staging_window: StagingWindowWrapper { window: None }, windows: Vec::new() };
        assert(r.windows@.len() == 0);
        r
    }

    /// Puts a window, fully built, into the staging slot under its label;
    /// a window staged before and not yet promoted is dropped.
    pub fn stage(&mut self, label: String, window: EguiWindow<P, H>)
        requires
            old(self).wf(),
        ensures
            final(self).wf(),
            final(self).view() == (PluginView { staged: Some((label@, window)), ..old(self).view() }),
    {
        self.staging_window.window = Some((label, window));
    }

    /// The position of the registered window with this label.
    fn find(&self, label: &String) -> (r: Option<usize>)
        requires
            self.wf(),
        ensures
            match r {
                Some(i) => i < self.windows@.len() && self.windows@[i as int].0@ == label@,
                None => !self.view().windows.contains_key(label@),
            },
    {
        proof { lemma_label_map(self.windows@); }
        let mut i: usize = 0;
        while i < self.windows.len()
            invariant
                i <= self.windows@.len(),
                forall|j: int| 0 <= j < i ==> self.windows@[j].0@ != label@,
            decreases self.windows@.len() - i,
        {
            if self.windows[i].0 == *label {
                return Some(i);
            }
            i = i + 1;
        }
        None
    }

    /// Promotes the window staged under `label` if it is not registered yet,
    /// and gives the position of the window registered under `label`.
    fn resolve(&mut self, label: &String) -> (r: Option<usize>)
        requires
            old(self).wf(),
        ensures
            final(self).wf(),
            final(self).view() == promoted(old(self).view(), label@),
            match r {
                Some(i) => i < final(self).windows@.len() && final(self).windows@[i as int].0@ == label@,
                None => !final(self).view().windows.contains_key(label@),
            },
    {
        proof { lemma_label_map(self.windows@); }
        match self.find(label) {
            Some(i) => Some(i),
            None => {
                let staged_here = match &self.staging_window.window {
                    Some((l, _)) => *l == *label,
                    None => false,
                };
                if staged_here {
                    match self.staging_window.window.take() {
                        Some((l, w)) => {
                            proof { lemma_label_map_push(self.windows@, l, w); }
                            self.windows.push((l, w));
                            proof { lemma_label_map(self.windows@); }
                            Some(self.windows.len() - 1)
                        },
                        None => None,
                    }
                } else {
                    None
                }
            },
        }
    }

    /// Routes one host event. An event for a window staged under its label
    /// first promotes that window into the registry. Events for windows with
    /// no overlay pass through: not consumed, nothing to do. A resize
    /// records the new size and asks for the surface to be configured when
    /// it changed; other input goes through the window's translator and asks
    /// for a redraw; a redraw request drains the window's input batch into
    /// a frame.
    pub fn on_event(&mut self, label: Option<String>, event: HostEvent<P>) -> (out: EventOutcome<P>)
        requires
            old(self).wf(),
        ensures
            final(self).wf(),
            match label {
                None => final(self).view() == old(self).view() && !out.consumed && out.action == Action::<P>::Nothing,
                Some(l) => {
                    let v = promoted(old(self).view(), l@);
                    if v.windows.contains_key(l@) {
                        &&& final(self).view().staged == v.staged
                        &&& final(self).view().windows.contains_key(l@)
                        &&& final(self).view().windows == v.windows.insert(l@, final(self).view().windows[l@])
                        &&& window_step(v.windows[l@], event, final(self).view().windows[l@], out)
                    } else {
                        final(self).view() == v && !out.consumed && out.action == Action::<P>::Nothing
                    }
                },
            },
    {
        let label = match label {
            Some(l) => l,
            None => return EventOutcome { consumed: false, action: Action::Nothing },
        };
        let i = match self.resolve(&label) {
            Some(i) => i,
            None => return EventOutcome { consumed: false, action: Action::Nothing },
        };
        proof { lemma_label_map(self.windows@); }
        let ghost s0 = self.windows@;
        let entry = &mut self.windows[i];
        let out = match event {
            HostEvent::Window(WindowEvent::Resized { width, height }) => {
                let changed = entry.1.resize(width, height);
                let action = if changed {
                    Action::ResizeSurface(Size { width, height })
                } else {
                    Action::Nothing
                };
                EventOutcome { consumed: true, action }
            },
            HostEvent::Window(e) => {
                let consumed = entry.1.handle_event(&e);
                EventOutcome { consumed, action: Action::RequestRedraw }
            },
            HostEvent::RedrawRequested => {
                let input = entry.1.take_egui_input();
                EventOutcome { consumed: false, action: Action::DriveFrame(input) }
            },
            HostEvent::Other => EventOutcome { consumed: false, action: Action::Nothing },
        };
        proof {
            lemma_label_map_update(s0, i as int, self.windows@[i as int].1);
            assert(self.windows@ == s0.update(i as int, (s0[i as int].0, self.windows@[i as int].1)));
            lemma_label_map(self.windows@);
        }
        out
    }

    /// Promotes the window staged under `label`, if it is not registered
    /// yet, and tells whether a window is now registered under `label`.
    pub fn promote_staged(&mut self, label: &String) -> (r: bool)
        requires
            old(self).wf(),
        ensures
            final(self).wf(),
            final(self).view() == promoted(old(self).view(), label@),
            r == final(self).view().windows.contains_key(label@),
    {
        proof { lemma_label_map(self.windows@); }
        let r = self.resolve(label).is_some();
        proof { lemma_label_map(self.windows@); }
        r
    }

    /// Whether a window is registered under this label.
    pub fn is_registered(&self, label: &String) -> (r: bool)
        requires
            self.wf(),
        ensures
            r == self.view().windows.contains_key(label@),
    {
        proof { lemma_label_map(self.windows@); }
        self.find(label).is_some()
    }

    /// The label of the window waiting in the staging slot, if any.
    pub fn staged_label(&self) -> (r: Option<&String>)
        ensures
            match r {
                Some(l) => match self.view().staged {
                    Some((staged, _)) => staged == l@,
                    None => false,
                },
                None => self.view().staged is None,
            },
    {
        match &self.staging_window.window {
            Some((l, _)) => Some(l),
            None => None,
        }
    }

    /// The registered window with this label, for the host side to reach
    /// what it owns there.
    pub fn window_mut(&mut self, label: &String) -> (r: Option<&mut EguiWindow<P, H>>)
        requires
            old(self).wf(),
        ensures
            final(self).wf(),
            r is Some <==> old(self).view().windows.contains_key(label@),
            r is Some ==> *r->Some_0 == old(self).view().windows[label@],
            r is Some ==> final(self).view() == (PluginView {
                windows: old(self).view().windows.insert(label@, *final(r->Some_0)),
                ..old(self).view()
            }),
            r is None ==> final(self).view() == old(self).view(),
    {
        match self.find(label) {
            Some(i) => {
                proof {
                    lemma_label_map(self.windows@);
                    lemma_label_map_update_any(self.windows@, i as int);
                    assert(label_map(self.windows@).contains_key(self.windows@[i as int].0@));
                }
                let entry = &mut self.windows[i];
                Some(&mut entry.1)
            },
            None => None,
        }
    }
}

/// A window staged under a label that is not registered yet moves into the
/// registry on the first event for that label, and the staging slot empties.
/// Any later event for the label finds it registered: nothing is promoted
/// again, whatever the window's state has become.
pub proof fn lemma_promoted_once<P, H>(v: PluginView<P, H>, label: Seq<char>, w: EguiWindow<P, H>)
    requires
        v.staged == Some((label, w)),
        !v.windows.contains_key(label),
    ensures
        promoted(v, label).windows == v.windows.insert(label, w),
        promoted(v, label).staged is None,
        forall|w2: EguiWindow<P, H>| #[trigger] promoted(
            PluginView { staged: None, windows: v.windows.insert(label, w2) },
            label,
        ) == (PluginView { staged: None, windows: v.windows.insert(label, w2) }),
{
}

/// A resize followed by a frame hands the frame the new size; a resize to
/// the size the window already has asks for no surface reconfiguration.
pub proof fn lemma_resize_then_frame<P, H>(
    w: EguiWindow<P, H>,
    width: u32,
    height: u32,
    w1: EguiWindow<P, H>,
    out1: EventOutcome<P>,
    w2: EguiWindow<P, H>,
    out2: EventOutcome<P>,
)
    requires
        window_step(w, HostEvent::Window(WindowEvent::Resized { width, height }), w1, out1),
        window_step(w1, HostEvent::RedrawRequested, w2, out2),
    ensures
        out2.action is DriveFrame,
        out2.action->DriveFrame_0.size == (Size { width, height }),
        w.size == (Size { width, height }) ==> out1.action == Action::<P>::Nothing,
        w.size != (Size { width, height }) ==> out1.action == Action::<P>::ResizeSurface(Size { width, height }),
{
}

} // verus!
