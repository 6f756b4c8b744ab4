use vstd::prelude::*;

use crate::event::{
    convert_window_event, is_relevant_event, no_modifiers, relevant, translatable, translate,
    HostEvent, Modifiers, ToolkitEvent,
};

verus! {

/// Physical pixel size and scale factor: how logical toolkit coordinates map
/// to device pixels.
#[derive(Clone, Copy, Debug, PartialEq)]
pub struct Viewport<S> {
    pub width: u32,
    pub height: u32,
    pub scale_factor: S,
}

/// Whether a window has its rendering backend yet.
#[derive(Clone, Copy, Debug, PartialEq, Eq, Structural)]
pub enum RendererState {
    /// Created lazily on the first redraw; stays here while creation fails.
    Uninitialized,
    Ready,
}

/// The engine's state for one managed window.
pub struct IcedWindow<P, K, S, R> {
    pub label: String,
    pub width: u32,
    pub height: u32,
    pub scale_factor: S,
    pub viewport: Viewport<S>,
    pub cursor: Option<P>,
    pub modifiers: Modifiers,
    pub events: Vec<ToolkitEvent<P, K>>,
    pub resized: bool,
    pub renderer: RendererState,
    /// What the caller keeps per window (UI controls, widget cache, the
    /// rendering backend); carried and dropped with the window, never read.
    pub resources: R,
}

/// The mathematical value of an [`IcedWindow`].
pub struct WindowModel<P, K, S, R> {
    pub label: Seq<char>,
    pub width: u32,
    pub height: u32,
    pub scale_factor: S,
    pub viewport: Viewport<S>,
    pub cursor: Option<P>,
    pub modifiers: Modifiers,
    pub events: Seq<ToolkitEvent<P, K>>,
    pub resized: bool,
    pub renderer: RendererState,
    pub resources: R,
}

impl<P, K, S, R> View for IcedWindow<P, K, S, R> {
    type V = WindowModel<P, K, S, R>;

    open spec fn view(&self) -> WindowModel<P, K, S, R> {
        WindowModel {
            label: self.label@,
            width: self.width,
            height: self.height,
            scale_factor: self.scale_factor,
            viewport: self.viewport,
            cursor: self.cursor,
            modifiers: self.modifiers,
            events: self.events@,
            resized: self.resized,
            renderer: self.renderer,
            resources: self.resources,
        }
    }
}

/// The viewport that matches a window's current size and scale factor.
pub open spec fn current_viewport<P, K, S, R>(w: WindowModel<P, K, S, R>) -> Viewport<S> {
    Viewport { width: w.width, height: w.height, scale_factor: w.scale_factor }
}

/// A window is well formed when its viewport is up to date or a resize is
/// pending that will bring it up to date.
pub open spec fn window_wf<P, K, S, R>(w: WindowModel<P, K, S, R>) -> bool {
    !w.resized ==> w.viewport == current_viewport(w)
}

/// The window's tracked state after a host event, before translation: the
/// modifier state, the cursor position, the size and the scale factor follow
/// the event, and a change of geometry marks a resize as pending.
pub open spec fn track<P, K, S, R>(w: WindowModel<P, K, S, R>, e: HostEvent<P, K, S>) -> WindowModel<P, K, S, R> {
    match e {
        HostEvent::ModifiersChanged(m) => WindowModel { modifiers: m, ..w },
        HostEvent::CursorMoved(p) => WindowModel { cursor: Some(p), ..w },
        HostEvent::ScaleFactorChanged(s) => WindowModel { scale_factor: s, resized: true, ..w },
        HostEvent::Resized { width, height } => WindowModel { width, height, resized: true, ..w },
        _ => w,
    }
}

/// Whether handling `e` queues a toolkit event.
pub open spec fn queues<P, K, S, R>(w: WindowModel<P, K, S, R>, e: HostEvent<P, K, S>) -> bool {
    relevant(e) && translate(e, track(w, e).modifiers) is Some
}

/// The window after handling one host event: tracked state updated first, so
/// that a keyboard event carries the modifier state it arrived with, then the
/// translated event, if any, appended to the queue.
pub open spec fn after_event<P, K, S, R>(w: WindowModel<P, K, S, R>, e: HostEvent<P, K, S>) -> WindowModel<P, K, S, R> {
    if !relevant(e) {
        w
    } else {
        let t = track(w, e);
        match translate(e, t.modifiers) {
            Some(x) => WindowModel { events: t.events.push(x), ..t },
            None => t,
        }
    }
}

/// The window after a sequence of host events, handled in order.
pub open spec fn after_events<P, K, S, R>(w: WindowModel<P, K, S, R>, es: Seq<HostEvent<P, K, S>>) -> WindowModel<P, K, S, R>
    decreases es.len(),
{
    if es.len() == 0 {
        w
    } else {
        after_events(after_event(w, es[0]), es.drop_first())
    }
}

/// The window after a host resize recorded directly: new size, resize pending.
pub open spec fn after_resize<P, K, S, R>(w: WindowModel<P, K, S, R>, width: u32, height: u32) -> WindowModel<P, K, S, R> {
    WindowModel { width, height, resized: true, ..w }
}

/// The window after a pending resize has been applied: viewport recomputed,
/// flag cleared.
pub open spec fn after_pending_resize<P, K, S, R>(w: WindowModel<P, K, S, R>) -> WindowModel<P, K, S, R> {
    if w.resized {
        WindowModel { viewport: current_viewport(w), resized: false, ..w }
    } else {
        w
    }
}

/// The window once its rendering backend exists.
pub open spec fn set_ready<P, K, S, R>(w: WindowModel<P, K, S, R>) -> WindowModel<P, K, S, R> {
    WindowModel { renderer: RendererState::Ready, ..w }
}

impl<P: Copy, K, S: Copy, R> IcedWindow<P, K, S, R> {
    /// A window with the given label, physical size and scale factor: no
    /// events queued, cursor unknown, no modifiers, no renderer yet.
    pub fn new(label: String, width: u32, height: u32, scale_factor: S, resources: R) -> (r: Self)
        ensures
            r@.label == label@,
            r@.width == width,
            r@.height == height,
            r@.scale_factor == scale_factor,
            r@.viewport == current_viewport(r@),
            r@.cursor is None,
            r@.modifiers == no_modifiers(),
            r@.events == Seq::<ToolkitEvent<P, K>>::empty(),
            !r@.resized,
            r@.renderer == RendererState::Uninitialized,
            r@.resources == resources,
            window_wf(r@),
    {
        IcedWindow {
            label,
            width,
            height,
            scale_factor,
            viewport: Viewport { width, height, scale_factor },
            cursor: None,
            modifiers: Modifiers::empty(),
            events: Vec::new(),
            resized: false,
            renderer: RendererState::Uninitialized,
            resources,
        }
    }

    /// Handles one host event: updates the tracked state and queues the
    /// translated toolkit event. Returns whether an event was queued.
    pub fn handle_event(&mut self, event: HostEvent<P, K, S>) -> (r: bool)
        ensures
            final(self)@ == after_event(old(self)@, event),
            r == queues(old(self)@, event),
            window_wf(old(self)@) ==> window_wf(final(self)@),
    {
        if !is_relevant_event(&event) {
            return false;
        }
        match &event {
            HostEvent::ModifiersChanged(m) => {
                self.modifiers = *m;
            },
            HostEvent::CursorMoved(p) => {
                self.cursor = Some(*p);
            },
            HostEvent::ScaleFactorChanged(s) => {
                self.scale_factor = *s;
                self.resized = true;
            },
            HostEvent::Resized { width, height } => {
                self.width = *width;
                self.height = *height;
                self.resized = true;
            },
            _ => {},
        }
        match convert_window_event(event, self.modifiers) {
            Some(t) => {
                self.events.push(t);
                true
            },
            None => false,
        }
    }

    /// Records a new physical size reported by the host and marks a resize
    /// as pending, without queueing a toolkit event.
    pub fn record_resize(&mut self, width: u32, height: u32)
        ensures
            final(self)@ == after_resize(old(self)@, width, height),
            window_wf(final(self)@),
    {
        self.width = width;
        self.height = height;
        self.resized = true;
    }

    /// Takes the queued toolkit events, in arrival order, leaving the queue
    /// empty.
    pub fn process_events(&mut self) -> (r: Vec<ToolkitEvent<P, K>>)
        ensures
            r@ == old(self)@.events,
            final(self)@ == (WindowModel { events: Seq::empty(), ..old(self)@ }),
    {
        let mut taken: Vec<ToolkitEvent<P, K>> = Vec::new();
        std::mem::swap(&mut taken, &mut self.events);
        taken
    }

    /// Applies a pending resize: recomputes the viewport from the current
    /// size and scale factor, clears the flag and returns the viewport the
    /// surface must be reconfigured to. Returns `None` when no resize is
    /// pending.
    pub fn apply_pending_resize(&mut self) -> (r: Option<Viewport<S>>)
        ensures
            final(self)@ == after_pending_resize(old(self)@),
            old(self)@.resized ==> r == Some(current_viewport(old(self)@)),
            !old(self)@.resized ==> r is None,
            window_wf(old(self)@) ==> window_wf(final(self)@),
            !final(self)@.resized,
    {
        if self.resized {
            let v = Viewport { width: self.width, height: self.height, scale_factor: self.scale_factor };
            self.viewport = v;
            self.resized = false;
            Some(v)
        } else {
            None
        }
    }

    /// Marks the window's rendering backend as created.
    pub fn set_renderer_ready(&mut self)
        ensures
            final(self)@ == set_ready(old(self)@),
    {
        self.renderer = RendererState::Ready;
    }
}

/// The window after a series of host resizes, recorded in order.
pub open spec fn after_resizes<P, K, S, R>(w: WindowModel<P, K, S, R>, sizes: Seq<(u32, u32)>) -> WindowModel<P, K, S, R>
    decreases sizes.len(),
{
    if sizes.len() == 0 {
        w
    } else {
        after_resizes(after_resize(w, sizes[0].0, sizes[0].1), sizes.drop_first())
    }
}

/// Host events that have a toolkit counterpart are all queued, in the order
/// they arrived: after handling them, the queue holds what it held before,
/// followed by the translation of each event, every keyboard event carrying
/// the modifier state tracked up to and including that event.
pub proof fn lemma_events_queued_in_order<P, K, S, R>(w: WindowModel<P, K, S, R>, es: Seq<HostEvent<P, K, S>>)
    requires
        forall|k: int| 0 <= k < es.len() ==> translatable(#[trigger] es[k]),
    ensures
        after_events(w, es).events.len() == w.events.len() + es.len(),
        after_events(w, es).events.subrange(0, w.events.len() as int) == w.events,
        forall|k: int| 0 <= k < es.len() ==> after_events(w, es).events[w.events.len() + k]
            == translate(#[trigger] es[k], after_events(w, es.take(k + 1)).modifiers)->Some_0,
    decreases es.len(),
{
    if es.len() > 0 {
        let e0 = es[0];
        let rest = es.drop_first();
        assert(translatable(e0));
        let w1 = after_event(w, e0);
        assert(relevant(e0));
        assert(translate(e0, track(w, e0).modifiers) is Some);
        assert(w1.events == w.events.push(translate(e0, track(w, e0).modifiers)->Some_0));
        assert forall|k: int| 0 <= k < rest.len() implies translatable(#[trigger] rest[k]) by {
            assert(rest[k] == es[k + 1]);
        }
        lemma_events_queued_in_order(w1, rest);
        let fin = after_events(w, es);
        assert(fin == after_events(w1, rest));
        assert(fin.events.subrange(0, w1.events.len() as int) == w1.events);
        assert(fin.events.subrange(0, w.events.len() as int) =~= w.events) by {
            assert forall|j: int| 0 <= j < w.events.len() implies fin.events[j] == w.events[j] by {
                assert(fin.events[j] == fin.events.subrange(0, w1.events.len() as int)[j]);
            }
        }
        assert forall|k: int| 0 <= k < es.len() implies fin.events[w.events.len() + k]
            == translate(#[trigger] es[k], after_events(w, es.take(k + 1)).modifiers)->Some_0 by {
            let pre = es.take(k + 1);
            assert(pre[0] == e0);
            assert(pre.drop_first() =~= rest.take(k));
            assert(after_events(w, pre) == after_events(w1, rest.take(k)));
            if k == 0 {
                assert(rest.take(0).len() == 0);
                assert(after_events(w1, rest.take(0)) == w1);
                assert(fin.events[w.events.len() as int] == fin.events.subrange(0, w1.events.len() as int)[w.events.len() as int]);
            } else {
                assert(rest[k - 1] == es[k]);
                assert(w.events.len() + k == w1.events.len() + (k - 1));
            }
        }
    }
}

/// Resizes coalesce: however many arrive before a redraw, the redraw
/// reconfigures once, to the last size, and leaves nothing pending.
pub proof fn lemma_resizes_coalesce<P, K, S, R>(w: WindowModel<P, K, S, R>, sizes: Seq<(u32, u32)>)
    requires
        sizes.len() > 0,
    ensures
        after_resizes(w, sizes).resized,
        current_viewport(after_resizes(w, sizes)) == (Viewport {
            width: sizes.last().0,
            height: sizes.last().1,
            scale_factor: w.scale_factor,
        }),
        after_pending_resize(after_resizes(w, sizes)).viewport == current_viewport(after_resizes(w, sizes)),
        !after_pending_resize(after_resizes(w, sizes)).resized,
        after_pending_resize(after_pending_resize(after_resizes(w, sizes)))
            == after_pending_resize(after_resizes(w, sizes)),
    decreases sizes.len(),
{
    let w1 = after_resize(w, sizes[0].0, sizes[0].1);
    let rest = sizes.drop_first();
    if rest.len() > 0 {
        lemma_resizes_coalesce(w1, rest);
        assert(rest.last() == sizes.last());
    } else {
        assert(after_resizes(w1, rest) == w1);
    }
}

} // verus!
