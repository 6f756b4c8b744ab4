use vstd::prelude::*;

use crate::cursor::{convert_cursor_icon, icon_for, CursorIcon, Interaction};
use crate::event::HostEvent;
use crate::registry::{
    after_remove, after_transfer, has_label, index_of, lemma_index_of_unique,
    lemma_update_keeps_wf, registry_wf, staging_wf, Registry, StagingWindowWrapper,
};
use crate::surface::{RenderError, SurfaceError};
use crate::window::{after_event, after_resize, queues, set_ready, RendererState, WindowModel};

verus! {

/// One tick of the host event loop, with the host window already resolved to
/// its label (`None` when the host no longer or not yet tracks it).
pub enum LoopEvent<P, K, S> {
    LoopDestroyed,
    WindowEvent { label: Option<String>, event: HostEvent<P, K, S> },
    RedrawRequested { label: Option<String> },
    Other,
}

/// What the caller must do after a tick.
#[derive(Clone, Debug, PartialEq, Eq)]
pub enum Action {
    Nothing,
    /// Ask the host to redraw the window with this label.
    RequestRedraw(String),
    /// Create the window's rendering backend at the given physical size,
    /// negotiating an adapter and device first when none is cached yet; then
    /// report through [`IcedPlugin::renderer_created`].
    CreateRenderer { label: String, width: u32, height: u32, negotiate_device: bool },
    /// Run the window's frame: its queued events, then a render.
    Draw(String),
}

/// The mathematical value of an [`Action`].
pub enum ActionModel {
    Nothing,
    RequestRedraw(Seq<char>),
    CreateRenderer { label: Seq<char>, width: u32, height: u32, negotiate_device: bool },
    Draw(Seq<char>),
}

impl View for Action {
    type V = ActionModel;

    open spec fn view(&self) -> ActionModel {
        match self {
            Action::Nothing => ActionModel::Nothing,
            Action::RequestRedraw(l) => ActionModel::RequestRedraw(l@),
            Action::CreateRenderer { label, width, height, negotiate_device } => ActionModel::CreateRenderer {
                label: label@,
                width: *width,
                height: *height,
                negotiate_device: *negotiate_device,
            },
            Action::Draw(l) => ActionModel::Draw(l@),
        }
    }
}

/// The event dispatcher: the live windows, whether a shared adapter and
/// device have been negotiated, and whether the host loop has ended.
pub struct IcedPlugin<P, K, S, R> {
    pub windows: Registry<P, K, S, R>,
    pub device_ready: bool,
    pub destroyed: bool,
}

/// The mathematical value of an [`IcedPlugin`].
pub struct PluginModel<P, K, S, R> {
    pub windows: Seq<WindowModel<P, K, S, R>>,
    pub device_ready: bool,
    pub destroyed: bool,
}

impl<P, K, S, R> View for IcedPlugin<P, K, S, R> {
    type V = PluginModel<P, K, S, R>;

    open spec fn view(&self) -> PluginModel<P, K, S, R> {
        PluginModel { windows: self.windows@, device_ready: self.device_ready, destroyed: self.destroyed }
    }
}

/// Whether the host event ends the window: a close request or its
/// destruction.
pub open spec fn is_close<P, K, S>(e: HostEvent<P, K, S>) -> bool {
    e is CloseRequested || e is Destroyed
}

/// What one tick does to the dispatcher and the staging slot, and the action
/// it asks for. After the loop is destroyed nothing happens. A close removes
/// the window. Any other window event, and a redraw, first promote a staged
/// window with that label; then a resize is recorded on the window directly,
/// other events go through translation (a queued event asks for a redraw),
/// and a redraw asks for the renderer to be created when the window has none,
/// else for a frame. Events for unknown labels are dropped.
pub open spec fn dispatch<P, K, S, R>(
    m: PluginModel<P, K, S, R>,
    st: Option<WindowModel<P, K, S, R>>,
    e: LoopEvent<P, K, S>,
) -> (PluginModel<P, K, S, R>, Option<WindowModel<P, K, S, R>>, ActionModel) {
    if m.destroyed {
        (m, st, ActionModel::Nothing)
    } else {
        match e {
            LoopEvent::LoopDestroyed => (PluginModel { destroyed: true, ..m }, st, ActionModel::Nothing),
            LoopEvent::WindowEvent { label: Some(l), event: he } => if is_close(he) {
                (PluginModel { windows: after_remove(m.windows, l@), ..m }, st, ActionModel::Nothing)
            } else {
                let (ws, st1) = after_transfer(m.windows, st, l@);
                if !has_label(ws, l@) {
                    (PluginModel { windows: ws, ..m }, st1, ActionModel::Nothing)
                } else {
                    let i = index_of(ws, l@);
                    match he {
                        HostEvent::Resized { width, height } => (
                            PluginModel { windows: ws.update(i, after_resize(ws[i], width, height)), ..m },
                            st1,
                            ActionModel::Nothing,
                        ),
                        _ => (
                            PluginModel { windows: ws.update(i, after_event(ws[i], he)), ..m },
                            st1,
                            if queues(ws[i], he) {
                                ActionModel::RequestRedraw(l@)
                            } else {
                                ActionModel::Nothing
                            },
                        ),
                    }
                }
            },
            LoopEvent::RedrawRequested { label: Some(l) } => {
                let (ws, st1) = after_transfer(m.windows, st, l@);
                if !has_label(ws, l@) {
                    (PluginModel { windows: ws, ..m }, st1, ActionModel::Nothing)
                } else {
                    let w = ws[index_of(ws, l@)];
                    (
                        PluginModel { windows: ws, ..m },
                        st1,
                        if w.renderer == RendererState::Uninitialized {
                            ActionModel::CreateRenderer {
                                label: l@,
                                width: w.width,
                                height: w.height,
                                negotiate_device: !m.device_ready,
                            }
                        } else {
                            ActionModel::Draw(l@)
                        },
                    )
                }
            },
            _ => (m, st, ActionModel::Nothing),
        }
    }
}

/// The dispatcher is well formed when its registry is.
pub open spec fn plugin_wf<P, K, S, R>(m: PluginModel<P, K, S, R>) -> bool {
    registry_wf(m.windows)
}

/// Tells the events that end a window from the others.
pub fn is_close_event<P, K, S>(event: &HostEvent<P, K, S>) -> (r: bool)
    ensures
        r == is_close(*event),
{
    match event {
        HostEvent::CloseRequested | HostEvent::Destroyed => true,
        _ => false,
    }
}

impl<P: Copy, K, S: Copy, R> IcedPlugin<P, K, S, R> {
    /// A dispatcher with no window and no negotiated device.
    pub fn new() -> (r: Self)
        ensures
            r@.windows == Seq::<WindowModel<P, K, S, R>>::empty(),
            !r@.device_ready,
            !r@.destroyed,
            plugin_wf(r@),
    {
        IcedPlugin { windows: Registry::new(), device_ready: false, destroyed: false }
    }

    /// Handles one tick of the host event loop; see [`dispatch`]. The host
    /// always goes on with its own handling of the event.
    pub fn on_event(&mut self, staging: &mut StagingWindowWrapper<P, K, S, R>, event: LoopEvent<P, K, S>) -> (r: Action)
        requires
            plugin_wf(old(self)@),
            staging_wf(old(staging)@),
        ensures
            (final(self)@, final(staging)@, r@) == dispatch(old(self)@, old(staging)@, event),
            plugin_wf(final(self)@),
            staging_wf(final(staging)@),
    {
        if self.destroyed {
            return Action::Nothing;
        }
        match event {
            LoopEvent::LoopDestroyed => {
                self.destroyed = true;
                Action::Nothing
            },
            LoopEvent::WindowEvent { label: Some(label), event } => {
                if is_close_event(&event) {
                    let _ = self.windows.remove(&label);
                    return Action::Nothing;
                }
                self.windows.transfer_staging_window(staging, &label);
                let ghost ws = self.windows@;
                match self.windows.find(&label) {
                    None => Action::Nothing,
                    Some(i) => {
                        proof {
                            lemma_index_of_unique(ws, i as int);
                        }
                        match event {
                            HostEvent::Resized { width, height } => {
                                self.windows.windows[i].record_resize(width, height);
                                proof {
                                    lemma_update_keeps_wf(ws, i as int, after_resize(ws[i as int], width, height));
                                    assert(self.windows@ =~= ws.update(i as int, after_resize(ws[i as int], width, height)));
                                }
                                Action::Nothing
                            },
                            other => {
                                let queued = self.windows.windows[i].handle_event(other);
                                proof {
                                    lemma_update_keeps_wf(ws, i as int, after_event(ws[i as int], other));
                                    assert(self.windows@ =~= ws.update(i as int, after_event(ws[i as int], other)));
                                }
                                if queued {
                                    Action::RequestRedraw(label)
                                } else {
                                    Action::Nothing
                                }
                            },
                        }
                    },
                }
            },
            LoopEvent::RedrawRequested { label: Some(label) } => {
                self.windows.transfer_staging_window(staging, &label);
                let ghost ws = self.windows@;
                match self.windows.find(&label) {
                    None => Action::Nothing,
                    Some(i) => {
                        proof {
                            lemma_index_of_unique(ws, i as int);
                        }
                        let w = &self.windows.windows[i];
                        if w.renderer == RendererState::Uninitialized {
                            Action::CreateRenderer {
                                label,
                                width: w.width,
                                height: w.height,
                                negotiate_device: !self.device_ready,
                            }
                        } else {
                            Action::Draw(label)
                        }
                    },
                }
            },
            _ => Action::Nothing,
        }
    }

    /// Records that the shared adapter and device were negotiated, so that
    /// later windows reuse them instead of negotiating again.
    pub fn device_negotiated(&mut self)
        ensures
            final(self)@ == (PluginModel { device_ready: true, ..old(self)@ }),
    {
        self.device_ready = true;
    }

    /// Reports the outcome of a [`Action::CreateRenderer`] request. On success
    /// the window becomes ready to draw; on failure it stays registered
    /// without a renderer, so the next redraw asks again. Returns whether the
    /// window can now draw.
    pub fn renderer_created(&mut self, label: &String, succeeded: bool) -> (r: bool)
        requires
            plugin_wf(old(self)@),
        ensures
            r == (succeeded && has_label(old(self)@.windows, label@)),
            r ==> final(self)@ == (PluginModel {
                windows: old(self)@.windows.update(
                    index_of(old(self)@.windows, label@),
                    set_ready(old(self)@.windows[index_of(old(self)@.windows, label@)]),
                ),
                ..old(self)@
            }),
            !r ==> final(self)@ == old(self)@,
            plugin_wf(final(self)@),
    {
        if !succeeded {
            return false;
        }
        let ghost ws = self.windows@;
        match self.windows.find(label) {
            None => false,
            Some(i) => {
                proof {
                    lemma_index_of_unique(ws, i as int);
                }
                self.windows.windows[i].set_renderer_ready();
                proof {
                    lemma_update_keeps_wf(ws, i as int, set_ready(ws[i as int]));
                    assert(self.windows@ =~= ws.update(i as int, set_ready(ws[i as int])));
                }
                true
            },
        }
    }
}

/// What the caller does after a frame: go on, showing the given cursor icon
/// if the toolkit asked for one, or stop the process.
#[derive(Clone, Copy, Debug, PartialEq, Eq, Structural)]
pub enum FrameVerdict {
    Continue(Option<CursorIcon>),
    Abort,
}

/// The verdict on a frame's outcome: an interaction hint becomes a cursor
/// icon; an out-of-memory surface is unrecoverable; any other failure is
/// dropped and retried on the next redraw.
pub open spec fn verdict_of(outcome: Result<Option<Interaction>, RenderError>) -> FrameVerdict {
    match outcome {
        Ok(Some(i)) => FrameVerdict::Continue(Some(icon_for(i))),
        Ok(None) => FrameVerdict::Continue(None),
        Err(RenderError::Frame(SurfaceError::OutOfMemory)) => FrameVerdict::Abort,
        Err(_) => FrameVerdict::Continue(None),
    }
}

/// Decides what follows a rendered, or failed, frame.
pub fn frame_verdict(outcome: Result<Option<Interaction>, RenderError>) -> (r: FrameVerdict)
    ensures
        r == verdict_of(outcome),
{
    match outcome {
        Ok(Some(i)) => FrameVerdict::Continue(Some(convert_cursor_icon(i))),
        Ok(None) => FrameVerdict::Continue(None),
        Err(RenderError::Frame(SurfaceError::OutOfMemory)) => FrameVerdict::Abort,
        Err(_) => FrameVerdict::Continue(None),
    }
}

/// The window a label names in the dispatcher.
pub open spec fn window_of<P, K, S, R>(m: PluginModel<P, K, S, R>, l: Seq<char>) -> WindowModel<P, K, S, R> {
    m.windows[index_of(m.windows, l)]
}

/// A window's renderer is created once: when it exists, a redraw asks for a
/// frame and changes nothing, so the same surface serves every frame until
/// the window is removed.
pub proof fn lemma_renderer_reused<P, K, S, R>(
    m: PluginModel<P, K, S, R>,
    st: Option<WindowModel<P, K, S, R>>,
    l: String,
)
    requires
        !m.destroyed,
        has_label(m.windows, l@),
        window_of(m, l@).renderer == RendererState::Ready,
    ensures
        dispatch(m, st, LoopEvent::RedrawRequested { label: Some(l) }) == (m, st, ActionModel::Draw(l@)),
{
}

/// The shared adapter and device are negotiated at most once: after that, no
/// tick forgets them and no renderer creation asks to negotiate again.
pub proof fn lemma_device_negotiated_once<P, K, S, R>(
    m: PluginModel<P, K, S, R>,
    st: Option<WindowModel<P, K, S, R>>,
    e: LoopEvent<P, K, S>,
)
    requires
        m.device_ready,
    ensures
        dispatch(m, st, e).0.device_ready,
        dispatch(m, st, e).2 matches ActionModel::CreateRenderer { negotiate_device, .. } ==> !negotiate_device,
{
}

/// A window whose renderer could not be created stays registered, and every
/// later redraw asks again to create it, at the window's current size.
pub proof fn lemma_failed_creation_retried<P, K, S, R>(
    m: PluginModel<P, K, S, R>,
    st: Option<WindowModel<P, K, S, R>>,
    l: String,
)
    requires
        !m.destroyed,
        has_label(m.windows, l@),
        window_of(m, l@).renderer == RendererState::Uninitialized,
    ensures
        dispatch(m, st, LoopEvent::RedrawRequested { label: Some(l) }) == (m, st, ActionModel::CreateRenderer {
            label: l@,
            width: window_of(m, l@).width,
            height: window_of(m, l@).height,
            negotiate_device: !m.device_ready,
        }),
{
}

/// Input is never left without a frame: an event that queues a toolkit event
/// on a live window makes the tick ask the host for a redraw of it.
pub proof fn lemma_queued_event_requests_redraw<P, K, S, R>(
    m: PluginModel<P, K, S, R>,
    st: Option<WindowModel<P, K, S, R>>,
    l: String,
    e: HostEvent<P, K, S>,
)
    requires
        !m.destroyed,
        has_label(m.windows, l@),
        !(e is Resized),
        queues(window_of(m, l@), e),
    ensures
        dispatch(m, st, LoopEvent::WindowEvent { label: Some(l), event: e }).2 == ActionModel::RequestRedraw(l@),
{
    assert(!is_close(e));
}

} // verus!
