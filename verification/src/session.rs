//! The state that the event loop shares with the buttons, and the decisions
//! the loop takes: when to stop, when to swap in a new layout, and what a
//! window event means for the widgets.
//!
//! The loop itself belongs to the front end. Once per frame it calls
//! [`SharedData::begin_frame`]; for every window event it calls [`react`].

use crate::view::{Layout, LayoutView};
use vstd::prelude::*;

verus! {

/// What the buttons and the event loop share.
#[derive(Clone, Debug, PartialEq, Eq)]
pub struct SharedData {
    /// Set when the editor has been asked to close.
    pub canceled: bool,
    /// A layout that waits to be shown in place of the one on screen.
    pub queued_layout: Option<Layout>,
}

/// [`SharedData`] as contracts see it.
pub struct SharedDataView {
    pub canceled: bool,
    pub queued_layout: Option<LayoutView>,
}

/// The view of a layout that may be absent.
pub open spec fn layout_view(layout: Option<Layout>) -> Option<LayoutView> {
    match layout {
        Some(layout) => Some(layout@),
        None => None,
    }
}

impl View for SharedData {
    type V = SharedDataView;

    open spec fn view(&self) -> SharedDataView {
        SharedDataView {
            canceled: self.canceled,
            queued_layout: layout_view(self.queued_layout),
        }
    }
}

/// How a frame of the event loop starts.
#[derive(Clone, Debug, PartialEq, Eq)]
pub enum Frame {
    /// The editor was asked to close: leave the loop.
    Stop,
    /// Go on with the frame. Where `root` holds a layout, it replaces the
    /// one on screen before anything else is done.
    Draw { root: Option<Layout> },
}

/// A [`Frame`] as contracts see it.
pub enum FrameView {
    Stop,
    Draw { root: Option<LayoutView> },
}

impl View for Frame {
    type V = FrameView;

    open spec fn view(&self) -> FrameView {
        match self {
            Frame::Stop => FrameView::Stop,
            Frame::Draw { root } => FrameView::Draw { root: layout_view(*root) },
        }
    }
}

impl SharedData {
    /// Shared state for a screen that starts with `layout`: not canceled,
    /// and the layout waiting to be shown.
    pub fn showing(layout: Layout) -> (data: SharedData)
        ensures
            data@ == (SharedDataView { canceled: false, queued_layout: Some(layout@) }),
    {
        SharedData { canceled: false, queued_layout: Some(layout) }
    }

    /// Takes the waiting layout out, if there is one, and leaves none behind.
    pub fn take_layout(&mut self) -> (layout: Option<Layout>)
        ensures
            layout_view(layout) == old(self)@.queued_layout,
            final(self)@ == (SharedDataView { queued_layout: None, ..old(self)@ }),
    {
        self.queued_layout.take()
    }

    /// Decides how a frame starts. A canceled editor stops, and nothing
    /// changes. Otherwise the frame is drawn, and the waiting layout, if
    /// there is one, is handed out to become the new root.
    pub fn begin_frame(&mut self) -> (frame: Frame)
        ensures
            frame@ == frame_of(old(self)@),
            old(self)@.canceled ==> final(self)@ == old(self)@,
            !old(self)@.canceled ==> final(self)@ == (SharedDataView {
                queued_layout: None,
                ..old(self)@
            }),
    {
        if self.canceled {
            Frame::Stop
        } else {
            Frame::Draw { root: self.queued_layout.take() }
        }
    }
}

/// How a frame starts, given the shared state at that moment.
pub open spec fn frame_of(data: SharedDataView) -> FrameView {
    if data.canceled {
        FrameView::Stop
    } else {
        FrameView::Draw { root: data.queued_layout }
    }
}

/// Whether a key or button went down or came up.
#[derive(Clone, Copy, Debug, PartialEq, Eq, Structural)]
pub enum ElementState {
    Pressed,
    Released,
}

/// An event of the window, reduced to what the editor tells apart.
#[derive(Clone, Copy, Debug, PartialEq, Eq, Structural)]
pub enum WindowEvent {
    /// The window was closed.
    Closed,
    /// The pointer moved to `(x, y)`, in pixels from the top left corner.
    MouseMoved { x: i32, y: i32 },
    /// A mouse button went down or came up.
    MouseInput { state: ElementState },
    /// Anything else.
    Other,
}

/// An event for the widgets.
#[derive(Clone, Copy, Debug, PartialEq, Eq, Structural)]
pub enum GuiEvent {
    /// The pointer is now at `(x, y)`.
    MouseMoved { x: i32, y: i32 },
    /// The pointer clicked where it stands.
    MouseClick,
}

/// What the event loop does about a window event.
#[derive(Clone, Copy, Debug, PartialEq, Eq, Structural)]
pub enum Reaction {
    /// Leave the loop at once; later events of this frame are not looked at.
    Quit,
    /// Hand the event to the widgets.
    Raise(GuiEvent),
    /// Do nothing.
    Ignore,
}

/// The reaction to each window event: closing the window quits, pointer
/// motion is passed on with its position, a mouse button coming up is a
/// click, and nothing else matters.
pub open spec fn reaction_to(event: WindowEvent) -> Reaction {
    match event {
        WindowEvent::Closed => Reaction::Quit,
        WindowEvent::MouseMoved { x, y } => Reaction::Raise(GuiEvent::MouseMoved { x, y }),
        WindowEvent::MouseInput { state: ElementState::Released } => Reaction::Raise(
            GuiEvent::MouseClick,
        ),
        _ => Reaction::Ignore,
    }
}

/// Decides what the event loop does about `event`.
pub fn react(event: WindowEvent) -> (reaction: Reaction)
    ensures
        reaction == reaction_to(event),
{
    match event {
        WindowEvent::Closed => Reaction::Quit,
        WindowEvent::MouseMoved { x, y } => Reaction::Raise(GuiEvent::MouseMoved { x, y }),
        WindowEvent::MouseInput { state: ElementState::Released } => Reaction::Raise(
            GuiEvent::MouseClick,
        ),
        _ => Reaction::Ignore,
    }
}

} // verus!
