//! The top-level viewer: the image being opened, its name and its viewport.

use vstd::prelude::*;

use crate::viewer::{frame_of, render, Frame, ViewerEvent, ViewerState, ViewportView, initial_view};

verus! {

/// Events of the top-level viewer. `H` is the handle of a decoded image.
#[derive(Debug, Clone)]
pub enum MainEvent<H> {
    Ready(H),
    ZoomIn,
    ZoomOut,
    ZoomOriginal,
}

/// What `std::path::Path::file_name` returns for a path.
pub uninterp spec fn file_name_of(path: Seq<char>) -> Option<Seq<char>>;

/// Relies on `std::path::Path::file_name`: the final component of the path,
/// if there is one.
#[verifier::external_body]
fn file_name(path: &str) -> (r: Option<String>)
    ensures
        match r {
            Some(n) => file_name_of(path@) == Some(n@),
            None => file_name_of(path@) is None,
        },
{
    match std::path::Path::new(path).file_name() {
        Some(n) => Some(n.to_string_lossy().into_owned()),
        None => None,
    }
}

/// The name shown for a path: its final component, or nothing.
pub open spec fn shown_name(path: Seq<char>) -> Seq<char> {
    match file_name_of(path) {
        Some(n) => n,
        None => Seq::empty(),
    }
}

/// The window title for a file name.
pub open spec fn title_of(name: Option<Seq<char>>) -> Seq<char> {
    match name {
        Some(n) => n + " - phany"@,
        None => "phany"@,
    }
}

/// The event bound to a key pressed with or without control held.
pub open spec fn shortcut_event<H>(key: char, control: bool) -> Option<MainEvent<H>> {
    if !control {
        None
    } else if key == '0' {
        Some(MainEvent::ZoomOriginal)
    } else if key == '=' {
        Some(MainEvent::ZoomIn)
    } else if key == '-' {
        Some(MainEvent::ZoomOut)
    } else {
        None
    }
}

/// Maps a key press to a viewer event: control with `0`, `=` or `-`.
pub fn shortcut<H>(key: char, control: bool) -> (r: Option<MainEvent<H>>)
    ensures
        r == shortcut_event::<H>(key, control),
{
    if !control {
        None
    } else if key == '0' {
        Some(MainEvent::ZoomOriginal)
    } else if key == '=' {
        Some(MainEvent::ZoomIn)
    } else if key == '-' {
        Some(MainEvent::ZoomOut)
    } else {
        None
    }
}

/// The viewport event that a top-level event stands for.
pub open spec fn viewport_event<H>(e: MainEvent<H>) -> ViewerEvent<H> {
    match e {
        MainEvent::ZoomIn => ViewerEvent::ZoomIn,
        MainEvent::ZoomOut => ViewerEvent::ZoomOut,
        MainEvent::ZoomOriginal => ViewerEvent::ZoomOriginal,
        MainEvent::Ready(h) => ViewerEvent::Ready(h),
    }
}

/// Converts a top-level event to the viewport event it stands for.
pub fn to_viewer_event<H>(e: MainEvent<H>) -> (r: ViewerEvent<H>)
    ensures
        r == viewport_event(e),
{
    match e {
        MainEvent::ZoomIn => ViewerEvent::ZoomIn,
        MainEvent::ZoomOut => ViewerEvent::ZoomOut,
        MainEvent::ZoomOriginal => ViewerEvent::ZoomOriginal,
        MainEvent::Ready(h) => ViewerEvent::Ready(h),
    }
}

/// The top-level viewer.
pub struct MainUI<H> {
    viewer: Option<H>,
    filename: Option<String>,
    state: ViewerState,
}

impl<H> Default for MainUI<H> {
    /// A viewer with no file and no image.
    fn default() -> (r: Self)
        ensures
            r.spec_handle() is None,
            r.spec_filename() is None,
            r.spec_view() == initial_view(),
    {
        MainUI { viewer: None, filename: None, state: ViewerState::new() }
    }
}

impl<H> MainUI<H> {
    pub closed spec fn spec_handle(&self) -> Option<H> {
        self.viewer
    }

    pub closed spec fn spec_filename(&self) -> Option<Seq<char>> {
        match self.filename {
            Some(n) => Some(n@),
            None => None,
        }
    }

    pub closed spec fn spec_view(&self) -> ViewportView {
        self.state@
    }

    /// A viewer for the file at `file`, whose image is still to be decoded.
    pub fn new(file: &str) -> (r: Self)
        ensures
            r.spec_handle() is None,
            r.spec_filename() == Some(shown_name(file@)),
            r.spec_view() == initial_view(),
    {
        let name = match file_name(file) {
            Some(n) => n,
            None => String::new(),
        };
        MainUI { viewer: None, filename: Some(name), state: ViewerState::new() }
    }

    pub fn title(&self) -> (r: String)
        ensures
            r@ == title_of(self.spec_filename()),
    {
        match &self.filename {
            Some(n) => n.clone().concat(" - phany"),
            None => String::from_str("phany"),
        }
    }

    pub fn handle(&self) -> (r: Option<&H>)
        ensures
            match r {
                Some(x) => self.spec_handle() == Some(*x),
                None => self.spec_handle() is None,
            },
    {
        self.viewer.as_ref()
    }

    pub fn state(&self) -> (r: &ViewerState)
        ensures
            r@ == self.spec_view(),
    {
        &self.state
    }

    /// Handles one event: the decode-completion event stores the handle, the
    /// zoom events go to the viewport.
    pub fn update(&mut self, message: MainEvent<H>)
        ensures
            final(self).spec_view() == crate::viewer::next_view(old(self).spec_view(), viewport_event(message)),
            final(self).spec_handle() == (match message {
                MainEvent::Ready(h) => Some(h),
                _ => old(self).spec_handle(),
            }),
            final(self).spec_filename() == old(self).spec_filename(),
    {
        match message {
            MainEvent::Ready(h) => {
                self.viewer = Some(h);
            },
            other => {
                self.state.apply(&to_viewer_event(other));
            },
        }
    }

    /// Handles one event of the image view: the decode-completion event
    /// stores the handle, every other event goes to the viewport.
    pub fn update_viewer(&mut self, event: ViewerEvent<H>)
        ensures
            final(self).spec_view() == crate::viewer::next_view(old(self).spec_view(), event),
            final(self).spec_handle() == (match event {
                ViewerEvent::Ready(h) => Some(h),
                _ => old(self).spec_handle(),
            }),
            final(self).spec_filename() == old(self).spec_filename(),
    {
        match event {
            ViewerEvent::Ready(h) => {
                self.viewer = Some(h);
            },
            other => {
                self.state.apply(&other);
            },
        }
    }

    /// The frame to draw: the loading placeholder until the image is decoded.
    pub fn frame(&self) -> (r: Frame)
        ensures
            r == frame_of(self.spec_handle() is Some, self.spec_view()),
    {
        render(self.viewer.is_some(), &self.state)
    }
}

/// A viewer without an image shows the loading placeholder; the
/// decode-completion event keeps the viewport as it stands, and the image is
/// then drawn with that viewport. Opened fresh, that is 100% with no pan and
/// no metadata panel.
pub proof fn lemma_open_then_ready<H>(ui: MainUI<H>, h: H)
    requires
        ui.spec_handle() is None,
    ensures
        frame_of(ui.spec_handle() is Some, ui.spec_view()) == Frame::Loading,
        crate::viewer::next_view(ui.spec_view(), viewport_event(MainEvent::Ready(h))) == ui.spec_view(),
        frame_of(true, ui.spec_view()) == (Frame::Image {
            scale: ui.spec_view().scale,
            pan: ui.spec_view().pan,
            show_metadata: ui.spec_view().display_metadata,
            percent: crate::viewer::percent_of(ui.spec_view().scale as int) as u32,
        }),
        ui.spec_view() == initial_view() ==> frame_of(true, ui.spec_view()) == (Frame::Image {
            scale: crate::viewer::SCALE_ONE,
            pan: crate::viewer::no_offset(),
            show_metadata: false,
            percent: 100,
        }),
{
}

} // verus!
