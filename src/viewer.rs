//! The viewport: a scale and a pan offset driven by input events.
//!
//! Scales are held as integers in units of one ten-millionth, so that
//! `SCALE_ONE` stands for 100%.

use vstd::prelude::*;

use crate::ui::MainEvent;

verus! {

/// The scale at which one image pixel covers one screen pixel.
pub const SCALE_ONE: u32 = 10000000;

/// The smallest scale that stepwise zooming reaches (10%).
pub const SCALE_MIN: u32 = 1000000;

/// The largest scale that stepwise zooming reaches (2000%).
pub const SCALE_MAX: u32 = 200000000;

/// A pan offset in screen pixels.
#[derive(Clone, Copy, Debug, PartialEq, Eq, Structural)]
pub struct Offset {
    pub x: i32,
    pub y: i32,
}

impl Offset {
    pub fn new(x: i32, y: i32) -> (r: Offset)
        ensures
            r.x == x,
            r.y == y,
    {
        Offset { x, y }
    }

    pub fn zero() -> (r: Offset)
        ensures
            r == no_offset(),
    {
        Offset { x: 0, y: 0 }
    }
}

pub open spec fn no_offset() -> Offset {
    Offset { x: 0, y: 0 }
}

/// `v` brought into `[SCALE_MIN, SCALE_MAX]`.
pub open spec fn clamp_scale(v: int) -> int {
    if v < SCALE_MIN {
        SCALE_MIN as int
    } else if v > SCALE_MAX {
        SCALE_MAX as int
    } else {
        v
    }
}

/// One zoom step in: the scale times 1.1, rounded down, then clamped.
pub open spec fn zoomed_in(s: int) -> int {
    clamp_scale(s * 11 / 10)
}

/// One zoom step out: the scale divided by 1.1, rounded down, then clamped.
pub open spec fn zoomed_out(s: int) -> int {
    clamp_scale(s * 10 / 11)
}

/// The three-way zoom cycle: below 100% go to 100%, below 200% go to 200%,
/// else drop to 50%.
pub open spec fn toggled_zoom(s: int) -> int {
    if s < SCALE_ONE {
        SCALE_ONE as int
    } else if s < 2 * SCALE_ONE {
        2 * SCALE_ONE
    } else {
        (SCALE_ONE / 2) as int
    }
}

/// The scale as a whole percentage, rounded half up.
pub open spec fn percent_of(s: int) -> int {
    (s + 50000) / 100000
}

fn clamp(v: u32) -> (r: u32)
    ensures
        r == clamp_scale(v as int),
{
    if v < SCALE_MIN {
        SCALE_MIN
    } else if v > SCALE_MAX {
        SCALE_MAX
    } else {
        v
    }
}

fn zoom_in(s: u32) -> (r: u32)
    ensures
        r == zoomed_in(s as int),
{
    if s >= SCALE_MAX {
        SCALE_MAX
    } else {
        let t: u64 = (s as u64) * 11 / 10;
        clamp(t as u32)
    }
}

fn zoom_out(s: u32) -> (r: u32)
    ensures
        r == zoomed_out(s as int),
{
    let t: u64 = (s as u64) * 10 / 11;
    clamp(t as u32)
}

fn zoom_change(s: u32) -> (r: u32)
    ensures
        r == toggled_zoom(s as int),
{
    if s < SCALE_ONE {
        SCALE_ONE
    } else if s < 2 * SCALE_ONE {
        2 * SCALE_ONE
    } else {
        SCALE_ONE / 2
    }
}

fn percent(s: u32) -> (r: u32)
    ensures
        r == percent_of(s as int),
{
    s / 100000 + if s % 100000 >= 50000 { 1u32 } else { 0u32 }
}

/// What the viewport holds, as the contracts see it.
pub struct ViewportView {
    pub scale: u32,
    pub pan: Offset,
    pub display_metadata: bool,
}

/// The viewport a viewer opens with: 100%, no pan, no metadata overlay.
pub open spec fn initial_view() -> ViewportView {
    ViewportView { scale: SCALE_ONE, pan: no_offset(), display_metadata: false }
}

/// Input events of the viewer. `H` is the handle of a decoded image.
#[derive(Debug, Clone)]
pub enum ViewerEvent<H> {
    ZoomIn,
    ZoomOut,
    ZoomOriginal,
    ZoomChange,
    Scale(u32),
    Move(Offset),
    RotateCW,
    RotateCCW,
    Reset,
    Open,
    Save,
    SaveAs,
    Export,
    Fullscreen,
    About,
    Preferences,
    Info,
    Exit,
    Ready(H),
}

/// The viewport after one event.
pub open spec fn next_view<H>(v: ViewportView, e: ViewerEvent<H>) -> ViewportView {
    match e {
        ViewerEvent::Move(p) => ViewportView { scale: v.scale, pan: p, display_metadata: v.display_metadata },
        ViewerEvent::Scale(s) => ViewportView { scale: s, pan: v.pan, display_metadata: v.display_metadata },
        ViewerEvent::ZoomIn => ViewportView {
            scale: zoomed_in(v.scale as int) as u32,
            pan: v.pan,
            display_metadata: v.display_metadata,
        },
        ViewerEvent::ZoomOut => ViewportView {
            scale: zoomed_out(v.scale as int) as u32,
            pan: v.pan,
            display_metadata: v.display_metadata,
        },
        ViewerEvent::ZoomOriginal => ViewportView {
            scale: SCALE_ONE,
            pan: v.pan,
            display_metadata: v.display_metadata,
        },
        ViewerEvent::ZoomChange => ViewportView {
            scale: toggled_zoom(v.scale as int) as u32,
            pan: v.pan,
            display_metadata: v.display_metadata,
        },
        ViewerEvent::Reset => ViewportView { scale: SCALE_ONE, pan: no_offset(), display_metadata: v.display_metadata },
        ViewerEvent::Info => ViewportView { scale: v.scale, pan: v.pan, display_metadata: !v.display_metadata },
        _ => v,
    }
}

/// The viewport after a sequence of events, first to last.
pub open spec fn run_events<H>(v: ViewportView, events: Seq<ViewerEvent<H>>) -> ViewportView
    decreases events.len(),
{
    if events.len() == 0 {
        v
    } else {
        next_view(run_events(v, events.drop_last()), events.last())
    }
}

/// Scale, pan and metadata flag of one open viewer.
pub struct ViewerState {
    scale: u32,
    position: Offset,
    display_metadata: bool,
}

impl View for ViewerState {
    type V = ViewportView;

    closed spec fn view(&self) -> ViewportView {
        ViewportView { scale: self.scale, pan: self.position, display_metadata: self.display_metadata }
    }
}

impl Default for ViewerState {
    fn default() -> (r: Self)
        ensures
            r@ == initial_view(),
    {
        ViewerState { scale: SCALE_ONE, position: Offset::zero(), display_metadata: false }
    }
}

impl ViewerState {
    pub fn new() -> (r: Self)
        ensures
            r@ == initial_view(),
    {
        ViewerState { scale: SCALE_ONE, position: Offset::zero(), display_metadata: false }
    }

    pub fn scale(&self) -> (r: u32)
        ensures
            r == self@.scale,
    {
        self.scale
    }

    pub fn position(&self) -> (r: Offset)
        ensures
            r == self@.pan,
    {
        self.position
    }

    pub fn display_metadata(&self) -> (r: bool)
        ensures
            r == self@.display_metadata,
    {
        self.display_metadata
    }

    /// Applies one event to the viewport. The decode-completion event and the
    /// events that the viewport does not handle leave it as it was.
    pub fn apply<H>(&mut self, event: &ViewerEvent<H>)
        ensures
            final(self)@ == next_view(old(self)@, *event),
    {
        match event {
            ViewerEvent::Move(p) => {
                self.position = *p;
            },
            ViewerEvent::Scale(s) => {
                self.scale = *s;
            },
            ViewerEvent::ZoomIn => {
                self.scale = zoom_in(self.scale);
            },
            ViewerEvent::ZoomOut => {
                self.scale = zoom_out(self.scale);
            },
            ViewerEvent::ZoomOriginal => {
                self.scale = SCALE_ONE;
            },
            ViewerEvent::ZoomChange => {
                self.scale = zoom_change(self.scale);
            },
            ViewerEvent::Reset => {
                self.scale = SCALE_ONE;
                self.position = Offset::zero();
            },
            ViewerEvent::Info => {
                self.display_metadata = !self.display_metadata;
            },
            _ => {},
        }
    }
}

/// What the rendering side draws for one frame.
#[derive(Clone, Copy, Debug, PartialEq, Eq, Structural)]
pub enum Frame {
    /// No decoded image yet: the loading placeholder.
    Loading,
    /// The image at `scale`, moved by `pan`, with the metadata panel shown when
    /// `show_metadata` holds; `percent` is the scale label of the toolbar.
    Image { scale: u32, pan: Offset, show_metadata: bool, percent: u32 },
}

/// The frame for a viewport, once an image is loaded or before.
pub open spec fn frame_of(loaded: bool, v: ViewportView) -> Frame {
    if loaded {
        Frame::Image {
            scale: v.scale,
            pan: v.pan,
            show_metadata: v.display_metadata,
            percent: percent_of(v.scale as int) as u32,
        }
    } else {
        Frame::Loading
    }
}

/// The frame drawn for a viewport, with or without an image.
pub fn render(loaded: bool, state: &ViewerState) -> (r: Frame)
    ensures
        r == frame_of(loaded, state@),
{
    if loaded {
        Frame::Image {
            scale: state.scale,
            pan: state.position,
            show_metadata: state.display_metadata,
            percent: percent(state.scale),
        }
    } else {
        Frame::Loading
    }
}

/// The title of the metadata panel: the file name, else "image".
pub open spec fn panel_title_of(name: Option<Seq<char>>) -> Seq<char> {
    match name {
        Some(n) => n,
        None => "image"@,
    }
}

/// The image view component: the decoded image handle, if any, the scale
/// and position it was built with, and the name of the file shown.
pub struct ViewerUI<H> {
    viewer: Option<H>,
    scale: Option<u32>,
    position: Option<Offset>,
    filename: Option<String>,
}

impl<H> Default for ViewerUI<H> {
    fn default() -> (r: Self)
        ensures
            r.spec_handle() is None,
            r.spec_scale() is None,
            r.spec_position() is None,
            r.spec_filename() is None,
    {
        ViewerUI { viewer: None, scale: None, position: None, filename: None }
    }
}

impl<H> ViewerUI<H> {
    pub closed spec fn spec_handle(&self) -> Option<H> {
        self.viewer
    }

    pub closed spec fn spec_scale(&self) -> Option<u32> {
        self.scale
    }

    pub closed spec fn spec_position(&self) -> Option<Offset> {
        self.position
    }

    pub closed spec fn spec_filename(&self) -> Option<Seq<char>> {
        match self.filename {
            Some(n) => Some(n@),
            None => None,
        }
    }

    pub fn set_handle(self, handle: H) -> (r: Self)
        ensures
            r.spec_handle() == Some(handle),
            r.spec_scale() == self.spec_scale(),
            r.spec_position() == self.spec_position(),
            r.spec_filename() == self.spec_filename(),
    {
        ViewerUI { viewer: Some(handle), scale: self.scale, position: self.position, filename: self.filename }
    }

    pub fn set_position(self, position: Offset) -> (r: Self)
        ensures
            r.spec_handle() == self.spec_handle(),
            r.spec_scale() == self.spec_scale(),
            r.spec_position() == Some(position),
            r.spec_filename() == self.spec_filename(),
    {
        ViewerUI { viewer: self.viewer, scale: self.scale, position: Some(position), filename: self.filename }
    }

    pub fn set_scale(self, scale: u32) -> (r: Self)
        ensures
            r.spec_handle() == self.spec_handle(),
            r.spec_scale() == Some(scale),
            r.spec_position() == self.spec_position(),
            r.spec_filename() == self.spec_filename(),
    {
        ViewerUI { viewer: self.viewer, scale: Some(scale), position: self.position, filename: self.filename }
    }

    pub fn set_filename(self, filename: String) -> (r: Self)
        ensures
            r.spec_handle() == self.spec_handle(),
            r.spec_scale() == self.spec_scale(),
            r.spec_position() == self.spec_position(),
            r.spec_filename() == Some(filename@),
    {
        ViewerUI { viewer: self.viewer, scale: self.scale, position: self.position, filename: Some(filename) }
    }

    /// The title of the metadata panel.
    pub fn panel_title(&self) -> (r: String)
        ensures
            r@ == panel_title_of(self.spec_filename()),
    {
        match &self.filename {
            Some(n) => n.clone(),
            None => String::from_str("image"),
        }
    }

    pub fn handle(&self) -> (r: Option<&H>)
        ensures
            match r {
                Some(x) => self.spec_handle() == Some(*x),
                None => self.spec_handle() is None,
            },
    {
        self.viewer.as_ref()
    }

    /// Handles one event: the decode-completion event hands over the image
    /// handle, every other event goes to the viewport. Nothing is passed up.
    pub fn update(&mut self, state: &mut ViewerState, event: ViewerEvent<H>) -> (r: Option<MainEvent<H>>)
        ensures
            r is None,
            final(state)@ == next_view(old(state)@, event),
            final(self).spec_handle() == (match event {
                ViewerEvent::Ready(h) => Some(h),
                _ => old(self).spec_handle(),
            }),
            final(self).spec_scale() == old(self).spec_scale(),
            final(self).spec_position() == old(self).spec_position(),
            final(self).spec_filename() == old(self).spec_filename(),
    {
        match event {
            ViewerEvent::Ready(h) => {
                self.viewer = Some(h);
            },
            other => {
                state.apply(&other);
            },
        }
        None
    }

    /// The frame for `state`: the loading placeholder until an image handle
    /// has arrived.
    pub fn frame(&self, state: &ViewerState) -> (r: Frame)
        ensures
            r == frame_of(self.spec_handle() is Some, state@),
    {
        render(self.viewer.is_some(), state)
    }
}

/// Stepwise zooming keeps the scale in range: after a non-empty sequence of
/// zoom-in and zoom-out steps, from any viewport, the scale lies in
/// `[SCALE_MIN, SCALE_MAX]`.
pub proof fn lemma_zoom_steps_stay_in_range<H>(v: ViewportView, events: Seq<ViewerEvent<H>>)
    requires
        events.len() > 0,
        forall|i: int| 0 <= i < events.len() ==> (events[i] is ZoomIn || events[i] is ZoomOut),
    ensures
        SCALE_MIN <= run_events(v, events).scale <= SCALE_MAX,
{
    assert(events[events.len() - 1] is ZoomIn || events[events.len() - 1] is ZoomOut);
}

/// A zoom-in step followed by a zoom-out step gives back the scale to within
/// one millionth of it, where neither step is clamped; pan and overlay stay.
pub proof fn lemma_zoom_in_then_out<H>(v: ViewportView)
    requires
        SCALE_MIN <= v.scale,
        v.scale * 11 / 10 <= SCALE_MAX,
    ensures
        ({
            let w = next_view(next_view(v, ViewerEvent::<H>::ZoomIn), ViewerEvent::<H>::ZoomOut);
            &&& w.scale <= v.scale
            &&& (v.scale - w.scale) * 1000000 <= v.scale
            &&& w.pan == v.pan
            &&& w.display_metadata == v.display_metadata
        }),
{
    let s = v.scale as int;
    let a = s * 11 / 10;
    let b = a * 10 / 11;
    assert(10 * a <= 11 * s < 10 * a + 10);
    assert(11 * b <= 10 * a < 11 * b + 11);
    assert(s - 1 <= b <= s);
    assert(b >= SCALE_MIN);
}

/// A zoom-out step followed by a zoom-in step gives back the scale to within
/// one millionth of it, where neither step is clamped; pan and overlay stay.
pub proof fn lemma_zoom_out_then_in<H>(v: ViewportView)
    requires
        SCALE_MIN <= v.scale * 10 / 11,
        v.scale <= SCALE_MAX,
    ensures
        ({
            let w = next_view(next_view(v, ViewerEvent::<H>::ZoomOut), ViewerEvent::<H>::ZoomIn);
            &&& w.scale <= v.scale
            &&& (v.scale - w.scale) * 1000000 <= v.scale
            &&& w.pan == v.pan
            &&& w.display_metadata == v.display_metadata
        }),
{
    let s = v.scale as int;
    let b = s * 10 / 11;
    let a = b * 11 / 10;
    assert(11 * b <= 10 * s < 11 * b + 11);
    assert(10 * a <= 11 * b < 10 * a + 10);
    assert(s - 1 <= a <= s);
}

/// The zoom cycle is total: from any scale it lands on 100%, 200% or 50%,
/// by the three-way rule, and changes nothing else.
pub proof fn lemma_zoom_change_cycle<H>(v: ViewportView)
    ensures
        ({
            let w = next_view(v, ViewerEvent::<H>::ZoomChange);
            &&& w.scale == SCALE_ONE || w.scale == 2 * SCALE_ONE || w.scale == SCALE_ONE / 2
            &&& v.scale < SCALE_ONE ==> w.scale == SCALE_ONE
            &&& SCALE_ONE <= v.scale < 2 * SCALE_ONE ==> w.scale == 2 * SCALE_ONE
            &&& 2 * SCALE_ONE <= v.scale ==> w.scale == SCALE_ONE / 2
            &&& w.pan == v.pan
            &&& w.display_metadata == v.display_metadata
        }),
{
}

/// Reset brings any viewport back to 100% with no pan.
pub proof fn lemma_reset<H>(v: ViewportView)
    ensures
        next_view(v, ViewerEvent::<H>::Reset).scale == SCALE_ONE,
        next_view(v, ViewerEvent::<H>::Reset).pan == no_offset(),
{
}

/// Toggling the metadata overlay twice gives back the viewport as it was.
pub proof fn lemma_info_twice<H>(v: ViewportView)
    ensures
        next_view(next_view(v, ViewerEvent::<H>::Info), ViewerEvent::<H>::Info) == v,
{
}

} // verus!
