use vstd::prelude::*;

use crate::crop::{view_det, view_l_det, Crop};
use crate::details::{clamp_i32, div_trunc, sat_i32, sat_wide, scaled, trunc_div, Details, Scale};
use crate::event::{Event, MouseEvent, ReturnEvent};
use crate::layable::{color, pass_events_simple, Draw, Layable, Rgba};

verus! {

/// The thickness of a scrollbar, before scaling.
pub const SCROLLBAR_WIDTH: i32 = 10;

/// The length of a scrollbar's handle, before scaling.
pub const SCROLLBAR_LENGTH: i32 = 40;

/// How far one notch of the wheel scrolls, in unscaled pixels.
pub const WHEEL_STEP: i32 = 10;

pub open spec fn scrollbar_bg() -> Rgba {
    Rgba { r: 33, g: 35, b: 38, a: 255 }
}

pub open spec fn scrollbar_handle() -> Rgba {
    Rgba { r: 106, g: 113, b: 122, a: 255 }
}

/// The axes a scrollable scrolls along.
#[derive(Clone, Copy, Debug, PartialEq, Eq, Structural, Hash)]
pub enum ScrollableMode {
    Neither,
    Vertical,
    Horizontal,
    Both,
}

impl ScrollableMode {
    /// (vertical, horizontal)
    pub open spec fn spec_bools(&self) -> (bool, bool) {
        match *self {
            ScrollableMode::Neither => (false, false),
            ScrollableMode::Vertical => (true, false),
            ScrollableMode::Horizontal => (false, true),
            ScrollableMode::Both => (true, true),
        }
    }

    /// (vertical, horizontal), as 0 or 1
    pub fn multipliers(&self) -> (r: (i32, i32))
        ensures
            r == (if self.spec_bools().0 {
                1i32
            } else {
                0i32
            }, if self.spec_bools().1 {
                1i32
            } else {
                0i32
            }),
    {
        match *self {
            ScrollableMode::Neither => (0, 0),
            ScrollableMode::Vertical => (1, 0),
            ScrollableMode::Horizontal => (0, 1),
            ScrollableMode::Both => (1, 1),
        }
    }

    /// (vertical, horizontal)
    pub fn bools(&self) -> (r: (bool, bool))
        ensures
            r == self.spec_bools(),
    {
        match *self {
            ScrollableMode::Neither => (false, false),
            ScrollableMode::Vertical => (true, false),
            ScrollableMode::Horizontal => (false, true),
            ScrollableMode::Both => (true, true),
        }
    }
}

/// What the pointer is doing to the scrollbars.
#[derive(Clone, Copy, Debug, PartialEq, Eq, Structural, Hash, Default)]
pub enum ScrollbarAction {
    #[default]
    Idle,
    /// dragging the horizontal handle, begun at offset `before` with the
    /// pointer at screen x `drag_start_c`
    ScrollingXFrom { before: i32, drag_start_c: i32 },
    /// dragging the vertical handle, begun at offset `before` with the
    /// pointer at screen y `drag_start_c`
    ScrollingYFrom { before: i32, drag_start_c: i32 },
}

/// How far the content is scrolled, in unscaled pixels, and the drag in
/// progress.
#[derive(Clone, Copy, Debug, PartialEq, Eq, Structural, Hash, Default)]
pub struct ScrollableState {
    pub scroll_x: i32,
    pub scroll_y: i32,
    pub action: ScrollbarAction,
}

/// The region the content is seen through: the given region, less the
/// scrollbar thickness where a bar is shown: the vertical bar takes width
/// when the content is taller than the region, the horizontal bar takes
/// height when the content is wider.
pub open spec fn scroll_view(det: Details, scale: Scale, mode: ScrollableMode, l_size: (i32, i32)) -> Details {
    let (vert, horiz) = mode.spec_bools();
    let sw = scaled(SCROLLBAR_WIDTH as int, scale);
    let x_mul = vert && l_size.1 > det.ah;
    let y_mul = horiz && l_size.0 > det.aw;
    Details {
        x: det.x,
        y: det.y,
        aw: clamp_i32(det.aw - if x_mul {
            sw
        } else {
            0
        }) as i32,
        ah: clamp_i32(det.ah - if y_mul {
            sw
        } else {
            0
        }) as i32,
    }
}

/// The vertical scrollbar, as its track and its handle, when the content is
/// taller than the view and the mode scrolls vertically, along the view's
/// right edge. The handle sits at
/// `offset / (content - view) * (track - handle)` along the track.
pub open spec fn side_bar(
    state: ScrollableState,
    mode: ScrollableMode,
    l_size: (i32, i32),
    vdet: Details,
    scale: Scale,
) -> Option<(Details, Details)> {
    let (l_w, l_h) = l_size;
    let sw = scaled(SCROLLBAR_WIDTH as int, scale) as i32;
    let sl = scaled(SCROLLBAR_LENGTH as int, scale) as i32;
    if mode.spec_bools().0 && l_h > vdet.ah {
        let tx = clamp_i32(vdet.x + vdet.aw) as i32;
        let track = Details { x: tx, y: vdet.y, aw: sw, ah: vdet.ah };
        let hy = clamp_i32(
            vdet.y + trunc_div(state.scroll_y * (vdet.ah - sl), l_h - vdet.ah),
        ) as i32;
        Some((track, Details { x: tx, y: hy, aw: sw, ah: sl }))
    } else {
        None
    }
}

/// The horizontal scrollbar, as its track and its handle, when the content is
/// wider than the view and the mode scrolls horizontally, along the view's
/// bottom edge.
pub open spec fn bottom_bar(
    state: ScrollableState,
    mode: ScrollableMode,
    l_size: (i32, i32),
    vdet: Details,
    scale: Scale,
) -> Option<(Details, Details)> {
    let (l_w, l_h) = l_size;
    let sw = scaled(SCROLLBAR_WIDTH as int, scale) as i32;
    let sl = scaled(SCROLLBAR_LENGTH as int, scale) as i32;
    if mode.spec_bools().1 && l_w > vdet.aw {
        let ty = clamp_i32(vdet.y + vdet.ah) as i32;
        let track = Details { x: vdet.x, y: ty, aw: vdet.aw, ah: sw };
        let hx = clamp_i32(
            vdet.x + trunc_div(state.scroll_x * (vdet.aw - sl), l_w - vdet.aw),
        ) as i32;
        Some((track, Details { x: hx, y: ty, aw: sl, ah: sw }))
    } else {
        None
    }
}

/// The largest offset along an axis: how far the content overflows the view.
/// The view is the given region less any scrollbar shown across the axis, the
/// same viewport the handle's position is measured against; so in `Both`
/// mode with a horizontal bar shown, the vertical bound is the content height
/// less the region's height less the bar's thickness.
pub open spec fn max_offset(content: int, view: int) -> int {
    clamp_i32(content - view)
}

/// `v` held to `[0, bound]`; to 0 when `bound` is negative.
pub open spec fn clamp_offset(v: int, bound: int) -> int {
    let m = if v < bound {
        v
    } else {
        bound
    };
    if m > 0 {
        m
    } else {
        0
    }
}

/// Where a drag along one axis puts the offset: the offset it began at, moved
/// by the pointer's travel times the ratio of the overflow to the free track.
pub open spec fn drag_offset(before: int, travel: int, overflow: int, free_track: int) -> int {
    if free_track > 0 {
        clamp_i32(before + trunc_div(travel * overflow, free_track))
    } else {
        before
    }
}

/// The scrolling state after one event, for content of size `l_size` in the
/// region `det`.
pub open spec fn scroll_step(
    st: ScrollableState,
    mode: ScrollableMode,
    l_size: (i32, i32),
    det: Details,
    scale: Scale,
    e: Event,
) -> ScrollableState {
    let (l_w, l_h) = l_size;
    let (vert, horiz) = mode.spec_bools();
    let sl = scaled(SCROLLBAR_LENGTH as int, scale);
    let vdet = scroll_view(det, scale, mode, l_size);
    match e {
        Event::MouseEvent(MouseEvent::Scroll { amount, .. }) => {
            let delta = clamp_i32(amount * WHEEL_STEP);
            let bx = max_offset(l_w as int, vdet.aw as int);
            let by = max_offset(l_h as int, vdet.ah as int);
            if vert {
                ScrollableState {
                    scroll_x: if horiz {
                        clamp_offset(st.scroll_x as int, bx) as i32
                    } else {
                        st.scroll_x
                    },
                    scroll_y: clamp_offset(clamp_i32(st.scroll_y - delta), by) as i32,
                    action: st.action,
                }
            } else if horiz {
                ScrollableState {
                    scroll_x: clamp_offset(clamp_i32(st.scroll_x - delta), bx) as i32,
                    ..st
                }
            } else {
                st
            }
        },
        Event::MouseEvent(MouseEvent::MouseClick { x, y }) => {
            let a1 = match side_bar(st, mode, l_size, vdet, scale) {
                Some((_, handle)) => if handle.spec_is_inside(x as int, y as int) {
                    ScrollbarAction::ScrollingYFrom { before: st.scroll_y, drag_start_c: y }
                } else {
                    st.action
                },
                None => st.action,
            };
            let a2 = match bottom_bar(st, mode, l_size, vdet, scale) {
                Some((_, handle)) => if handle.spec_is_inside(x as int, y as int) {
                    ScrollbarAction::ScrollingXFrom { before: st.scroll_x, drag_start_c: x }
                } else {
                    a1
                },
                None => a1,
            };
            ScrollableState { action: a2, ..st }
        },
        Event::MouseEvent(MouseEvent::MouseHeld { x, y }) => {
            match st.action {
                ScrollbarAction::ScrollingXFrom { before, drag_start_c } => {
                    let og = drag_offset(before as int, x - drag_start_c, l_w - vdet.aw, vdet.aw - sl);
                    let bound = max_offset(l_w as int, vdet.aw as int);
                    ScrollableState { scroll_x: clamp_offset(og, bound) as i32, ..st }
                },
                ScrollbarAction::ScrollingYFrom { before, drag_start_c } => {
                    let og = drag_offset(before as int, y - drag_start_c, l_h - vdet.ah, vdet.ah - sl);
                    let bound = max_offset(l_h as int, vdet.ah as int);
                    ScrollableState { scroll_y: clamp_offset(og, bound) as i32, ..st }
                },
                ScrollbarAction::Idle => st,
            }
        },
        Event::MouseEvent(MouseEvent::MouseRelease { .. }) => ScrollableState {
            action: ScrollbarAction::Idle,
            ..st
        },
        Event::KeyboardEvent(..) => st,
    }
}

/// The region the content is given: the view, shifted by the scaled offset.
pub open spec fn content_det(st: ScrollableState, vdet: Details, scale: Scale) -> Details {
    view_det(
        vdet,
        scaled(st.scroll_x as int, scale) as i32,
        scaled(st.scroll_y as int, scale) as i32,
    )
}

/// The state, the content's model and the results after `events`, taken one
/// at a time: each first moves the state, then goes to the content.
pub open spec fn scroll_pass<L: Layable>(
    st: ScrollableState,
    mode: ScrollableMode,
    lm: L::Model,
    events: Seq<Event>,
    det: Details,
    scale: Scale,
) -> (ScrollableState, L::Model, Seq<ReturnEvent>)
    decreases events.len(),
{
    if events.len() == 0 {
        (st, lm, seq![])
    } else {
        let (st1, lm1, rets) = scroll_pass::<L>(st, mode, lm, events.drop_last(), det, scale);
        let e = events.last();
        let l_size = L::m_size(lm1);
        let vdet = scroll_view(det, scale, mode, l_size);
        let st2 = scroll_step(st1, mode, l_size, det, scale, e);
        let (lm2, r) = L::m_pass(lm1, seq![e], content_det(st2, vdet, scale), scale);
        (st2, lm2, rets + r)
    }
}

/// The two rectangles of a scrollbar, if it is shown.
pub open spec fn bar_draws(bar: Option<(Details, Details)>) -> Seq<Draw> {
    match bar {
        Some((t, h)) => seq![
            Draw::Rect { x: t.x, y: t.y, w: t.aw, h: t.ah, color: scrollbar_bg() },
            Draw::Rect { x: h.x, y: h.y, w: h.aw, h: h.ah, color: scrollbar_handle() },
        ],
        None => seq![],
    }
}

proof fn lemma_trunc_div_small(a: int, b: int, bound: int)
    requires
        b > 0,
        -bound <= a <= bound,
    ensures
        -bound <= trunc_div(a, b) <= bound,
{
    if a >= 0 {
        assert(a / b <= a) by (nonlinear_arith)
            requires
                a >= 0,
                b > 0,
        ;
    } else {
        assert((-a) / b <= -a) by (nonlinear_arith)
            requires
                -a > 0,
                b > 0,
        ;
    }
}

/// [`scroll_view`], computed.
pub fn view_of(det: Details, scale: Scale, mode: ScrollableMode, l_size: (i32, i32)) -> (r: Details)
    ensures
        r == scroll_view(det, scale, mode, l_size),
{
    let (vert, horiz) = mode.bools();
    let sw = scale.apply(SCROLLBAR_WIDTH) as i64;
    let x_mul = vert && l_size.1 > det.ah;
    let y_mul = horiz && l_size.0 > det.aw;
    Details {
        x: det.x,
        y: det.y,
        aw: sat_i32(det.aw as i64 - if x_mul {
            sw
        } else {
            0
        }),
        ah: sat_i32(det.ah as i64 - if y_mul {
            sw
        } else {
            0
        }),
    }
}

/// Where the handle sits along its track: `track_start + offset * free / overflow`.
fn handle_pos(track_start: i32, offset: i32, free: i64, overflow: i64) -> (r: i32)
    requires
        overflow > 0,
        -0x1_0000_0000 <= free <= 0x1_0000_0000,
    ensures
        r == clamp_i32(track_start + trunc_div(offset * free, overflow as int)),
{
    proof {
        assert(-0x1_0000_0000_0000_0000 <= offset * free <= 0x1_0000_0000_0000_0000)
            by (nonlinear_arith)
            requires
                -0x8000_0000 <= offset <= 0x7fff_ffff,
                -0x1_0000_0000 <= free <= 0x1_0000_0000,
        ;
        lemma_trunc_div_small(offset * free, overflow as int, 0x1_0000_0000_0000_0000);
    }
    let q = div_trunc(offset as i128 * free as i128, overflow as i128);
    sat_wide(track_start as i128 + q)
}

/// The vertical and the horizontal scrollbar, each as track and handle, if
/// shown.
pub fn scrollbars(
    state: ScrollableState,
    mode: ScrollableMode,
    l_size: (i32, i32),
    vdet: Details,
    scale: Scale,
) -> (r: (Option<(Details, Details)>, Option<(Details, Details)>))
    ensures
        r.0 == side_bar(state, mode, l_size, vdet, scale),
        r.1 == bottom_bar(state, mode, l_size, vdet, scale),
{
    let (l_w, l_h) = l_size;
    let (vert, horiz) = mode.bools();
    let sw = scale.apply(SCROLLBAR_WIDTH);
    let sl = scale.apply(SCROLLBAR_LENGTH);
    let side = if vert && l_h > vdet.ah {
        let tx = sat_i32(vdet.x as i64 + vdet.aw as i64);
        let track = Details { x: tx, y: vdet.y, aw: sw, ah: vdet.ah };
        let hy = handle_pos(
            vdet.y,
            state.scroll_y,
            vdet.ah as i64 - sl as i64,
            l_h as i64 - vdet.ah as i64,
        );
        Some((track, Details { x: tx, y: hy, aw: sw, ah: sl }))
    } else {
        None
    };
    let bottom = if horiz && l_w > vdet.aw {
        let ty = sat_i32(vdet.y as i64 + vdet.ah as i64);
        let track = Details { x: vdet.x, y: ty, aw: vdet.aw, ah: sw };
        let hx = handle_pos(
            vdet.x,
            state.scroll_x,
            vdet.aw as i64 - sl as i64,
            l_w as i64 - vdet.aw as i64,
        );
        Some((track, Details { x: hx, y: ty, aw: sl, ah: sw }))
    } else {
        None
    };
    (side, bottom)
}

/// [`clamp_offset`], computed.
fn clamp_to(v: i64, bound: i64) -> (r: i64)
    ensures
        r == clamp_offset(v as int, bound as int),
{
    let m = if v < bound {
        v
    } else {
        bound
    };
    if m > 0 {
        m
    } else {
        0
    }
}

/// [`drag_offset`], computed.
fn drag_to(before: i32, travel: i64, overflow: i64, free_track: i64) -> (r: i32)
    requires
        -0x1_0000_0000 <= travel <= 0x1_0000_0000,
        -0x1_0000_0000 <= overflow <= 0x1_0000_0000,
    ensures
        r == drag_offset(before as int, travel as int, overflow as int, free_track as int),
{
    if free_track > 0 {
        proof {
            assert(-0x1_0000_0000_0000_0000 <= travel * overflow <= 0x1_0000_0000_0000_0000)
                by (nonlinear_arith)
                requires
                    -0x1_0000_0000 <= travel <= 0x1_0000_0000,
                    -0x1_0000_0000 <= overflow <= 0x1_0000_0000,
            ;
            lemma_trunc_div_small(travel * overflow, free_track as int, 0x1_0000_0000_0000_0000);
        }
        let q = div_trunc(travel as i128 * overflow as i128, free_track as i128);
        sat_wide(before as i128 + q)
    } else {
        before
    }
}

/// The scrolling state machine: the state after `e`, for content of size
/// `l_size` in the region `det`.
///
/// A wheel notch scrolls by a fixed step, vertically when the mode scrolls
/// vertically, else horizontally, and not at all when it scrolls neither
/// way; each offset the mode scrolls is then held to `[0, content - view]`.
/// A click on a handle starts a drag, a held pointer moves the dragged
/// offset (held to the same bound), and a release ends the drag.
pub fn step(
    st: ScrollableState,
    mode: ScrollableMode,
    l_size: (i32, i32),
    det: Details,
    scale: Scale,
    e: Event,
) -> (r: ScrollableState)
    ensures
        r == scroll_step(st, mode, l_size, det, scale, e),
{
    let (l_w, l_h) = l_size;
    let (vert, horiz) = mode.bools();
    let sl = scale.apply(SCROLLBAR_LENGTH);
    let vdet = view_of(det, scale, mode, l_size);
    match e {
        Event::MouseEvent(MouseEvent::Scroll { amount, .. }) => {
            let delta = sat_i32(amount as i64 * WHEEL_STEP as i64);
            let bx = sat_i32(l_w as i64 - vdet.aw as i64) as i64;
            let by = sat_i32(l_h as i64 - vdet.ah as i64) as i64;
            if vert {
                ScrollableState {
                    scroll_x: if horiz {
                        clamp_to(st.scroll_x as i64, bx) as i32
                    } else {
                        st.scroll_x
                    },
                    scroll_y: clamp_to(sat_i32(st.scroll_y as i64 - delta as i64) as i64, by) as i32,
                    action: st.action,
                }
            } else if horiz {
                ScrollableState {
                    scroll_x: clamp_to(sat_i32(st.scroll_x as i64 - delta as i64) as i64, bx) as i32,
                    scroll_y: st.scroll_y,
                    action: st.action,
                }
            } else {
                st
            }
        },
        Event::MouseEvent(MouseEvent::MouseClick { x, y }) => {
            let (side, bottom) = scrollbars(st, mode, l_size, vdet, scale);
            let a1 = match side {
                Some((_, handle)) => if handle.is_inside(x, y) {
                    ScrollbarAction::ScrollingYFrom { before: st.scroll_y, drag_start_c: y }
                } else {
                    st.action
                },
                None => st.action,
            };
            let a2 = match bottom {
                Some((_, handle)) => if handle.is_inside(x, y) {
                    ScrollbarAction::ScrollingXFrom { before: st.scroll_x, drag_start_c: x }
                } else {
                    a1
                },
                None => a1,
            };
            ScrollableState { scroll_x: st.scroll_x, scroll_y: st.scroll_y, action: a2 }
        },
        Event::MouseEvent(MouseEvent::MouseHeld { x, y }) => {
            match st.action {
                ScrollbarAction::ScrollingXFrom { before, drag_start_c } => {
                    let og = drag_to(
                        before,
                        x as i64 - drag_start_c as i64,
                        l_w as i64 - vdet.aw as i64,
                        vdet.aw as i64 - sl as i64,
                    );
                    let bound = sat_i32(l_w as i64 - vdet.aw as i64);
                    ScrollableState {
                        scroll_x: clamp_to(og as i64, bound as i64) as i32,
                        scroll_y: st.scroll_y,
                        action: st.action,
                    }
                },
                ScrollbarAction::ScrollingYFrom { before, drag_start_c } => {
                    let og = drag_to(
                        before,
                        y as i64 - drag_start_c as i64,
                        l_h as i64 - vdet.ah as i64,
                        vdet.ah as i64 - sl as i64,
                    );
                    let bound = sat_i32(l_h as i64 - vdet.ah as i64);
                    ScrollableState {
                        scroll_x: st.scroll_x,
                        scroll_y: clamp_to(og as i64, bound as i64) as i32,
                        action: st.action,
                    }
                },
                ScrollbarAction::Idle => st,
            }
        },
        Event::MouseEvent(MouseEvent::MouseRelease { .. }) => ScrollableState {
            scroll_x: st.scroll_x,
            scroll_y: st.scroll_y,
            action: ScrollbarAction::Idle,
        },
        Event::KeyboardEvent(..) => st,
    }
}

/// A component whose content may be larger than its region: the content is
/// shifted by the scroll offset, and scrollbars show where it is.
#[derive(Clone, Debug)]
pub struct Scrollable<L> {
    pub state: ScrollableState,
    pub mode: ScrollableMode,
    pub layable: L,
}

impl<L: Layable> Scrollable<L> {
    /// A scrollable over `layable`, which is cropped to the region.
    pub fn new(state: ScrollableState, mode: ScrollableMode, layable: L) -> (r: Scrollable<Crop<L>>)
        ensures
            r.state == state,
            r.mode == mode,
            r.layable.layable == layable,
    {
        Scrollable::new_uncropped(state, mode, Crop::new(layable))
    }

    /// A scrollable over `layable`, which may draw outside the region.
    pub fn new_uncropped(state: ScrollableState, mode: ScrollableMode, layable: L) -> (r: Self)
        ensures
            r == (Scrollable { state, mode, layable }),
    {
        Scrollable { state, mode, layable }
    }

    /// The region the content is given.
    fn l_det(&self, vdet: Details, scale: Scale) -> (r: Details)
        ensures
            r == content_det(self.state, vdet, scale),
    {
        view_l_det(vdet, scale.apply(self.state.scroll_x), scale.apply(self.state.scroll_y))
    }
}

impl<L: Layable> Layable for Scrollable<L> {
    type Model = (ScrollableState, ScrollableMode, L::Model);

    open spec fn model(&self) -> (ScrollableState, ScrollableMode, L::Model) {
        (self.state, self.mode, self.layable.model())
    }

    open spec fn m_size(m: (ScrollableState, ScrollableMode, L::Model)) -> (i32, i32) {
        L::m_size(m.2)
    }

    open spec fn m_render(
        m: (ScrollableState, ScrollableMode, L::Model),
        det: Details,
        scale: Scale,
    ) -> Seq<Draw> {
        let (st, mode, lm) = m;
        let l_size = L::m_size(lm);
        let vdet = scroll_view(det, scale, mode, l_size);
        L::m_render(lm, content_det(st, vdet, scale), scale) + bar_draws(
            side_bar(st, mode, l_size, vdet, scale),
        ) + bar_draws(bottom_bar(st, mode, l_size, vdet, scale))
    }

    open spec fn m_tick(m: (ScrollableState, ScrollableMode, L::Model)) -> (
        ScrollableState,
        ScrollableMode,
        L::Model,
    ) {
        (m.0, m.1, L::m_tick(m.2))
    }

    open spec fn m_pass(
        m: (ScrollableState, ScrollableMode, L::Model),
        events: Seq<Event>,
        det: Details,
        scale: Scale,
    ) -> ((ScrollableState, ScrollableMode, L::Model), Seq<ReturnEvent>) {
        let (st, lm, rets) = scroll_pass::<L>(m.0, m.1, m.2, events, det, scale);
        ((st, m.1, lm), rets)
    }

    fn size(&self) -> (r: (i32, i32)) {
        self.layable.size()
    }

    fn render(&self, det: Details, scale: Scale, out: &mut Vec<Draw>) {
        let l_size = self.layable.size();
        let vdet = view_of(det, scale, self.mode, l_size);
        let cdet = self.l_det(vdet, scale);
        self.layable.render(cdet, scale, out);
        let (side, bottom) = scrollbars(self.state, self.mode, l_size, vdet, scale);
        push_bar(side, out);
        push_bar(bottom, out);
        assert(out@ =~= old(out)@ + Self::m_render(self.model(), det, scale));
    }

    fn tick(&mut self) {
        self.layable.tick();
    }

    fn pass_events(
        &mut self,
        events: &Vec<Event>,
        det: Details,
        scale: Scale,
        ret_events: &mut Vec<ReturnEvent>,
    ) {
        let ghost st0 = self.state;
        let ghost lm0 = self.layable.model();
        let ghost rets0 = ret_events@;
        let mut i: usize = 0;
        proof {
            assert(events@.take(0) =~= Seq::<Event>::empty());
            assert(ret_events@ =~= rets0 + Seq::<ReturnEvent>::empty());
        }
        while i < events.len()
            invariant
                i <= events@.len(),
                self.mode == old(self).mode,
                ({
                    let (st, lm, rets) = scroll_pass::<L>(
                        st0,
                        self.mode,
                        lm0,
                        events@.take(i as int),
                        det,
                        scale,
                    );
                    &&& self.state == st
                    &&& self.layable.model() == lm
                    &&& ret_events@ == rets0 + rets
                }),
            decreases events@.len() - i,
        {
            let e = events[i];
            proof {
                assert(events@.take(i + 1).drop_last() =~= events@.take(i as int));
            }
            let l_size = self.layable.size();
            let vdet = view_of(det, scale, self.mode, l_size);
            self.state = step(self.state, self.mode, l_size, det, scale, e);
            let cdet = self.l_det(vdet, scale);
            let one: Vec<Event> = vec![e];
            proof {
                assert(one@ =~= seq![e]);
            }
            let rets = pass_events_simple(&mut self.layable, &one, cdet, scale);
            let mut k: usize = 0;
            let ghost before = ret_events@;
            while k < rets.len()
                invariant
                    k <= rets@.len(),
                    ret_events@ == before + rets@.take(k as int),
                decreases rets@.len() - k,
            {
                ret_events.push(rets[k]);
                proof {
                    assert(rets@.take(k + 1) =~= rets@.take(k as int).push(rets@[k as int]));
                }
                k = k + 1;
            }
            proof {
                assert(rets@.take(rets@.len() as int) =~= rets@);
                let (st, lm, rs) = scroll_pass::<L>(
                    st0,
                    self.mode,
                    lm0,
                    events@.take(i + 1),
                    det,
                    scale,
                );
                assert(ret_events@ =~= rets0 + rs);
            }
            i = i + 1;
        }
        proof {
            assert(events@.take(events@.len() as int) =~= events@);
        }
    }
}

/// Appends the rectangles of a scrollbar, if shown.
fn push_bar(bar: Option<(Details, Details)>, out: &mut Vec<Draw>)
    ensures
        final(out)@ == old(out)@ + bar_draws(bar),
{
    match bar {
        Some((t, h)) => {
            out.push(Draw::Rect { x: t.x, y: t.y, w: t.aw, h: t.ah, color: color(33, 35, 38, 255) });
            out.push(
                Draw::Rect { x: h.x, y: h.y, w: h.aw, h: h.ah, color: color(106, 113, 122, 255) },
            );
        },
        None => {},
    }
    assert(out@ =~= old(out)@ + bar_draws(bar));
}

/// However many wheel events arrive, the vertical offset of a vertical
/// scrollable stays within `[0, content - region]`, and it reaches the far end
/// when the wheel has moved far enough toward it.
pub proof fn law_scroll_clamped(
    st: ScrollableState,
    l_size: (i32, i32),
    det: Details,
    scale: Scale,
    x: i32,
    y: i32,
    amount: i32,
)
    requires
        0 <= det.ah <= l_size.1,
        0 <= st.scroll_y,
    ensures
        ({
            let r = scroll_step(
                st,
                ScrollableMode::Vertical,
                l_size,
                det,
                scale,
                Event::MouseEvent(MouseEvent::Scroll { x, y, amount }),
            );
            &&& 0 <= r.scroll_y <= l_size.1 - det.ah
            &&& (st.scroll_y - amount * WHEEL_STEP >= l_size.1 - det.ah ==> r.scroll_y == l_size.1
                - det.ah)
        }),
{
}

} // verus!
