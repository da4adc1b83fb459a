use vstd::prelude::*;

use crate::details::{scaled, Details, Scale};
use crate::event::{Event, ReturnEvent};

verus! {

/// A colour, as red, green, blue and alpha.
#[derive(Clone, Copy, Debug, PartialEq, Eq, Structural, Hash)]
pub struct Rgba {
    pub r: u8,
    pub g: u8,
    pub b: u8,
    pub a: u8,
}

pub fn color(r: u8, g: u8, b: u8, a: u8) -> (c: Rgba)
    ensures
        c == (Rgba { r, g, b, a }),
{
    Rgba { r, g, b, a }
}

/// One primitive operation for the renderer, in window coordinates.
#[derive(Clone, Copy, Debug, PartialEq, Eq, Hash)]
pub enum Draw {
    /// a filled rectangle
    Rect { x: i32, y: i32, w: i32, h: i32, color: Rgba },
    /// from here on, draw only inside the region
    PushClip(Details),
    /// ends the innermost clip
    PopClip,
}

/// The interface of every component: its preferred size, how it draws into a
/// region at a scale, how it advances a frame, and how it takes a batch of
/// input events and hands results up.
///
/// A component is described by its model: what it holds, as a value. Its
/// behaviour is stated as functions of that model, and each operation is
/// held to them.
pub trait Layable: Sized {
    type Model;

    spec fn model(&self) -> Self::Model;

    /// the preferred size, independent of any region
    spec fn m_size(m: Self::Model) -> (i32, i32);

    /// what drawing into `det` at `scale` produces
    spec fn m_render(m: Self::Model, det: Details, scale: Scale) -> Seq<Draw>;

    /// the model after one frame
    spec fn m_tick(m: Self::Model) -> Self::Model;

    /// the model after a batch of events, and the results handed up, in order
    spec fn m_pass(m: Self::Model, events: Seq<Event>, det: Details, scale: Scale) -> (
        Self::Model,
        Seq<ReturnEvent>,
    );

    fn size(&self) -> (r: (i32, i32))
        ensures
            r == Self::m_size(self.model()),
    ;

    fn render(&self, det: Details, scale: Scale, out: &mut Vec<Draw>)
        ensures
            final(out)@ == old(out)@ + Self::m_render(self.model(), det, scale),
    ;

    fn tick(&mut self)
        ensures
            final(self).model() == Self::m_tick(old(self).model()),
    ;

    fn pass_events(
        &mut self,
        events: &Vec<Event>,
        det: Details,
        scale: Scale,
        ret_events: &mut Vec<ReturnEvent>,
    )
        ensures
            final(self).model() == Self::m_pass(old(self).model(), events@, det, scale).0,
            final(ret_events)@ == old(ret_events)@ + Self::m_pass(
                old(self).model(),
                events@,
                det,
                scale,
            ).1,
    ;
}

/// Passes `events` to `l` and returns what it hands up.
pub fn pass_events_simple<L: Layable>(l: &mut L, events: &Vec<Event>, det: Details, scale: Scale) -> (r:
    Vec<ReturnEvent>)
    ensures
        final(l).model() == L::m_pass(old(l).model(), events@, det, scale).0,
        r@ == L::m_pass(old(l).model(), events@, det, scale).1,
{
    let mut r: Vec<ReturnEvent> = Vec::new();
    l.pass_events(events, det, scale, &mut r);
    proof {
        assert(r@ =~= Seq::<ReturnEvent>::empty() + L::m_pass(old(l).model(), events@, det, scale).1);
    }
    r
}

/// Passes a single event to `l` and returns the first result it hands up.
pub fn pass_one<L: Layable>(l: &mut L, event: Event, det: Details, scale: Scale) -> (r: Option<
    ReturnEvent,
>)
    ensures
        final(l).model() == L::m_pass(old(l).model(), seq![event], det, scale).0,
        r == first_of(L::m_pass(old(l).model(), seq![event], det, scale).1),
{
    let events: Vec<Event> = vec![event];
    proof {
        assert(events@ =~= seq![event]);
    }
    let rets = pass_events_simple(l, &events, det, scale);
    if rets.len() > 0 {
        Some(rets[0])
    } else {
        None
    }
}

/// The first element, if any.
pub open spec fn first_of(s: Seq<ReturnEvent>) -> Option<ReturnEvent> {
    if s.len() > 0 {
        Some(s[0])
    } else {
        None
    }
}

/// Empty space of a fixed size.
#[derive(Clone, Copy, Debug, PartialEq, Eq, Structural, Hash)]
pub struct Space {
    pub w: i32,
    pub h: i32,
}

impl Space {
    pub fn new(w: i32, h: i32) -> (r: Self)
        ensures
            r == (Space { w, h }),
    {
        Space { w, h }
    }
}

impl Layable for Space {
    type Model = Space;

    open spec fn model(&self) -> Space {
        *self
    }

    open spec fn m_size(m: Space) -> (i32, i32) {
        (m.w, m.h)
    }

    open spec fn m_render(m: Space, det: Details, scale: Scale) -> Seq<Draw> {
        seq![]
    }

    open spec fn m_tick(m: Space) -> Space {
        m
    }

    open spec fn m_pass(m: Space, events: Seq<Event>, det: Details, scale: Scale) -> (
        Space,
        Seq<ReturnEvent>,
    ) {
        (m, seq![])
    }

    fn size(&self) -> (r: (i32, i32)) {
        (self.w, self.h)
    }

    fn render(&self, det: Details, scale: Scale, out: &mut Vec<Draw>) {
        assert(out@ =~= out@ + Seq::<Draw>::empty());
    }

    fn tick(&mut self) {
    }

    fn pass_events(
        &mut self,
        events: &Vec<Event>,
        det: Details,
        scale: Scale,
        ret_events: &mut Vec<ReturnEvent>,
    ) {
        assert(ret_events@ =~= ret_events@ + Seq::<ReturnEvent>::empty());
    }
}

/// A plain colour filling whatever region it is given; it asks for no space.
#[derive(Clone, Copy, Debug, PartialEq, Eq, Structural, Hash)]
pub struct Color {
    pub color: Rgba,
}

impl Color {
    pub fn new(color: Rgba) -> (r: Self)
        ensures
            r.color == color,
    {
        Color { color }
    }
}

impl Layable for Color {
    type Model = Color;

    open spec fn model(&self) -> Color {
        *self
    }

    open spec fn m_size(m: Color) -> (i32, i32) {
        (0, 0)
    }

    open spec fn m_render(m: Color, det: Details, scale: Scale) -> Seq<Draw> {
        seq![
            Draw::Rect {
                x: det.x,
                y: det.y,
                w: scaled(det.aw as int, scale) as i32,
                h: scaled(det.ah as int, scale) as i32,
                color: m.color,
            },
        ]
    }

    open spec fn m_tick(m: Color) -> Color {
        m
    }

    open spec fn m_pass(m: Color, events: Seq<Event>, det: Details, scale: Scale) -> (
        Color,
        Seq<ReturnEvent>,
    ) {
        (m, seq![])
    }

    fn size(&self) -> (r: (i32, i32)) {
        (0, 0)
    }

    fn render(&self, det: Details, scale: Scale, out: &mut Vec<Draw>) {
        let w = scale.apply(det.aw);
        let h = scale.apply(det.ah);
        out.push(Draw::Rect { x: det.x, y: det.y, w, h, color: self.color });
        assert(out@ =~= old(out)@ + Self::m_render(self.model(), det, scale));
    }

    fn tick(&mut self) {
    }

    fn pass_events(
        &mut self,
        events: &Vec<Event>,
        det: Details,
        scale: Scale,
        ret_events: &mut Vec<ReturnEvent>,
    ) {
        assert(ret_events@ =~= ret_events@ + Seq::<ReturnEvent>::empty());
    }
}

} // verus!
