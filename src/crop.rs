use vstd::prelude::*;

use crate::details::{add_sat, clamp_i32, scaled, sub_sat, Details, Scale};
use crate::event::{Event, MouseEvent, ReturnEvent};
use crate::layable::{Draw, Layable};

verus! {

/// Whether a cropped component gets `e`: a held pointer always (so that a drag
/// begun inside goes on outside), any other pointer event only inside `det`,
/// keyboard events always.
pub open spec fn crop_lets_through(e: Event, det: Details) -> bool {
    match e {
        Event::MouseEvent(MouseEvent::MouseHeld { .. }) => true,
        Event::MouseEvent(m) => det.spec_is_inside(m.spec_at().0 as int, m.spec_at().1 as int),
        Event::KeyboardEvent(..) => true,
    }
}

/// The events of `events` that a crop over `det` lets through, in order.
pub open spec fn crop_events(events: Seq<Event>, det: Details) -> Seq<Event>
    decreases events.len(),
{
    if events.len() == 0 {
        events
    } else {
        let rest = crop_events(events.drop_last(), det);
        if crop_lets_through(events.last(), det) {
            rest.push(events.last())
        } else {
            rest
        }
    }
}

/// Draws its child clipped to the region it is given, and keeps pointer
/// events from outside that region away from it.
#[derive(Clone, Debug)]
pub struct Crop<L> {
    pub layable: L,
}

impl<L: Layable> Crop<L> {
    pub fn new(layable: L) -> (r: Self)
        ensures
            r.layable == layable,
    {
        Crop { layable }
    }
}

/// Filters `events` down to those a crop over `det` lets through.
fn crop_filter(events: &Vec<Event>, det: Details) -> (r: Vec<Event>)
    ensures
        r@ == crop_events(events@, det),
{
    let mut r: Vec<Event> = Vec::new();
    let mut i: usize = 0;
    while i < events.len()
        invariant
            i <= events@.len(),
            r@ == crop_events(events@.take(i as int), det),
        decreases events@.len() - i,
    {
        let e = events[i];
        let keep = match e {
            Event::MouseEvent(MouseEvent::MouseHeld { .. }) => true,
            Event::MouseEvent(m) => det.is_inside_tuple(m.at()),
            Event::KeyboardEvent(..) => true,
        };
        if keep {
            r.push(e);
        }
        proof {
            let s = events@.take(i as int + 1);
            assert(s.drop_last() =~= events@.take(i as int));
            assert(s.last() == e);
        }
        i = i + 1;
    }
    assert(events@.take(events@.len() as int) =~= events@);
    r
}

/// The clip a crop sets: its region, scaled.
pub open spec fn crop_clip(det: Details, scale: Scale) -> Details {
    Details {
        x: det.x,
        y: det.y,
        aw: scaled(det.aw as int, scale) as i32,
        ah: scaled(det.ah as int, scale) as i32,
    }
}

impl<L: Layable> Layable for Crop<L> {
    type Model = L::Model;

    open spec fn model(&self) -> L::Model {
        self.layable.model()
    }

    open spec fn m_size(m: L::Model) -> (i32, i32) {
        L::m_size(m)
    }

    open spec fn m_render(m: L::Model, det: Details, scale: Scale) -> Seq<Draw> {
        seq![Draw::PushClip(crop_clip(det, scale))] + L::m_render(m, det, scale) + seq![
            Draw::PopClip,
        ]
    }

    open spec fn m_tick(m: L::Model) -> L::Model {
        L::m_tick(m)
    }

    open spec fn m_pass(m: L::Model, events: Seq<Event>, det: Details, scale: Scale) -> (
        L::Model,
        Seq<ReturnEvent>,
    ) {
        L::m_pass(m, crop_events(events, det), det, scale)
    }

    fn size(&self) -> (r: (i32, i32)) {
        self.layable.size()
    }

    fn render(&self, det: Details, scale: Scale, out: &mut Vec<Draw>) {
        let clip = det.mul_size(scale);
        out.push(Draw::PushClip(clip));
        self.layable.render(det, scale, out);
        out.push(Draw::PopClip);
        assert(out@ =~= old(out)@ + Self::m_render(self.model(), det, scale));
    }

    fn tick(&mut self) {
        self.layable.tick();
    }

    fn pass_events(
        &mut self,
        events: &Vec<Event>,
        det: Details,
        scale: Scale,
        ret_events: &mut Vec<ReturnEvent>,
    ) {
        let l_events = crop_filter(events, det);
        self.layable.pass_events(&l_events, det, scale, ret_events);
    }
}

/// Draws its child as though the region began `(base_x, base_y)` further up
/// and left: the child's content appears shifted by that offset.
#[derive(Clone, Debug)]
pub struct ViewOffset<L> {
    pub layable: L,
    pub base_x: i32,
    pub base_y: i32,
}

/// The region a view with offset `(bx, by)` gives its child.
pub open spec fn view_det(det: Details, bx: i32, by: i32) -> Details {
    Details {
        x: clamp_i32(det.x - bx) as i32,
        y: clamp_i32(det.y - by) as i32,
        aw: clamp_i32(det.aw + bx) as i32,
        ah: clamp_i32(det.ah + by) as i32,
    }
}

/// [`view_det`], computed.
pub fn view_l_det(det: Details, bx: i32, by: i32) -> (r: Details)
    ensures
        r == view_det(det, bx, by),
{
    Details {
        x: sub_sat(det.x, bx),
        y: sub_sat(det.y, by),
        aw: add_sat(det.aw, bx),
        ah: add_sat(det.ah, by),
    }
}

impl<L: Layable> ViewOffset<L> {
    pub fn new(layable: L, x: i32, y: i32) -> (r: Self)
        ensures
            r == (ViewOffset { layable, base_x: x, base_y: y }),
    {
        ViewOffset { layable, base_x: x, base_y: y }
    }

    /// The child.
    pub fn take(self) -> (r: L)
        ensures
            r == self.layable,
    {
        self.layable
    }

    /// The region the child is given.
    pub fn l_det(&self, det: Details) -> (r: Details)
        ensures
            r == view_det(det, self.base_x, self.base_y),
    {
        view_l_det(det, self.base_x, self.base_y)
    }
}

impl<L: Layable> Layable for ViewOffset<L> {
    type Model = (L::Model, i32, i32);

    open spec fn model(&self) -> (L::Model, i32, i32) {
        (self.layable.model(), self.base_x, self.base_y)
    }

    open spec fn m_size(m: (L::Model, i32, i32)) -> (i32, i32) {
        L::m_size(m.0)
    }

    open spec fn m_render(m: (L::Model, i32, i32), det: Details, scale: Scale) -> Seq<Draw> {
        L::m_render(m.0, view_det(det, m.1, m.2), scale)
    }

    open spec fn m_tick(m: (L::Model, i32, i32)) -> (L::Model, i32, i32) {
        (L::m_tick(m.0), m.1, m.2)
    }

    open spec fn m_pass(m: (L::Model, i32, i32), events: Seq<Event>, det: Details, scale: Scale) -> (
        (L::Model, i32, i32),
        Seq<ReturnEvent>,
    ) {
        let (lm, rets) = L::m_pass(m.0, events, view_det(det, m.1, m.2), scale);
        ((lm, m.1, m.2), rets)
    }

    fn size(&self) -> (r: (i32, i32)) {
        self.layable.size()
    }

    fn render(&self, det: Details, scale: Scale, out: &mut Vec<Draw>) {
        let d = self.l_det(det);
        self.layable.render(d, scale, out);
    }

    fn tick(&mut self) {
        self.layable.tick();
    }

    fn pass_events(
        &mut self,
        events: &Vec<Event>,
        det: Details,
        scale: Scale,
        ret_events: &mut Vec<ReturnEvent>,
    ) {
        let d = self.l_det(det);
        self.layable.pass_events(events, d, scale, ret_events);
    }
}

} // verus!
