use vstd::prelude::*;

use crate::details::{Details, Scale};
use crate::event::{Event, MouseEvent, ReturnEvent};
use crate::layable::{first_of, pass_one, Draw, Layable};

verus! {

/// What a click produces, given where it landed.
pub trait OnClick {
    spec fn spec_on_click(&self, at: (i32, i32)) -> ReturnEvent;

    fn on_click(&self, at: (i32, i32)) -> (r: ReturnEvent)
        ensures
            r == self.spec_on_click(at),
    ;
}

/// A fixed return event answers every click.
impl OnClick for ReturnEvent {
    open spec fn spec_on_click(&self, at: (i32, i32)) -> ReturnEvent {
        *self
    }

    fn on_click(&self, at: (i32, i32)) -> (r: ReturnEvent) {
        *self
    }
}

/// Turns clicks inside its region into a return event. Unless it is a
/// fallback, it answers a click itself and the child does not see it; a
/// fallback lets the child answer first and answers only when the child
/// gives nothing.
#[derive(Clone, Debug)]
pub struct Clickable<C, F> {
    pub comp: C,
    pub gen_ret: F,
    pub fallback: bool,
}

/// The clickable's own answer to `e`: a click inside `det` produces its event.
pub open spec fn click_response<F: OnClick>(f: F, e: Event, det: Details) -> Option<ReturnEvent> {
    match e {
        Event::MouseEvent(MouseEvent::MouseClick { x, y }) => if det.spec_is_inside(
            x as int,
            y as int,
        ) {
            Some(f.spec_on_click((x, y)))
        } else {
            None
        },
        _ => None,
    }
}

/// The child's model and the results after `events`, one at a time.
pub open spec fn click_pass<C: Layable, F: OnClick>(
    cm: C::Model,
    f: F,
    fallback: bool,
    events: Seq<Event>,
    det: Details,
    scale: Scale,
) -> (C::Model, Seq<ReturnEvent>)
    decreases events.len(),
{
    if events.len() == 0 {
        (cm, seq![])
    } else {
        let (cm1, rets) = click_pass::<C, F>(cm, f, fallback, events.drop_last(), det, scale);
        let e = events.last();
        let own = click_response(f, e, det);
        if !fallback && own is Some {
            (cm1, rets.push(own->0))
        } else {
            let (cm2, cr) = C::m_pass(cm1, seq![e], det, scale);
            match first_of(cr) {
                Some(r) => (cm2, rets.push(r)),
                None => match own {
                    Some(r) => (cm2, rets.push(r)),
                    None => (cm2, rets),
                },
            }
        }
    }
}

impl<C: Layable, F: OnClick> Clickable<C, F> {
    pub fn new(gen_ret: F, comp: C) -> (r: Self)
        ensures
            r == (Clickable { comp, gen_ret, fallback: false }),
    {
        Clickable { comp, gen_ret, fallback: false }
    }

    pub fn new_fallback(gen_ret: F, comp: C) -> (r: Self)
        ensures
            r == (Clickable { comp, gen_ret, fallback: true }),
    {
        Clickable { comp, gen_ret, fallback: true }
    }

    /// The child.
    pub fn take(self) -> (r: C)
        ensures
            r == self.comp,
    {
        self.comp
    }

    fn respond(&self, e: Event, det: Details) -> (r: Option<ReturnEvent>)
        ensures
            r == click_response(self.gen_ret, e, det),
    {
        match e {
            Event::MouseEvent(MouseEvent::MouseClick { x, y }) => {
                if det.is_inside(x, y) {
                    Some(self.gen_ret.on_click((x, y)))
                } else {
                    None
                }
            },
            _ => None,
        }
    }
}

impl<C: Layable, F: OnClick> Layable for Clickable<C, F> {
    type Model = (C::Model, F, bool);

    open spec fn model(&self) -> (C::Model, F, bool) {
        (self.comp.model(), self.gen_ret, self.fallback)
    }

    open spec fn m_size(m: (C::Model, F, bool)) -> (i32, i32) {
        C::m_size(m.0)
    }

    open spec fn m_render(m: (C::Model, F, bool), det: Details, scale: Scale) -> Seq<Draw> {
        C::m_render(m.0, det, scale)
    }

    open spec fn m_tick(m: (C::Model, F, bool)) -> (C::Model, F, bool) {
        (C::m_tick(m.0), m.1, m.2)
    }

    open spec fn m_pass(m: (C::Model, F, bool), events: Seq<Event>, det: Details, scale: Scale) -> (
        (C::Model, F, bool),
        Seq<ReturnEvent>,
    ) {
        let (cm, rets) = click_pass::<C, F>(m.0, m.1, m.2, events, det, scale);
        ((cm, m.1, m.2), rets)
    }

    fn size(&self) -> (r: (i32, i32)) {
        self.comp.size()
    }

    fn render(&self, det: Details, scale: Scale, out: &mut Vec<Draw>) {
        self.comp.render(det, scale, out);
    }

    fn tick(&mut self) {
        self.comp.tick();
    }

    fn pass_events(
        &mut self,
        events: &Vec<Event>,
        det: Details,
        scale: Scale,
        ret_events: &mut Vec<ReturnEvent>,
    ) {
        let ghost cm0 = self.comp.model();
        let ghost rets0 = ret_events@;
        let mut i: usize = 0;
        proof {
            assert(events@.take(0) =~= Seq::<Event>::empty());
            assert(ret_events@ =~= rets0 + Seq::<ReturnEvent>::empty());
        }
        while i < events.len()
            invariant
                i <= events@.len(),
                self.gen_ret == old(self).gen_ret,
                self.fallback == old(self).fallback,
                ({
                    let (cm, rets) = click_pass::<C, F>(
                        cm0,
                        self.gen_ret,
                        self.fallback,
                        events@.take(i as int),
                        det,
                        scale,
                    );
                    &&& self.comp.model() == cm
                    &&& ret_events@ == rets0 + rets
                }),
            decreases events@.len() - i,
        {
            let e = events[i];
            proof {
                assert(events@.take(i + 1).drop_last() =~= events@.take(i as int));
            }
            let own = self.respond(e, det);
            if !self.fallback && own.is_some() {
                match own {
                    Some(r) => ret_events.push(r),
                    None => {},
                }
            } else {
                match pass_one(&mut self.comp, e, det, scale) {
                    Some(r) => ret_events.push(r),
                    None => match own {
                        Some(r) => ret_events.push(r),
                        None => {},
                    },
                }
            }
            proof {
                let (cm, rets) = click_pass::<C, F>(
                    cm0,
                    self.gen_ret,
                    self.fallback,
                    events@.take(i + 1),
                    det,
                    scale,
                );
                assert(ret_events@ =~= rets0 + rets);
            }
            i = i + 1;
        }
        proof {
            assert(events@.take(events@.len() as int) =~= events@);
        }
    }
}



/// What a click may produce: a return event, or nothing.
pub trait OptionalResponse {
    spec fn spec_respond(&self) -> Option<ReturnEvent>;

    fn respond(&self) -> (r: Option<ReturnEvent>)
        ensures
            r == self.spec_respond(),
    ;
}

/// A fixed answer, or none, for every click.
impl OptionalResponse for Option<ReturnEvent> {
    open spec fn spec_respond(&self) -> Option<ReturnEvent> {
        *self
    }

    fn respond(&self) -> (r: Option<ReturnEvent>) {
        *self
    }
}

/// The results of `events` at a component that answers each click inside
/// `det` as `f` says, in order.
pub open spec fn optional_pass<F: OptionalResponse>(f: F, events: Seq<Event>, det: Details) -> Seq<
    ReturnEvent,
>
    decreases events.len(),
{
    if events.len() == 0 {
        seq![]
    } else {
        let rets = optional_pass(f, events.drop_last(), det);
        match events.last() {
            Event::MouseEvent(MouseEvent::MouseClick { x, y }) => if det.spec_is_inside(
                x as int,
                y as int,
            ) {
                match f.spec_respond() {
                    Some(r) => rets.push(r),
                    None => rets,
                }
            } else {
                rets
            },
            _ => rets,
        }
    }
}

/// Answers clicks inside its region with an event that may be absent; its
/// child is drawn but takes no events.
#[derive(Clone, Debug)]
pub struct OptionalClickable<L, F> {
    pub layable: L,
    pub gen_f: F,
}

impl<L: Layable, F: OptionalResponse> OptionalClickable<L, F> {
    pub fn new(layable: L, gen_f: F) -> (r: Self)
        ensures
            r == (OptionalClickable { layable, gen_f }),
    {
        OptionalClickable { layable, gen_f }
    }
}

impl<L: Layable, F: OptionalResponse> Layable for OptionalClickable<L, F> {
    type Model = (L::Model, F);

    open spec fn model(&self) -> (L::Model, F) {
        (self.layable.model(), self.gen_f)
    }

    open spec fn m_size(m: (L::Model, F)) -> (i32, i32) {
        L::m_size(m.0)
    }

    open spec fn m_render(m: (L::Model, F), det: Details, scale: Scale) -> Seq<Draw> {
        L::m_render(m.0, det, scale)
    }

    open spec fn m_tick(m: (L::Model, F)) -> (L::Model, F) {
        (L::m_tick(m.0), m.1)
    }

    open spec fn m_pass(m: (L::Model, F), events: Seq<Event>, det: Details, scale: Scale) -> (
        (L::Model, F),
        Seq<ReturnEvent>,
    ) {
        (m, optional_pass(m.1, events, det))
    }

    fn size(&self) -> (r: (i32, i32)) {
        self.layable.size()
    }

    fn render(&self, det: Details, scale: Scale, out: &mut Vec<Draw>) {
        self.layable.render(det, scale, out);
    }

    fn tick(&mut self) {
        self.layable.tick();
    }

    fn pass_events(
        &mut self,
        events: &Vec<Event>,
        det: Details,
        scale: Scale,
        ret_events: &mut Vec<ReturnEvent>,
    ) {
        let ghost rets0 = ret_events@;
        let mut i: usize = 0;
        proof {
            assert(events@.take(0) =~= Seq::<Event>::empty());
            assert(ret_events@ =~= rets0 + Seq::<ReturnEvent>::empty());
        }
        while i < events.len()
            invariant
                i <= events@.len(),
                ret_events@ == rets0 + optional_pass(self.gen_f, events@.take(i as int), det),
            decreases events@.len() - i,
        {
            let e = events[i];
            proof {
                assert(events@.take(i + 1).drop_last() =~= events@.take(i as int));
            }
            match e {
                Event::MouseEvent(MouseEvent::MouseClick { x, y }) => {
                    if det.is_inside(x, y) {
                        match self.gen_f.respond() {
                            Some(r) => ret_events.push(r),
                            None => {},
                        }
                    }
                },
                _ => {},
            }
            proof {
                assert(ret_events@ =~= rets0 + optional_pass(self.gen_f, events@.take(i + 1), det));
            }
            i = i + 1;
        }
        proof {
            assert(events@.take(events@.len() as int) =~= events@);
        }
    }
}

} // verus!
