use vstd::prelude::*;

use crate::details::{Details, Scale};
use crate::event::{Event, ReturnEvent};
use crate::layable::{pass_one, Draw, Layable};

verus! {

/// Two components drawn in the same region, the foreground over the
/// background. The foreground has first refusal of each event.
#[derive(Clone, Debug)]
pub struct Overlay<A, B> {
    pub foreground: A,
    pub background: B,
}

/// The models of an overlay's two layers after `events`, and the results:
/// for each event, the foreground's first result if it gave any, else the
/// background's first result, if any.
pub open spec fn overlay_pass<A: Layable, B: Layable>(
    fm: A::Model,
    bm: B::Model,
    events: Seq<Event>,
    det: Details,
    scale: Scale,
) -> (A::Model, B::Model, Seq<ReturnEvent>)
    decreases events.len(),
{
    if events.len() == 0 {
        (fm, bm, seq![])
    } else {
        let (fm1, bm1, rets) = overlay_pass::<A, B>(fm, bm, events.drop_last(), det, scale);
        let e = events.last();
        let (fm2, fr) = A::m_pass(fm1, seq![e], det, scale);
        if fr.len() > 0 {
            (fm2, bm1, rets.push(fr[0]))
        } else {
            let (bm2, br) = B::m_pass(bm1, seq![e], det, scale);
            if br.len() > 0 {
                (fm2, bm2, rets.push(br[0]))
            } else {
                (fm2, bm2, rets)
            }
        }
    }
}

impl<A: Layable, B: Layable> Overlay<A, B> {
    pub fn new(background: B, foreground: A) -> (r: Self)
        ensures
            r.foreground == foreground,
            r.background == background,
    {
        Overlay { foreground, background }
    }
}

impl<A: Layable, B: Layable> Layable for Overlay<A, B> {
    type Model = (A::Model, B::Model);

    open spec fn model(&self) -> (A::Model, B::Model) {
        (self.foreground.model(), self.background.model())
    }

    open spec fn m_size(m: (A::Model, B::Model)) -> (i32, i32) {
        let (aw, ah) = A::m_size(m.0);
        let (bw, bh) = B::m_size(m.1);
        (if aw > bw {
            aw
        } else {
            bw
        }, if ah > bh {
            ah
        } else {
            bh
        })
    }

    open spec fn m_render(m: (A::Model, B::Model), det: Details, scale: Scale) -> Seq<Draw> {
        B::m_render(m.1, det, scale) + A::m_render(m.0, det, scale)
    }

    open spec fn m_tick(m: (A::Model, B::Model)) -> (A::Model, B::Model) {
        (A::m_tick(m.0), B::m_tick(m.1))
    }

    open spec fn m_pass(m: (A::Model, B::Model), events: Seq<Event>, det: Details, scale: Scale) -> (
        (A::Model, B::Model),
        Seq<ReturnEvent>,
    ) {
        let (fm, bm, rets) = overlay_pass::<A, B>(m.0, m.1, events, det, scale);
        ((fm, bm), rets)
    }

    fn size(&self) -> (r: (i32, i32)) {
        let (aw, ah) = self.foreground.size();
        let (bw, bh) = self.background.size();
        (if aw > bw {
            aw
        } else {
            bw
        }, if ah > bh {
            ah
        } else {
            bh
        })
    }

    fn render(&self, det: Details, scale: Scale, out: &mut Vec<Draw>) {
        self.background.render(det, scale, out);
        self.foreground.render(det, scale, out);
        assert(out@ =~= old(out)@ + Self::m_render(self.model(), det, scale));
    }

    fn tick(&mut self) {
        self.foreground.tick();
        self.background.tick();
    }

    fn pass_events(
        &mut self,
        events: &Vec<Event>,
        det: Details,
        scale: Scale,
        ret_events: &mut Vec<ReturnEvent>,
    ) {
        let ghost fm0 = self.foreground.model();
        let ghost bm0 = self.background.model();
        let ghost rets0 = ret_events@;
        let mut i: usize = 0;
        proof {
            assert(events@.take(0) =~= Seq::<Event>::empty());
            assert(ret_events@ =~= rets0 + Seq::<ReturnEvent>::empty());
        }
        while i < events.len()
            invariant
                i <= events@.len(),
                ({
                    let (fm, bm, rets) = overlay_pass::<A, B>(
                        fm0,
                        bm0,
                        events@.take(i as int),
                        det,
                        scale,
                    );
                    &&& self.foreground.model() == fm
                    &&& self.background.model() == bm
                    &&& ret_events@ == rets0 + rets
                }),
            decreases events@.len() - i,
        {
            let e = events[i];
            proof {
                assert(events@.take(i + 1).drop_last() =~= events@.take(i as int));
            }
            match pass_one(&mut self.foreground, e, det, scale) {
                Some(r) => {
                    ret_events.push(r);
                },
                None => {
                    match pass_one(&mut self.background, e, det, scale) {
                        Some(r) => {
                            ret_events.push(r);
                        },
                        None => {},
                    }
                },
            }
            proof {
                let (fm, bm, rets) = overlay_pass::<A, B>(
                    fm0,
                    bm0,
                    events@.take(i + 1),
                    det,
                    scale,
                );
                assert(ret_events@ =~= rets0 + rets);
            }
            i = i + 1;
        }
        proof {
            assert(events@.take(events@.len() as int) =~= events@);
        }
    }
}

/// When the foreground claims an event, the background never sees it and the
/// foreground's result is the only one handed up.
pub proof fn law_overlay_precedence<A: Layable, B: Layable>(
    fm: A::Model,
    bm: B::Model,
    e: Event,
    det: Details,
    scale: Scale,
)
    requires
        A::m_pass(fm, seq![e], det, scale).1.len() > 0,
    ensures
        overlay_pass::<A, B>(fm, bm, seq![e], det, scale) == (
            A::m_pass(fm, seq![e], det, scale).0,
            bm,
            seq![A::m_pass(fm, seq![e], det, scale).1[0]],
        ),
{
    let s = seq![e];
    assert(s.drop_last() =~= Seq::<Event>::empty());
    assert(s.last() == e);
    assert(overlay_pass::<A, B>(fm, bm, s.drop_last(), det, scale) == (
        fm,
        bm,
        Seq::<ReturnEvent>::empty(),
    ));
    assert(Seq::<ReturnEvent>::empty().push(A::m_pass(fm, seq![e], det, scale).1[0]) =~= seq![
        A::m_pass(fm, seq![e], det, scale).1[0],
    ]);
}

} // verus!
