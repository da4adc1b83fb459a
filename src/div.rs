use vstd::prelude::*;

use crate::details::{add_sat, clamp_i32, scaled, Details, Scale};
use crate::event::{event_applies, Event, KeyboardEvent, MouseEvent, ReturnEvent};
use crate::form::UniqueId;
use crate::layable::{pass_events_simple, Draw, Layable};

verus! {

/// Children laid out one after another, top to bottom, or left to right when
/// `horizontal`.
#[derive(Clone, Debug)]
pub struct Div<L> {
    components: Vec<L>,
    horizontal: bool,
}

/// The models of `v`, in order.
pub open spec fn models_of<L: Layable>(v: Seq<L>) -> Seq<L::Model> {
    v.map_values(|c: L| c.model())
}

/// The size of a flow of children: the sum along the flow and the largest
/// across it, each sum saturating.
pub open spec fn flow_size<L: Layable>(ms: Seq<L::Model>, horizontal: bool, n: int) -> (i32, i32)
    decreases n,
{
    if n <= 0 {
        (0, 0)
    } else {
        let (w, h) = flow_size::<L>(ms, horizontal, n - 1);
        let (cw, ch) = L::m_size(ms[n - 1]);
        if !horizontal {
            (if cw > w {
                cw
            } else {
                w
            }, clamp_i32(h + ch) as i32)
        } else {
            (clamp_i32(w + cw) as i32, if ch > h {
                ch
            } else {
                h
            })
        }
    }
}

/// Where the `i`-th child of a flow starts: each child before it moves the
/// position along the flow by its scaled size.
pub open spec fn flow_pos<L: Layable>(
    ms: Seq<L::Model>,
    horizontal: bool,
    det: Details,
    scale: Scale,
    i: int,
) -> (i32, i32)
    decreases i,
{
    if i <= 0 {
        (det.x, det.y)
    } else {
        let (x, y) = flow_pos::<L>(ms, horizontal, det, scale, i - 1);
        let (cw, ch) = L::m_size(ms[i - 1]);
        if !horizontal {
            (x, clamp_i32(y + scaled(ch as int, scale)) as i32)
        } else {
            (clamp_i32(x + scaled(cw as int, scale)) as i32, y)
        }
    }
}

/// The region the `i`-th child of a flow is given: its own size along the
/// flow, the container's scaled size across it.
pub open spec fn flow_child_det<L: Layable>(
    ms: Seq<L::Model>,
    horizontal: bool,
    det: Details,
    scale: Scale,
    i: int,
) -> Details {
    let (x, y) = flow_pos::<L>(ms, horizontal, det, scale, i);
    let (cw, ch) = L::m_size(ms[i]);
    Details {
        x,
        y,
        aw: if !horizontal {
            scaled(det.aw as int, scale) as i32
        } else {
            cw
        },
        ah: if horizontal {
            scaled(det.ah as int, scale) as i32
        } else {
            ch
        },
    }
}

/// The first `n` children drawn, each in its region.
pub open spec fn flow_render<L: Layable>(
    ms: Seq<L::Model>,
    horizontal: bool,
    det: Details,
    scale: Scale,
    n: int,
) -> Seq<Draw>
    decreases n,
{
    if n <= 0 {
        seq![]
    } else {
        flow_render::<L>(ms, horizontal, det, scale, n - 1) + L::m_render(
            ms[n - 1],
            flow_child_det::<L>(ms, horizontal, det, scale, n - 1),
            scale,
        )
    }
}

/// A pointer event given to the children from the `k`-th on: each child
/// whose region (laid out from the models `ms0`) holds the pointer gets it,
/// and their results follow one another in child order. `cur` holds the
/// children's models as they stand.
pub open spec fn flow_pointer<L: Layable>(
    ms0: Seq<L::Model>,
    cur: Seq<L::Model>,
    horizontal: bool,
    e: Event,
    det: Details,
    scale: Scale,
    k: int,
) -> (Seq<L::Model>, Seq<ReturnEvent>)
    decreases ms0.len() - k,
{
    if k < 0 || k >= ms0.len() {
        (cur, seq![])
    } else {
        let d = flow_child_det::<L>(ms0, horizontal, det, scale, k);
        if event_applies(e, d) {
            let (m, r) = L::m_pass(cur[k], seq![e], d, scale);
            let (ms2, rest) = flow_pointer::<L>(ms0, cur.update(k, m), horizontal, e, det, scale, k + 1);
            (ms2, r + rest)
        } else {
            flow_pointer::<L>(ms0, cur, horizontal, e, det, scale, k + 1)
        }
    }
}

/// A keyboard event offered to the children from the `k`-th on, in order,
/// each in its region, until one answers: the models after, and the results
/// of the child that answered.
pub open spec fn flow_key<L: Layable>(
    ms0: Seq<L::Model>,
    cur: Seq<L::Model>,
    horizontal: bool,
    e: Event,
    det: Details,
    scale: Scale,
    k: int,
) -> (Seq<L::Model>, Seq<ReturnEvent>)
    decreases ms0.len() - k,
{
    if k < 0 || k >= ms0.len() {
        (cur, seq![])
    } else {
        let d = flow_child_det::<L>(ms0, horizontal, det, scale, k);
        let (m, r) = L::m_pass(cur[k], seq![e], d, scale);
        if r.len() > 0 {
            (cur.update(k, m), r)
        } else {
            flow_key::<L>(ms0, cur.update(k, m), horizontal, e, det, scale, k + 1)
        }
    }
}

/// One event given to a flow's children: a pointer event to each child
/// whose region holds it, a keyboard event to the children in order until
/// the first one answers.
pub open spec fn flow_one<L: Layable>(
    ms: Seq<L::Model>,
    horizontal: bool,
    e: Event,
    det: Details,
    scale: Scale,
) -> (Seq<L::Model>, Seq<ReturnEvent>) {
    match e {
        Event::MouseEvent(_) => flow_pointer::<L>(ms, ms, horizontal, e, det, scale, 0),
        Event::KeyboardEvent(..) => flow_key::<L>(ms, ms, horizontal, e, det, scale, 0),
    }
}

/// A flow's children after a batch of events, taken one at a time, and
/// the results, in order.
pub open spec fn flow_pass<L: Layable>(
    ms: Seq<L::Model>,
    horizontal: bool,
    events: Seq<Event>,
    det: Details,
    scale: Scale,
) -> (Seq<L::Model>, Seq<ReturnEvent>)
    decreases events.len(),
{
    if events.len() == 0 {
        (ms, seq![])
    } else {
        let (ms1, rets) = flow_pass::<L>(ms, horizontal, events.drop_last(), det, scale);
        let (ms2, r) = flow_one::<L>(ms1, horizontal, events.last(), det, scale);
        (ms2, rets + r)
    }
}

/// The regions of a flow's children, as `child_dets` computes them.
pub open spec fn dets_of<L: Layable>(
    dets: Seq<Details>,
    ms0: Seq<L::Model>,
    horizontal: bool,
    det: Details,
    scale: Scale,
) -> bool {
    &&& dets.len() == ms0.len()
    &&& forall|k: int|
        0 <= k < dets.len() ==> #[trigger] dets[k] == flow_child_det::<L>(
            ms0,
            horizontal,
            det,
            scale,
            k,
        )
}

/// Gives a pointer event to each child whose region holds it.
fn pointer_to_children<L: Layable>(
    comps: &mut Vec<L>,
    dets: &Vec<Details>,
    horizontal: bool,
    e: Event,
    det: Details,
    scale: Scale,
    ret_events: &mut Vec<ReturnEvent>,
)
    requires
        dets_of::<L>(dets@, models_of(old(comps)@), horizontal, det, scale),
    ensures
        ({
            let (ms, rets) = flow_pointer::<L>(
                models_of(old(comps)@),
                models_of(old(comps)@),
                horizontal,
                e,
                det,
                scale,
                0,
            );
            &&& models_of(final(comps)@) == ms
            &&& final(ret_events)@ == old(ret_events)@ + rets
        }),
{
    let ghost ms0 = models_of(comps@);
    let ghost rets0 = ret_events@;
    let ghost target = flow_pointer::<L>(ms0, ms0, horizontal, e, det, scale, 0);
    let one: Vec<Event> = vec![e];
    proof {
        assert(one@ =~= seq![e]);
        assert(ret_events@ =~= rets0 + Seq::<ReturnEvent>::empty());
    }
    let mut k: usize = 0;
    while k < comps.len()
        invariant
            k <= comps@.len(),
            one@ == seq![e],
            ms0.len() == comps@.len(),
            dets_of::<L>(dets@, ms0, horizontal, det, scale),
            flow_pointer::<L>(ms0, models_of(comps@), horizontal, e, det, scale, k as int).0
                == target.0,
            ret_events@ + flow_pointer::<L>(
                ms0,
                models_of(comps@),
                horizontal,
                e,
                det,
                scale,
                k as int,
            ).1 == rets0 + target.1,
        decreases comps@.len() - k,
    {
        let d = dets[k];
        let applies = match e {
            Event::MouseEvent(m) => d.is_inside_tuple(m.at()),
            Event::KeyboardEvent(..) => true,
        };
        let ghost cur = models_of(comps@);
        let ghost before = ret_events@;
        if applies {
            comps[k].pass_events(&one, d, scale, ret_events);
            proof {
                let (m, r) = L::m_pass(cur[k as int], seq![e], d, scale);
                assert(models_of(comps@) =~= cur.update(k as int, m));
                let rest = flow_pointer::<L>(ms0, models_of(comps@), horizontal, e, det, scale, k + 1);
                assert(ret_events@ + rest.1 =~= before + (r + rest.1));
            }
        }
        k = k + 1;
    }
    proof {
        assert(ret_events@ =~= ret_events@ + Seq::<ReturnEvent>::empty());
    }
}

/// Offers a keyboard event to the children in order until one answers.
fn key_to_children<L: Layable>(
    comps: &mut Vec<L>,
    dets: &Vec<Details>,
    horizontal: bool,
    e: Event,
    det: Details,
    scale: Scale,
    ret_events: &mut Vec<ReturnEvent>,
)
    requires
        dets_of::<L>(dets@, models_of(old(comps)@), horizontal, det, scale),
    ensures
        ({
            let (ms, rets) = flow_key::<L>(
                models_of(old(comps)@),
                models_of(old(comps)@),
                horizontal,
                e,
                det,
                scale,
                0,
            );
            &&& models_of(final(comps)@) == ms
            &&& final(ret_events)@ == old(ret_events)@ + rets
        }),
{
    let ghost ms0 = models_of(comps@);
    let ghost rets0 = ret_events@;
    let ghost target = flow_key::<L>(ms0, ms0, horizontal, e, det, scale, 0);
    let one: Vec<Event> = vec![e];
    proof {
        assert(one@ =~= seq![e]);
    }
    let mut found = false;
    let mut k: usize = 0;
    while k < comps.len() && !found
        invariant
            k <= comps@.len(),
            one@ == seq![e],
            ms0.len() == comps@.len(),
            dets_of::<L>(dets@, ms0, horizontal, det, scale),
            !found ==> ret_events@ == rets0 && flow_key::<L>(
                ms0,
                models_of(comps@),
                horizontal,
                e,
                det,
                scale,
                k as int,
            ) == target,
            found ==> models_of(comps@) == target.0 && ret_events@ == rets0 + target.1,
        decreases comps@.len() - k,
    {
        let d = dets[k];
        let ghost cur = models_of(comps@);
        let mut rets = pass_events_simple(&mut comps[k], &one, d, scale);
        proof {
            let (m, r) = L::m_pass(cur[k as int], seq![e], d, scale);
            assert(models_of(comps@) =~= cur.update(k as int, m));
        }
        if rets.len() > 0 {
            ret_events.append(&mut rets);
            found = true;
        }
        k = k + 1;
    }
    proof {
        if !found {
            assert(ret_events@ =~= rets0 + Seq::<ReturnEvent>::empty());
        }
    }
}

impl<L: Layable> Div<L> {
    pub closed spec fn spec_components(&self) -> Seq<L> {
        self.components@
    }

    pub closed spec fn spec_horizontal(&self) -> bool {
        self.horizontal
    }

    /// The model is the children's models and the direction.
    pub proof fn lemma_model(&self)
        ensures
            self.model() == (models_of(self.spec_components()), self.spec_horizontal()),
    {
    }

    pub fn new(horizontal: bool, components: Vec<L>) -> (r: Self)
        ensures
            r.spec_components() == components@,
            r.spec_horizontal() == horizontal,
    {
        Div { components, horizontal }
    }

    pub fn vertical(components: Vec<L>) -> (r: Self)
        ensures
            r.spec_components() == components@,
            !r.spec_horizontal(),
    {
        Self::new(false, components)
    }

    pub fn horizontal(components: Vec<L>) -> (r: Self)
        ensures
            r.spec_components() == components@,
            r.spec_horizontal(),
    {
        Self::new(true, components)
    }

    /// An empty vertical flow.
    pub fn empty() -> (r: Self)
        ensures
            r.spec_components().len() == 0,
            !r.spec_horizontal(),
    {
        Self::new(false, Vec::new())
    }

    /// An empty horizontal flow.
    pub fn empty_horizontal() -> (r: Self)
        ensures
            r.spec_components().len() == 0,
            r.spec_horizontal(),
    {
        Self::new(true, Vec::new())
    }

    /// An empty vertical flow with room for `capacity` children.
    pub fn empty_with_capacity(capacity: usize) -> (r: Self)
        ensures
            r.spec_components().len() == 0,
            !r.spec_horizontal(),
    {
        Self::new(false, Vec::with_capacity(capacity))
    }

    /// An empty horizontal flow with room for `capacity` children.
    pub fn empty_horizontal_with_capacity(capacity: usize) -> (r: Self)
        ensures
            r.spec_components().len() == 0,
            r.spec_horizontal(),
    {
        Self::new(true, Vec::with_capacity(capacity))
    }

    /// This flow, laid out left to right.
    pub fn as_horizontal(self) -> (r: Self)
        ensures
            r.spec_components() == self.spec_components(),
            r.spec_horizontal(),
    {
        Div { components: self.components, horizontal: true }
    }

    /// Adds a child at the end.
    pub fn push(&mut self, next_layable: L)
        ensures
            final(self).spec_components() == old(self).spec_components().push(next_layable),
            final(self).spec_horizontal() == old(self).spec_horizontal(),
    {
        self.components.push(next_layable);
    }

    /// The region each child is given, in order.
    pub fn child_dets(&self, det: Details, scale: Scale) -> (r: Vec<Details>)
        ensures
            r@.len() == self.spec_components().len(),
            forall|i: int|
                0 <= i < r@.len() ==> r@[i] == flow_child_det::<L>(
                    models_of(self.spec_components()),
                    self.spec_horizontal(),
                    det,
                    scale,
                    i,
                ),
    {
        let ghost ms = models_of(self.components@);
        let mut r: Vec<Details> = Vec::new();
        let (mut x, mut y) = (det.x, det.y);
        let mut i: usize = 0;
        while i < self.components.len()
            invariant
                i <= self.components@.len(),
                ms == models_of(self.components@),
                (x, y) == flow_pos::<L>(ms, self.horizontal, det, scale, i as int),
                r@.len() == i,
                forall|k: int|
                    0 <= k < i ==> r@[k] == flow_child_det::<L>(
                        ms,
                        self.horizontal,
                        det,
                        scale,
                        k,
                    ),
            decreases self.components@.len() - i,
        {
            let (cw, ch) = self.components[i].size();
            let cdet = self.child_det(det, scale, x, y, cw, ch);
            r.push(cdet);
            if !self.horizontal {
                y = add_sat(y, scale.apply(ch));
            } else {
                x = add_sat(x, scale.apply(cw));
            }
            i = i + 1;
        }
        r
    }

    fn child_det(&self, det: Details, scale: Scale, x: i32, y: i32, cw: i32, ch: i32) -> (r:
        Details)
        ensures
            r == (Details {
                x,
                y,
                aw: if !self.horizontal {
                    scaled(det.aw as int, scale) as i32
                } else {
                    cw
                },
                ah: if self.horizontal {
                    scaled(det.ah as int, scale) as i32
                } else {
                    ch
                },
            }),
    {
        Details {
            x,
            y,
            aw: if !self.horizontal {
                scale.apply(det.aw)
            } else {
                cw
            },
            ah: if self.horizontal {
                scale.apply(det.ah)
            } else {
                ch
            },
        }
    }
}

impl<L: Layable> Layable for Div<L> {
    type Model = (Seq<L::Model>, bool);

    closed spec fn model(&self) -> (Seq<L::Model>, bool) {
        (models_of(self.components@), self.horizontal)
    }

    open spec fn m_size(m: (Seq<L::Model>, bool)) -> (i32, i32) {
        flow_size::<L>(m.0, m.1, m.0.len() as int)
    }

    open spec fn m_render(m: (Seq<L::Model>, bool), det: Details, scale: Scale) -> Seq<Draw> {
        flow_render::<L>(m.0, m.1, det, scale, m.0.len() as int)
    }

    open spec fn m_tick(m: (Seq<L::Model>, bool)) -> (Seq<L::Model>, bool) {
        (m.0.map_values(|c: L::Model| L::m_tick(c)), m.1)
    }

    open spec fn m_pass(
        m: (Seq<L::Model>, bool),
        events: Seq<Event>,
        det: Details,
        scale: Scale,
    ) -> ((Seq<L::Model>, bool), Seq<ReturnEvent>) {
        let (ms, rets) = flow_pass::<L>(m.0, m.1, events, det, scale);
        ((ms, m.1), rets)
    }

    fn size(&self) -> (r: (i32, i32)) {
        let ghost ms = models_of(self.components@);
        let (mut w, mut h): (i32, i32) = (0, 0);
        let mut i: usize = 0;
        while i < self.components.len()
            invariant
                i <= self.components@.len(),
                ms == models_of(self.components@),
                (w, h) == flow_size::<L>(ms, self.horizontal, i as int),
            decreases self.components@.len() - i,
        {
            let (cw, ch) = self.components[i].size();
            if !self.horizontal {
                w = if cw > w {
                    cw
                } else {
                    w
                };
                h = add_sat(h, ch);
            } else {
                w = add_sat(w, cw);
                h = if ch > h {
                    ch
                } else {
                    h
                };
            }
            i = i + 1;
        }
        (w, h)
    }

    fn render(&self, det: Details, scale: Scale, out: &mut Vec<Draw>) {
        let ghost ms = models_of(self.components@);
        let ghost out0 = out@;
        let (mut x, mut y) = (det.x, det.y);
        let mut i: usize = 0;
        while i < self.components.len()
            invariant
                i <= self.components@.len(),
                ms == models_of(self.components@),
                (x, y) == flow_pos::<L>(ms, self.horizontal, det, scale, i as int),
                out@ == out0 + flow_render::<L>(ms, self.horizontal, det, scale, i as int),
            decreases self.components@.len() - i,
        {
            let (cw, ch) = self.components[i].size();
            let cdet = self.child_det(det, scale, x, y, cw, ch);
            self.components[i].render(cdet, scale, out);
            proof {
                assert(out0 + flow_render::<L>(ms, self.horizontal, det, scale, i + 1) =~= out0
                    + flow_render::<L>(ms, self.horizontal, det, scale, i as int) + L::m_render(
                    ms[i as int],
                    cdet,
                    scale,
                ));
            }
            if !self.horizontal {
                y = add_sat(y, scale.apply(ch));
            } else {
                x = add_sat(x, scale.apply(cw));
            }
            i = i + 1;
        }
    }

    fn tick(&mut self) {
        let ghost ms = models_of(self.components@);
        let mut i: usize = 0;
        while i < self.components.len()
            invariant
                i <= self.components@.len(),
                ms.len() == self.components@.len(),
                ms == models_of(old(self).components@),
                self.horizontal == old(self).horizontal,
                forall|k: int| 0 <= k < i ==> #[trigger] self.components@[k].model() == L::m_tick(ms[k]),
                forall|k: int| i <= k < ms.len() ==> #[trigger] self.components@[k].model() == ms[k],
            decreases self.components@.len() - i,
        {
            self.components[i].tick();
            i = i + 1;
        }
        proof {
            assert(models_of(self.components@) =~= ms.map_values(|c: L::Model| L::m_tick(c)));
        }
    }

    fn pass_events(
        &mut self,
        events: &Vec<Event>,
        det: Details,
        scale: Scale,
        ret_events: &mut Vec<ReturnEvent>,
    ) {
        let ghost ms0 = models_of(self.components@);
        let ghost rets0 = ret_events@;
        let mut i: usize = 0;
        proof {
            assert(events@.take(0) =~= Seq::<Event>::empty());
            assert(ret_events@ =~= rets0 + Seq::<ReturnEvent>::empty());
        }
        while i < events.len()
            invariant
                i <= events@.len(),
                self.horizontal == old(self).horizontal,
                ({
                    let (ms, rets) = flow_pass::<L>(
                        ms0,
                        self.horizontal,
                        events@.take(i as int),
                        det,
                        scale,
                    );
                    &&& models_of(self.components@) == ms
                    &&& ret_events@ == rets0 + rets
                }),
            decreases events@.len() - i,
        {
            let e = events[i];
            proof {
                assert(events@.take(i + 1).drop_last() =~= events@.take(i as int));
            }
            let dets = self.child_dets(det, scale);
            let ghost before = ret_events@;
            match e {
                Event::MouseEvent(_) => pointer_to_children(
                    &mut self.components,
                    &dets,
                    self.horizontal,
                    e,
                    det,
                    scale,
                    ret_events,
                ),
                Event::KeyboardEvent(..) => key_to_children(
                    &mut self.components,
                    &dets,
                    self.horizontal,
                    e,
                    det,
                    scale,
                    ret_events,
                ),
            }
            proof {
                let (ms, rets) = flow_pass::<L>(
                    ms0,
                    self.horizontal,
                    events@.take(i + 1),
                    det,
                    scale,
                );
                assert(ret_events@ =~= rets0 + rets);
            }
            i = i + 1;
        }
        proof {
            assert(events@.take(events@.len() as int) =~= events@);
        }
    }
}

/// A vertical flow of `components`.
pub fn div<L: Layable>(components: Vec<L>) -> (r: Div<L>)
    ensures
        r.spec_components() == components@,
        !r.spec_horizontal(),
{
    Div::new(false, components)
}

/// A horizontal flow of `components`.
pub fn div_h<L: Layable>(components: Vec<L>) -> (r: Div<L>)
    ensures
        r.spec_components() == components@,
        r.spec_horizontal(),
{
    Div::new(true, components)
}



proof fn lemma_flow_pointer_none<L: Layable>(
    ms0: Seq<L::Model>,
    cur: Seq<L::Model>,
    horizontal: bool,
    e: Event,
    det: Details,
    scale: Scale,
    k: int,
)
    requires
        0 <= k,
        forall|i: int|
            k <= i < ms0.len() ==> !event_applies(
                e,
                #[trigger] flow_child_det::<L>(ms0, horizontal, det, scale, i),
            ),
    ensures
        flow_pointer::<L>(ms0, cur, horizontal, e, det, scale, k) == (cur, Seq::<ReturnEvent>::empty()),
    decreases ms0.len() - k,
{
    if k < ms0.len() {
        lemma_flow_pointer_none::<L>(ms0, cur, horizontal, e, det, scale, k + 1);
    }
}

proof fn lemma_flow_pointer_one<L: Layable>(
    ms0: Seq<L::Model>,
    cur: Seq<L::Model>,
    horizontal: bool,
    e: Event,
    det: Details,
    scale: Scale,
    j: int,
    k: int,
)
    requires
        0 <= k <= j < ms0.len(),
        event_applies(e, flow_child_det::<L>(ms0, horizontal, det, scale, j)),
        forall|i: int|
            0 <= i < ms0.len() && i != j ==> !event_applies(
                e,
                #[trigger] flow_child_det::<L>(ms0, horizontal, det, scale, i),
            ),
    ensures
        ({
            let d = flow_child_det::<L>(ms0, horizontal, det, scale, j);
            let (m, r) = L::m_pass(cur[j], seq![e], d, scale);
            flow_pointer::<L>(ms0, cur, horizontal, e, det, scale, k) == (cur.update(j, m), r)
        }),
    decreases j - k,
{
    let d = flow_child_det::<L>(ms0, horizontal, det, scale, j);
    let (m, r) = L::m_pass(cur[j], seq![e], d, scale);
    if k < j {
        lemma_flow_pointer_one::<L>(ms0, cur, horizontal, e, det, scale, j, k + 1);
    } else {
        lemma_flow_pointer_none::<L>(ms0, cur.update(j, m), horizontal, e, det, scale, j + 1);
        assert(r + Seq::<ReturnEvent>::empty() =~= r);
    }
}

/// A pointer event that falls in the region of one child of a flow, and of
/// no other, reaches that child alone: the other children are left as they
/// were, and the flow hands up exactly that child's results.
pub proof fn law_flow_pointer_reaches_only_holder<L: Layable>(
    ms: Seq<L::Model>,
    horizontal: bool,
    m: MouseEvent,
    det: Details,
    scale: Scale,
    j: int,
)
    requires
        0 <= j < ms.len(),
        event_applies(Event::MouseEvent(m), flow_child_det::<L>(ms, horizontal, det, scale, j)),
        forall|i: int|
            0 <= i < ms.len() && i != j ==> !event_applies(
                Event::MouseEvent(m),
                #[trigger] flow_child_det::<L>(ms, horizontal, det, scale, i),
            ),
    ensures
        ({
            let e = Event::MouseEvent(m);
            let d = flow_child_det::<L>(ms, horizontal, det, scale, j);
            let (mj, rj) = L::m_pass(ms[j], seq![e], d, scale);
            flow_pass::<L>(ms, horizontal, seq![e], det, scale) == (ms.update(j, mj), rj)
        }),
{
    let e = Event::MouseEvent(m);
    let s = seq![e];
    assert(s.drop_last() =~= Seq::<Event>::empty());
    assert(s.last() == e);
    assert(flow_pass::<L>(ms, horizontal, s.drop_last(), det, scale) == (
        ms,
        Seq::<ReturnEvent>::empty(),
    ));
    assert(flow_one::<L>(ms, horizontal, e, det, scale) == flow_pointer::<L>(
        ms,
        ms,
        horizontal,
        e,
        det,
        scale,
        0,
    ));
    lemma_flow_pointer_one::<L>(ms, ms, horizontal, e, det, scale, j, 0);
    let d = flow_child_det::<L>(ms, horizontal, det, scale, j);
    let (mj, rj) = L::m_pass(ms[j], seq![e], d, scale);
    assert(Seq::<ReturnEvent>::empty() + rj =~= rj);
}

/// A keyboard event goes to the children in order and stops at the first one
/// that answers: when child `j` answers and none before it does, the flow
/// hands up exactly child `j`'s results, and no child after it sees the event.
pub proof fn law_flow_key_first_responder<L: Layable>(
    ms: Seq<L::Model>,
    horizontal: bool,
    uid: UniqueId,
    key: KeyboardEvent,
    det: Details,
    scale: Scale,
    j: int,
)
    requires
        0 <= j < ms.len(),
        forall|i: int|
            0 <= i < j ==> (#[trigger] L::m_pass(
                ms[i],
                seq![Event::KeyboardEvent(uid, key)],
                flow_child_det::<L>(ms, horizontal, det, scale, i),
                scale,
            )).1.len() == 0,
        L::m_pass(
            ms[j],
            seq![Event::KeyboardEvent(uid, key)],
            flow_child_det::<L>(ms, horizontal, det, scale, j),
            scale,
        ).1.len() > 0,
    ensures
        ({
            let e = Event::KeyboardEvent(uid, key);
            let rj = L::m_pass(ms[j], seq![e], flow_child_det::<L>(ms, horizontal, det, scale, j), scale).1;
            &&& flow_pass::<L>(ms, horizontal, seq![e], det, scale).1 == rj
            &&& forall|i: int|
                j < i < ms.len() ==> #[trigger] flow_pass::<L>(ms, horizontal, seq![e], det, scale).0[i]
                    == ms[i]
        }),
{
    let e = Event::KeyboardEvent(uid, key);
    let s = seq![e];
    assert(s.drop_last() =~= Seq::<Event>::empty());
    assert(s.last() == e);
    assert(flow_pass::<L>(ms, horizontal, s.drop_last(), det, scale) == (
        ms,
        Seq::<ReturnEvent>::empty(),
    ));
    assert(flow_one::<L>(ms, horizontal, e, det, scale) == flow_key::<L>(
        ms,
        ms,
        horizontal,
        e,
        det,
        scale,
        0,
    ));
    lemma_flow_key_first::<L>(ms, ms, horizontal, e, det, scale, j, 0);
    assert(flow_pass::<L>(ms, horizontal, s, det, scale).0 == flow_key::<L>(
        ms,
        ms,
        horizontal,
        e,
        det,
        scale,
        0,
    ).0);
    let rj = L::m_pass(ms[j], seq![e], flow_child_det::<L>(ms, horizontal, det, scale, j), scale).1;
    assert(Seq::<ReturnEvent>::empty() + rj =~= rj);
}

proof fn lemma_flow_key_first<L: Layable>(
    ms0: Seq<L::Model>,
    cur: Seq<L::Model>,
    horizontal: bool,
    e: Event,
    det: Details,
    scale: Scale,
    j: int,
    k: int,
)
    requires
        0 <= k <= j < ms0.len(),
        cur.len() == ms0.len(),
        forall|i: int| k <= i < ms0.len() ==> cur[i] == ms0[i],
        forall|i: int|
            0 <= i < j ==> (#[trigger] L::m_pass(
                ms0[i],
                seq![e],
                flow_child_det::<L>(ms0, horizontal, det, scale, i),
                scale,
            )).1.len() == 0,
        L::m_pass(ms0[j], seq![e], flow_child_det::<L>(ms0, horizontal, det, scale, j), scale).1.len()
            > 0,
    ensures
        flow_key::<L>(ms0, cur, horizontal, e, det, scale, k).1 == L::m_pass(
            ms0[j],
            seq![e],
            flow_child_det::<L>(ms0, horizontal, det, scale, j),
            scale,
        ).1,
        flow_key::<L>(ms0, cur, horizontal, e, det, scale, k).0.len() == ms0.len(),
        forall|i: int|
            j < i < ms0.len() ==> #[trigger] flow_key::<L>(
                ms0,
                cur,
                horizontal,
                e,
                det,
                scale,
                k,
            ).0[i] == ms0[i],
    decreases j - k,
{
    let d = flow_child_det::<L>(ms0, horizontal, det, scale, k);
    let (m, r) = L::m_pass(cur[k], seq![e], d, scale);
    if k < j {
        assert(r.len() == 0);
        lemma_flow_key_first::<L>(ms0, cur.update(k, m), horizontal, e, det, scale, j, k + 1);
    }
}

} // verus!
