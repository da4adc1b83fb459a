use vstd::prelude::*;

use crate::details::{add_sat, clamp_i32, div_trunc, sat_i32, sat_wide, scaled, trunc_div, Details, Scale};
use crate::div::{flow_size, models_of};
use crate::event::{Event, ReturnEvent};
use crate::layable::{first_of, pass_one, Draw, Layable};

verus! {

/// Children laid out one after another with the leftover room spread evenly
/// between them, top to bottom, or left to right when `horizontal`.
#[derive(Clone, Debug)]
pub struct SpaceBetween<L> {
    components: Vec<L>,
    horizontal: bool,
}

/// The size along the flow of a pair of sizes.
pub open spec fn along(size: (i32, i32), horizontal: bool) -> i32 {
    if horizontal {
        size.0
    } else {
        size.1
    }
}

/// The sum of the first `n` children's sizes along the flow, saturating.
pub open spec fn total_along<L: Layable>(ms: Seq<L::Model>, horizontal: bool, n: int) -> i32
    decreases n,
{
    if n <= 0 {
        0
    } else {
        clamp_i32(total_along::<L>(ms, horizontal, n - 1) + along(L::m_size(ms[n - 1]), horizontal))
            as i32
    }
}

/// The scaled gap between neighbours: the room the children leave, divided
/// among the gaps between them (at least one), rounded toward zero.
pub open spec fn gap_of<L: Layable>(ms: Seq<L::Model>, horizontal: bool, det: Details, scale: Scale) -> int {
    let gaps = if ms.len() - 1 > 1 {
        ms.len() - 1
    } else {
        1
    };
    let remaining = along((det.aw, det.ah), horizontal) - total_along::<L>(
        ms,
        horizontal,
        ms.len() as int,
    );
    clamp_i32(trunc_div(remaining * scale.milli, gaps * 1000))
}

/// The region of a child of size `size` placed at `(x, y)`.
pub open spec fn spaced_det(size: (i32, i32), horizontal: bool, det: Details, x: i32, y: i32) -> Details {
    if !horizontal {
        Details { x, y, aw: det.aw, ah: size.1 }
    } else {
        Details { x, y, aw: size.0, ah: det.ah }
    }
}

/// The position after a child of size `size`: moved along the flow by its
/// scaled size and the gap.
pub open spec fn spaced_next(size: (i32, i32), horizontal: bool, scale: Scale, gap: int, x: i32, y: i32) -> (
    i32,
    i32,
) {
    if !horizontal {
        (x, clamp_i32(y + clamp_i32(scaled(size.1 as int, scale) + gap)) as i32)
    } else {
        (clamp_i32(x + clamp_i32(scaled(size.0 as int, scale) + gap)) as i32, y)
    }
}

/// The children from the `k`-th on drawn, the `k`-th at `(x, y)`.
pub open spec fn spaced_render<L: Layable>(
    ms: Seq<L::Model>,
    horizontal: bool,
    det: Details,
    scale: Scale,
    gap: int,
    k: int,
    x: i32,
    y: i32,
) -> Seq<Draw>
    decreases ms.len() - k,
{
    if k < 0 || k >= ms.len() {
        seq![]
    } else {
        let size = L::m_size(ms[k]);
        let (nx, ny) = spaced_next(size, horizontal, scale, gap, x, y);
        L::m_render(ms[k], spaced_det(size, horizontal, det, x, y), scale) + spaced_render::<L>(
            ms,
            horizontal,
            det,
            scale,
            gap,
            k + 1,
            nx,
            ny,
        )
    }
}

/// A keyboard event offered to the children from the `k`-th on, in order,
/// until one answers: the models after, and the answer.
pub open spec fn offer_key<L: Layable>(
    ms: Seq<L::Model>,
    e: Event,
    det: Details,
    scale: Scale,
    k: int,
) -> (Seq<L::Model>, Option<ReturnEvent>)
    decreases ms.len() - k,
{
    if k < 0 || k >= ms.len() {
        (ms, None)
    } else {
        let (m, r) = L::m_pass(ms[k], seq![e], det, scale);
        let ms2 = ms.update(k, m);
        if r.len() > 0 {
            (ms2, Some(r[0]))
        } else {
            offer_key::<L>(ms2, e, det, scale, k + 1)
        }
    }
}

/// A pointer event given to the first child, from the `k`-th on (the `k`-th
/// at `(x, y)`), whose region holds it: the models after, and its answer.
pub open spec fn offer_pointer<L: Layable>(
    ms: Seq<L::Model>,
    horizontal: bool,
    e: Event,
    at: (i32, i32),
    det: Details,
    scale: Scale,
    gap: int,
    k: int,
    x: i32,
    y: i32,
) -> (Seq<L::Model>, Option<ReturnEvent>)
    decreases ms.len() - k,
{
    if k < 0 || k >= ms.len() {
        (ms, None)
    } else {
        let size = L::m_size(ms[k]);
        let l_det = spaced_det(size, horizontal, det, x, y);
        if l_det.spec_is_inside(at.0 as int, at.1 as int) {
            let (m, r) = L::m_pass(ms[k], seq![e], l_det, scale);
            (ms.update(k, m), first_of(r))
        } else {
            let (nx, ny) = spaced_next(size, horizontal, scale, gap, x, y);
            offer_pointer::<L>(ms, horizontal, e, at, det, scale, gap, k + 1, nx, ny)
        }
    }
}

/// One event given to the children: the models after, and the one answer.
pub open spec fn spaced_one<L: Layable>(
    ms: Seq<L::Model>,
    horizontal: bool,
    e: Event,
    det: Details,
    scale: Scale,
) -> (Seq<L::Model>, Option<ReturnEvent>) {
    match e {
        Event::KeyboardEvent(..) => offer_key::<L>(ms, e, det, scale, 0),
        Event::MouseEvent(m) => if det.spec_is_inside(m.spec_at().0 as int, m.spec_at().1 as int) {
            offer_pointer::<L>(
                ms,
                horizontal,
                e,
                m.spec_at(),
                det,
                scale,
                gap_of::<L>(ms, horizontal, det, scale),
                0,
                det.x,
                det.y,
            )
        } else {
            (ms, None)
        },
    }
}

/// The children after `events`, one at a time, and the answers.
pub open spec fn spaced_pass<L: Layable>(
    ms: Seq<L::Model>,
    horizontal: bool,
    events: Seq<Event>,
    det: Details,
    scale: Scale,
) -> (Seq<L::Model>, Seq<ReturnEvent>)
    decreases events.len(),
{
    if events.len() == 0 {
        (ms, seq![])
    } else {
        let (ms1, rets) = spaced_pass::<L>(ms, horizontal, events.drop_last(), det, scale);
        let (ms2, r) = spaced_one::<L>(ms1, horizontal, events.last(), det, scale);
        match r {
            Some(r) => (ms2, rets.push(r)),
            None => (ms2, rets),
        }
    }
}

/// Offers a keyboard event to the children in order until one answers.
fn offer_key_exec<L: Layable>(comps: &mut Vec<L>, e: Event, det: Details, scale: Scale) -> (r:
    Option<ReturnEvent>)
    ensures
        (models_of(final(comps)@), r) == offer_key::<L>(models_of(old(comps)@), e, det, scale, 0),
{
    let ghost ms0 = models_of(comps@);
    let ghost target = offer_key::<L>(ms0, e, det, scale, 0);
    let mut found: Option<ReturnEvent> = None;
    let mut k: usize = 0;
    while k < comps.len() && found.is_none()
        invariant
            k <= comps@.len(),
            found.is_none() ==> offer_key::<L>(
                models_of(comps@),
                e,
                det,
                scale,
                k as int,
            ) == target,
            found.is_some() ==> (models_of(comps@), found) == target,
        decreases comps@.len() - k,
    {
        let ghost before = models_of(comps@);
        found = pass_one(&mut comps[k], e, det, scale);
        proof {
            let after = models_of(comps@);
            assert(after =~= before.update(
                k as int,
                L::m_pass(before[k as int], seq![e], det, scale).0,
            ));
            assert(offer_key::<L>(before, e, det, scale, k as int) == if found.is_some() {
                (after, found)
            } else {
                offer_key::<L>(after, e, det, scale, k + 1)
            });
        }
        k = k + 1;
    }
    proof {
        let cur = models_of(comps@);
        assert(cur.len() == comps@.len());
        if found.is_none() {
            assert(offer_key::<L>(cur, e, det, scale, k as int) == (
                cur,
                None::<ReturnEvent>,
            ));
        }
        assert((cur, found) == target);
    }
    found
}

impl<L: Layable> SpaceBetween<L> {
    pub closed spec fn spec_components(&self) -> Seq<L> {
        self.components@
    }

    pub closed spec fn spec_horizontal(&self) -> bool {
        self.horizontal
    }

    /// A vertical spread of `components`.
    pub fn new(components: Vec<L>) -> (r: Self)
        ensures
            r.spec_components() == components@,
            !r.spec_horizontal(),
    {
        SpaceBetween { components, horizontal: false }
    }

    /// A horizontal spread of `components`.
    pub fn new_horizontal(components: Vec<L>) -> (r: Self)
        ensures
            r.spec_components() == components@,
            r.spec_horizontal(),
    {
        SpaceBetween { components, horizontal: true }
    }

    /// The scaled gap between neighbours in the region `det`.
    pub fn calculate_gap(&self, det: Details, scale: Scale) -> (r: i32)
        ensures
            r == gap_of::<L>(models_of(self.spec_components()), self.spec_horizontal(), det, scale),
    {
        let ghost ms = models_of(self.components@);
        let mut total: i32 = 0;
        let mut i: usize = 0;
        while i < self.components.len()
            invariant
                i <= self.components@.len(),
                ms == models_of(self.components@),
                total == total_along::<L>(ms, self.horizontal, i as int),
            decreases self.components@.len() - i,
        {
            let s = self.components[i].size();
            total = add_sat(total, if self.horizontal { s.0 } else { s.1 });
            i = i + 1;
        }
        let n = self.components.len();
        let gaps: i128 = if n > 2 {
            (n - 1) as i128
        } else {
            1
        };
        let avail = if self.horizontal {
            det.aw
        } else {
            det.ah
        };
        let remaining = avail as i64 - total as i64;
        proof {
            assert(-0x1_0000_0000 * 0xffff_ffff <= remaining * scale.milli <= 0x1_0000_0000
                * 0xffff_ffff) by (nonlinear_arith)
                requires
                    -0x1_0000_0000 <= remaining <= 0x1_0000_0000,
                    0 <= scale.milli <= 0xffff_ffff,
            ;
        }
        let num: i128 = remaining as i128 * scale.milli as i128;
        let den: i128 = gaps as i128 * 1000;
        assert(den > 0);
        sat_wide(div_trunc(num, den))
    }

    fn next_pos(&self, size: (i32, i32), scale: Scale, gap: i32, x: i32, y: i32) -> (r: (i32, i32))
        ensures
            r == spaced_next(size, self.horizontal, scale, gap as int, x, y),
    {
        if !self.horizontal {
            (x, sat_i32(y as i64 + sat_i32(scale.apply(size.1) as i64 + gap as i64) as i64))
        } else {
            (sat_i32(x as i64 + sat_i32(scale.apply(size.0) as i64 + gap as i64) as i64), y)
        }
    }

    fn l_det(&self, size: (i32, i32), det: Details, x: i32, y: i32) -> (r: Details)
        ensures
            r == spaced_det(size, self.horizontal, det, x, y),
    {
        if !self.horizontal {
            Details { x, y, aw: det.aw, ah: size.1 }
        } else {
            Details { x, y, aw: size.0, ah: det.ah }
        }
    }

    /// Gives one event to the children and returns the one answer, if any.
    fn pass_one_event(&mut self, e: Event, det: Details, scale: Scale) -> (r: Option<ReturnEvent>)
        ensures
            final(self).horizontal == old(self).horizontal,
            (models_of(final(self).components@), r) == spaced_one::<L>(
                models_of(old(self).components@),
                old(self).horizontal,
                e,
                det,
                scale,
            ),
    {
        let ghost ms0 = models_of(self.components@);
        match e {
            Event::MouseEvent(m) => {
                let at = m.at();
                if !det.is_inside_tuple(at) {
                    return None;
                }
                let gap = self.calculate_gap(det, scale);
                proof {
                    assert(gap == gap_of::<L>(ms0, self.horizontal, det, scale));
                }
                let ghost target = offer_pointer::<L>(
                    ms0,
                    self.horizontal,
                    e,
                    at,
                    det,
                    scale,
                    gap as int,
                    0,
                    det.x,
                    det.y,
                );
                let (mut x, mut y) = (det.x, det.y);
                let mut found: Option<ReturnEvent> = None;
                let mut done = false;
                let mut k: usize = 0;
                while k < self.components.len() && !done
                    invariant
                        k <= self.components@.len(),
                        self.horizontal == old(self).horizontal,
                        !done ==> models_of(self.components@) == ms0 && found.is_none(),
                        !done ==> offer_pointer::<L>(
                            ms0,
                            self.horizontal,
                            e,
                            at,
                            det,
                            scale,
                            gap as int,
                            k as int,
                            x,
                            y,
                        ) == target,
                        done ==> (models_of(self.components@), found) == target,
                    decreases self.components@.len() - k,
                {
                    let size = self.components[k].size();
                    let l_det = self.l_det(size, det, x, y);
                    if l_det.is_inside_tuple(at) {
                        found = pass_one(&mut self.components[k], e, l_det, scale);
                        proof {
                            assert(models_of(self.components@) =~= ms0.update(
                                k as int,
                                L::m_pass(ms0[k as int], seq![e], l_det, scale).0,
                            ));
                        }
                        done = true;
                    } else {
                        let (nx, ny) = self.next_pos(size, scale, gap, x, y);
                        x = nx;
                        y = ny;
                    }
                    k = k + 1;
                }
                proof {
                    if !done {
                        assert(offer_pointer::<L>(
                            ms0,
                            self.horizontal,
                            e,
                            at,
                            det,
                            scale,
                            gap as int,
                            k as int,
                            x,
                            y,
                        ) == (ms0, None::<ReturnEvent>));
                    }
                    assert((models_of(self.components@), found) == target);
                    assert(target == spaced_one::<L>(ms0, self.horizontal, e, det, scale));
                }
                return found;
            },
            Event::KeyboardEvent(..) => offer_key_exec(&mut self.components, e, det, scale),
        }
    }
}

impl<L: Layable> Layable for SpaceBetween<L> {
    type Model = (Seq<L::Model>, bool);

    closed spec fn model(&self) -> (Seq<L::Model>, bool) {
        (models_of(self.components@), self.horizontal)
    }

    open spec fn m_size(m: (Seq<L::Model>, bool)) -> (i32, i32) {
        flow_size::<L>(m.0, m.1, m.0.len() as int)
    }

    open spec fn m_render(m: (Seq<L::Model>, bool), det: Details, scale: Scale) -> Seq<Draw> {
        spaced_render::<L>(m.0, m.1, det, scale, gap_of::<L>(m.0, m.1, det, scale), 0, det.x, det.y)
    }

    open spec fn m_tick(m: (Seq<L::Model>, bool)) -> (Seq<L::Model>, bool) {
        (m.0.map_values(|c: L::Model| L::m_tick(c)), m.1)
    }

    open spec fn m_pass(
        m: (Seq<L::Model>, bool),
        events: Seq<Event>,
        det: Details,
        scale: Scale,
    ) -> ((Seq<L::Model>, bool), Seq<ReturnEvent>) {
        let (ms, rets) = spaced_pass::<L>(m.0, m.1, events, det, scale);
        ((ms, m.1), rets)
    }

    fn size(&self) -> (r: (i32, i32)) {
        let ghost ms = models_of(self.components@);
        let (mut w, mut h): (i32, i32) = (0, 0);
        let mut i: usize = 0;
        while i < self.components.len()
            invariant
                i <= self.components@.len(),
                ms == models_of(self.components@),
                (w, h) == flow_size::<L>(ms, self.horizontal, i as int),
            decreases self.components@.len() - i,
        {
            let (cw, ch) = self.components[i].size();
            if !self.horizontal {
                w = if cw > w {
                    cw
                } else {
                    w
                };
                h = add_sat(h, ch);
            } else {
                w = add_sat(w, cw);
                h = if ch > h {
                    ch
                } else {
                    h
                };
            }
            i = i + 1;
        }
        (w, h)
    }

    fn render(&self, det: Details, scale: Scale, out: &mut Vec<Draw>) {
        let ghost ms = models_of(self.components@);
        let ghost out0 = out@;
        let gap = self.calculate_gap(det, scale);
        let (mut x, mut y) = (det.x, det.y);
        let mut k: usize = 0;
        proof {
            assert(out@ =~= out0 + Seq::<Draw>::empty());
        }
        while k < self.components.len()
            invariant
                k <= self.components@.len(),
                ms == models_of(self.components@),
                gap == gap_of::<L>(ms, self.horizontal, det, scale),
                out0 + spaced_render::<L>(ms, self.horizontal, det, scale, gap as int, 0, det.x, det.y)
                    == out@ + spaced_render::<L>(
                    ms,
                    self.horizontal,
                    det,
                    scale,
                    gap as int,
                    k as int,
                    x,
                    y,
                ),
            decreases self.components@.len() - k,
        {
            let size = self.components[k].size();
            let l_det = self.l_det(size, det, x, y);
            let ghost mid = out@;
            self.components[k].render(l_det, scale, out);
            let (nx, ny) = self.next_pos(size, scale, gap, x, y);
            proof {
                let rest = spaced_render::<L>(
                    ms,
                    self.horizontal,
                    det,
                    scale,
                    gap as int,
                    k + 1,
                    nx,
                    ny,
                );
                assert(mid + spaced_render::<L>(
                    ms,
                    self.horizontal,
                    det,
                    scale,
                    gap as int,
                    k as int,
                    x,
                    y,
                ) =~= out@ + rest);
            }
            x = nx;
            y = ny;
            k = k + 1;
        }
        proof {
            assert(out@ + spaced_render::<L>(
                ms,
                self.horizontal,
                det,
                scale,
                gap as int,
                k as int,
                x,
                y,
            ) =~= out@);
        }
    }

    fn tick(&mut self) {
        let ghost ms = models_of(self.components@);
        let mut i: usize = 0;
        while i < self.components.len()
            invariant
                i <= self.components@.len(),
                ms.len() == self.components@.len(),
                ms == models_of(old(self).components@),
                self.horizontal == old(self).horizontal,
                forall|k: int| 0 <= k < i ==> #[trigger] self.components@[k].model() == L::m_tick(ms[k]),
                forall|k: int| i <= k < ms.len() ==> #[trigger] self.components@[k].model() == ms[k],
            decreases self.components@.len() - i,
        {
            self.components[i].tick();
            i = i + 1;
        }
        proof {
            assert(models_of(self.components@) =~= ms.map_values(|c: L::Model| L::m_tick(c)));
        }
    }

    fn pass_events(
        &mut self,
        events: &Vec<Event>,
        det: Details,
        scale: Scale,
        ret_events: &mut Vec<ReturnEvent>,
    ) {
        let ghost ms0 = models_of(self.components@);
        let ghost rets0 = ret_events@;
        let mut i: usize = 0;
        proof {
            assert(events@.take(0) =~= Seq::<Event>::empty());
            assert(ret_events@ =~= rets0 + Seq::<ReturnEvent>::empty());
        }
        while i < events.len()
            invariant
                i <= events@.len(),
                self.horizontal == old(self).horizontal,
                ({
                    let (ms, rets) = spaced_pass::<L>(
                        ms0,
                        self.horizontal,
                        events@.take(i as int),
                        det,
                        scale,
                    );
                    &&& models_of(self.components@) == ms
                    &&& ret_events@ == rets0 + rets
                }),
            decreases events@.len() - i,
        {
            let e = events[i];
            proof {
                assert(events@.take(i + 1).drop_last() =~= events@.take(i as int));
            }
            match self.pass_one_event(e, det, scale) {
                Some(r) => ret_events.push(r),
                None => {},
            }
            proof {
                let (ms, rets) = spaced_pass::<L>(
                    ms0,
                    self.horizontal,
                    events@.take(i + 1),
                    det,
                    scale,
                );
                assert(ret_events@ =~= rets0 + rets);
            }
            i = i + 1;
        }
        proof {
            assert(events@.take(events@.len() as int) =~= events@);
        }
    }
}

} // verus!
