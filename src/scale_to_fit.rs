use vstd::prelude::*;

use crate::details::{clamp_i32, div_trunc, sat_wide, scaled, trunc_div, Details, Scale};
use crate::event::{Event, MouseEvent, ReturnEvent};
use crate::layable::{Draw, Layable};

verus! {

/// `v` held to the range of `u32`.
pub open spec fn clamp_u32(v: int) -> int {
    if v < 0 {
        0
    } else if v > u32::MAX {
        u32::MAX as int
    } else {
        v
    }
}

/// The factor `a` followed by the factor `b`, with the product rounded down
/// and held to the range of a factor.
pub open spec fn compose(a: Scale, b: Scale) -> Scale {
    Scale { milli: clamp_u32((a.milli * b.milli) / 1000) as u32 }
}

/// [`compose`], computed.
pub fn compose_scales(a: Scale, b: Scale) -> (r: Scale)
    ensures
        r == compose(a, b),
{
    proof {
        assert(0 <= a.milli * b.milli <= 0xffff_ffff * 0xffff_ffff) by (nonlinear_arith)
            requires
                0 <= a.milli <= 0xffff_ffff,
                0 <= b.milli <= 0xffff_ffff,
        ;
    }
    let p: u64 = a.milli as u64 * b.milli as u64 / 1000;
    if p > u32::MAX as u64 {
        Scale { milli: u32::MAX }
    } else {
        Scale { milli: p as u32 }
    }
}

/// A window coordinate taken back through the factor `s`: divided by it,
/// rounded toward zero and saturated; a zero factor sends every coordinate but
/// zero to the bound on its side.
pub open spec fn unscaled(v: int, s: Scale) -> int {
    if s.milli == 0 {
        if v > 0 {
            i32::MAX as int
        } else if v < 0 {
            i32::MIN as int
        } else {
            0
        }
    } else {
        clamp_i32(trunc_div(v * 1000, s.milli as int))
    }
}

fn unscale(v: i32, s: Scale) -> (r: i32)
    ensures
        r == unscaled(v as int, s),
{
    if s.milli == 0 {
        if v > 0 {
            i32::MAX
        } else if v < 0 {
            i32::MIN
        } else {
            0
        }
    } else {
        sat_wide(div_trunc(v as i128 * 1000, s.milli as i128))
    }
}

/// `e` with its pointer position taken back through `s`.
pub open spec fn unscale_event(e: Event, s: Scale) -> Event {
    match e {
        Event::MouseEvent(MouseEvent::MouseClick { x, y }) => Event::MouseEvent(
            MouseEvent::MouseClick { x: unscaled(x as int, s) as i32, y: unscaled(y as int, s) as i32 },
        ),
        Event::MouseEvent(MouseEvent::MouseHeld { x, y }) => Event::MouseEvent(
            MouseEvent::MouseHeld { x: unscaled(x as int, s) as i32, y: unscaled(y as int, s) as i32 },
        ),
        Event::MouseEvent(MouseEvent::MouseRelease { x, y }) => Event::MouseEvent(
            MouseEvent::MouseRelease {
                x: unscaled(x as int, s) as i32,
                y: unscaled(y as int, s) as i32,
            },
        ),
        Event::MouseEvent(MouseEvent::Scroll { x, y, amount }) => Event::MouseEvent(
            MouseEvent::Scroll {
                x: unscaled(x as int, s) as i32,
                y: unscaled(y as int, s) as i32,
                amount,
            },
        ),
        Event::KeyboardEvent(..) => e,
    }
}

fn unscale_one(e: Event, s: Scale) -> (r: Event)
    ensures
        r == unscale_event(e, s),
{
    match e {
        Event::MouseEvent(MouseEvent::MouseClick { x, y }) => Event::MouseEvent(
            MouseEvent::MouseClick { x: unscale(x, s), y: unscale(y, s) },
        ),
        Event::MouseEvent(MouseEvent::MouseHeld { x, y }) => Event::MouseEvent(
            MouseEvent::MouseHeld { x: unscale(x, s), y: unscale(y, s) },
        ),
        Event::MouseEvent(MouseEvent::MouseRelease { x, y }) => Event::MouseEvent(
            MouseEvent::MouseRelease { x: unscale(x, s), y: unscale(y, s) },
        ),
        Event::MouseEvent(MouseEvent::Scroll { x, y, amount }) => Event::MouseEvent(
            MouseEvent::Scroll { x: unscale(x, s), y: unscale(y, s), amount },
        ),
        Event::KeyboardEvent(..) => e,
    }
}

/// `events` with their pointer positions taken back through `s`.
pub fn unscale_events(events: &Vec<Event>, s: Scale) -> (r: Vec<Event>)
    ensures
        r@ == events@.map_values(|e: Event| unscale_event(e, s)),
{
    let mut r: Vec<Event> = Vec::new();
    let mut i: usize = 0;
    while i < events.len()
        invariant
            i <= events@.len(),
            r@ == events@.take(i as int).map_values(|e: Event| unscale_event(e, s)),
        decreases events@.len() - i,
    {
        r.push(unscale_one(events[i], s));
        proof {
            assert(events@.take(i + 1).map_values(|e: Event| unscale_event(e, s)) =~= events@.take(
                i as int,
            ).map_values(|e: Event| unscale_event(e, s)).push(unscale_event(events@[i as int], s)));
        }
        i = i + 1;
    }
    proof {
        assert(events@.take(events@.len() as int) =~= events@);
    }
    r
}

/// Draws its child at a constant extra factor: its size grows by it, and
/// pointer positions are taken back through it before they reach the child.
#[derive(Clone, Debug)]
pub struct ScaleBy<L> {
    pub layable: L,
    pub scale: Scale,
}

impl<L: Layable> ScaleBy<L> {
    pub fn new(layable: L, scale: Scale) -> (r: Self)
        ensures
            r == (ScaleBy { layable, scale }),
    {
        ScaleBy { layable, scale }
    }
}

impl<L: Layable> Layable for ScaleBy<L> {
    type Model = (L::Model, Scale);

    open spec fn model(&self) -> (L::Model, Scale) {
        (self.layable.model(), self.scale)
    }

    open spec fn m_size(m: (L::Model, Scale)) -> (i32, i32) {
        let (lw, lh) = L::m_size(m.0);
        (scaled(lw as int, m.1) as i32, scaled(lh as int, m.1) as i32)
    }

    open spec fn m_render(m: (L::Model, Scale), det: Details, scale: Scale) -> Seq<Draw> {
        L::m_render(m.0, det, compose(scale, m.1))
    }

    open spec fn m_tick(m: (L::Model, Scale)) -> (L::Model, Scale) {
        (L::m_tick(m.0), m.1)
    }

    open spec fn m_pass(m: (L::Model, Scale), events: Seq<Event>, det: Details, scale: Scale) -> (
        (L::Model, Scale),
        Seq<ReturnEvent>,
    ) {
        let (lm, rets) = L::m_pass(
            m.0,
            events.map_values(|e: Event| unscale_event(e, m.1)),
            det,
            scale,
        );
        ((lm, m.1), rets)
    }

    fn size(&self) -> (r: (i32, i32)) {
        let (lw, lh) = self.layable.size();
        (self.scale.apply(lw), self.scale.apply(lh))
    }

    fn render(&self, det: Details, scale: Scale, out: &mut Vec<Draw>) {
        let s = compose_scales(scale, self.scale);
        self.layable.render(det, s, out);
    }

    fn tick(&mut self) {
        self.layable.tick();
    }

    fn pass_events(
        &mut self,
        events: &Vec<Event>,
        det: Details,
        scale: Scale,
        ret_events: &mut Vec<ReturnEvent>,
    ) {
        let l_events = unscale_events(events, self.scale);
        self.layable.pass_events(&l_events, det, scale, ret_events);
    }
}

/// Which axis [`ScaleToFit`] fits, and the length to fit it to.
#[derive(Clone, Copy, Debug, PartialEq, Eq, Structural, Hash)]
pub enum FitOpt {
    Width(i32),
    Height(i32),
}

/// The ratio that fits a child of size `l` as `opt` asks, as numerator and
/// denominator; zero when the child has no extent on that axis or the target
/// is negative.
pub open spec fn fit_ratio(opt: FitOpt, l: (i32, i32)) -> (int, int) {
    let (num, den) = match opt {
        FitOpt::Width(w) => (w as int, l.0 as int),
        FitOpt::Height(h) => (h as int, l.1 as int),
    };
    if den > 0 && num >= 0 {
        (num, den)
    } else {
        (0, 1)
    }
}

/// The size of a fitted child: its size times the ratio, rounded down.
pub open spec fn fitted_size(opt: FitOpt, l: (i32, i32)) -> (i32, i32) {
    let (num, den) = fit_ratio(opt, l);
    (clamp_i32(trunc_div(l.0 * num, den)) as i32, clamp_i32(trunc_div(l.1 * num, den)) as i32)
}

/// The scale a fitted child is drawn at: the ambient one times the ratio.
pub open spec fn fitted_scale(opt: FitOpt, l: (i32, i32), scale: Scale) -> Scale {
    let (num, den) = fit_ratio(opt, l);
    Scale { milli: clamp_u32((scale.milli * num) / den) as u32 }
}

/// Scales its child so that one axis of its size is a given length.
#[derive(Clone, Debug)]
pub struct ScaleToFit<L> {
    pub layable: L,
    pub fit_opt: FitOpt,
}

fn ratio(opt: FitOpt, l: (i32, i32)) -> (r: (i64, i64))
    ensures
        r.0 == fit_ratio(opt, l).0,
        r.1 == fit_ratio(opt, l).1,
{
    let (num, den): (i64, i64) = match opt {
        FitOpt::Width(w) => (w as i64, l.0 as i64),
        FitOpt::Height(h) => (h as i64, l.1 as i64),
    };
    if den > 0 && num >= 0 {
        (num, den)
    } else {
        (0, 1)
    }
}

impl<L: Layable> ScaleToFit<L> {
    pub fn new(layable: L, fit_opt: FitOpt) -> (r: Self)
        ensures
            r == (ScaleToFit { layable, fit_opt }),
    {
        ScaleToFit { layable, fit_opt }
    }

    pub fn fix_w(width: i32, layable: L) -> (r: Self)
        ensures
            r == (ScaleToFit { layable, fit_opt: FitOpt::Width(width) }),
    {
        Self::new(layable, FitOpt::Width(width))
    }

    pub fn fix_h(height: i32, layable: L) -> (r: Self)
        ensures
            r == (ScaleToFit { layable, fit_opt: FitOpt::Height(height) }),
    {
        Self::new(layable, FitOpt::Height(height))
    }

    /// The scale the child is drawn at, under the ambient `scale`.
    pub fn scale(&self, scale: Scale) -> (r: Scale)
        ensures
            r == fitted_scale(self.fit_opt, L::m_size(self.layable.model()), scale),
    {
        let (num, den) = ratio(self.fit_opt, self.layable.size());
        proof {
            assert(0 <= scale.milli * num <= 0xffff_ffff * 0x7fff_ffff) by (nonlinear_arith)
                requires
                    0 <= scale.milli <= 0xffff_ffff,
                    0 <= num <= 0x7fff_ffff,
            ;
            assert((scale.milli as int * num as int) / (den as int) >= 0) by (nonlinear_arith)
                requires
                    scale.milli as int * num as int >= 0,
                    den > 0,
            ;
        }
        let p: i128 = scale.milli as i128 * num as i128 / den as i128;
        if p > u32::MAX as i128 {
            Scale { milli: u32::MAX }
        } else {
            Scale { milli: p as u32 }
        }
    }
}

impl<L: Layable> Layable for ScaleToFit<L> {
    type Model = (L::Model, FitOpt);

    open spec fn model(&self) -> (L::Model, FitOpt) {
        (self.layable.model(), self.fit_opt)
    }

    open spec fn m_size(m: (L::Model, FitOpt)) -> (i32, i32) {
        fitted_size(m.1, L::m_size(m.0))
    }

    open spec fn m_render(m: (L::Model, FitOpt), det: Details, scale: Scale) -> Seq<Draw> {
        L::m_render(m.0, det, fitted_scale(m.1, L::m_size(m.0), scale))
    }

    open spec fn m_tick(m: (L::Model, FitOpt)) -> (L::Model, FitOpt) {
        (L::m_tick(m.0), m.1)
    }

    open spec fn m_pass(m: (L::Model, FitOpt), events: Seq<Event>, det: Details, scale: Scale) -> (
        (L::Model, FitOpt),
        Seq<ReturnEvent>,
    ) {
        let (lm, rets) = L::m_pass(m.0, events, det, fitted_scale(m.1, L::m_size(m.0), scale));
        ((lm, m.1), rets)
    }

    fn size(&self) -> (r: (i32, i32)) {
        let (lw, lh) = self.layable.size();
        let (num, den) = ratio(self.fit_opt, (lw, lh));
        proof {
            assert(-0x8000_0000 * 0x7fff_ffff <= lw * num <= 0x7fff_ffff * 0x7fff_ffff)
                by (nonlinear_arith)
                requires
                    -0x8000_0000 <= lw <= 0x7fff_ffff,
                    0 <= num <= 0x7fff_ffff,
            ;
            assert(-0x8000_0000 * 0x7fff_ffff <= lh * num <= 0x7fff_ffff * 0x7fff_ffff)
                by (nonlinear_arith)
                requires
                    -0x8000_0000 <= lh <= 0x7fff_ffff,
                    0 <= num <= 0x7fff_ffff,
            ;
        }
        (
            sat_wide(div_trunc(lw as i128 * num as i128, den as i128)),
            sat_wide(div_trunc(lh as i128 * num as i128, den as i128)),
        )
    }

    fn render(&self, det: Details, scale: Scale, out: &mut Vec<Draw>) {
        let s = self.scale(scale);
        self.layable.render(det, s, out);
    }

    fn tick(&mut self) {
        self.layable.tick();
    }

    fn pass_events(
        &mut self,
        events: &Vec<Event>,
        det: Details,
        scale: Scale,
        ret_events: &mut Vec<ReturnEvent>,
    ) {
        let s = self.scale(scale);
        self.layable.pass_events(events, det, s, ret_events);
    }
}

} // verus!
