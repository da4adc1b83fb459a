use vstd::prelude::*;

use crate::details::{clamp_i32, sat_i32, scaled, Details, Scale};
use crate::event::{Event, ReturnEvent};
use crate::layable::{Draw, Layable};

verus! {

/// Which axes [`FixedSize`] fixes, and to what.
#[derive(Clone, Copy, Debug, PartialEq, Eq, Hash)]
pub enum FitOpt {
    Width(i32),
    Height(i32),
    Both((i32, i32)),
}

/// The size a [`FixedSize`] reports: the fixed axes from `opt`, the others
/// from the child.
pub open spec fn fixed_size(opt: FitOpt, l: (i32, i32)) -> (i32, i32) {
    match opt {
        FitOpt::Width(w) => (w, l.1),
        FitOpt::Height(h) => (l.0, h),
        FitOpt::Both(s) => s,
    }
}

/// Overrides the reported size on one or both axes, and gives its child a
/// region of exactly that size at the region's origin.
#[derive(Clone, Debug)]
pub struct FixedSize<L> {
    pub layable: L,
    pub fit_opt: FitOpt,
}

impl<L: Layable> FixedSize<L> {
    pub fn new(layable: L, fit_opt: FitOpt) -> (r: Self)
        ensures
            r == (FixedSize { layable, fit_opt }),
    {
        FixedSize { layable, fit_opt }
    }

    pub fn fix_w(width: i32, layable: L) -> (r: Self)
        ensures
            r == (FixedSize { layable, fit_opt: FitOpt::Width(width) }),
    {
        Self::new(layable, FitOpt::Width(width))
    }

    pub fn fix_h(height: i32, layable: L) -> (r: Self)
        ensures
            r == (FixedSize { layable, fit_opt: FitOpt::Height(height) }),
    {
        Self::new(layable, FitOpt::Height(height))
    }

    pub fn fix_size(size: (i32, i32), layable: L) -> (r: Self)
        ensures
            r == (FixedSize { layable, fit_opt: FitOpt::Both(size) }),
    {
        Self::new(layable, FitOpt::Both(size))
    }

    pub fn fix_both(both: i32, layable: L) -> (r: Self)
        ensures
            r == (FixedSize { layable, fit_opt: FitOpt::Both((both, both)) }),
    {
        Self::fix_size((both, both), layable)
    }

    fn l_det(&self, det: Details) -> (r: Details)
        ensures
            r == (Details {
                aw: fixed_size(self.fit_opt, L::m_size(self.layable.model())).0,
                ah: fixed_size(self.fit_opt, L::m_size(self.layable.model())).1,
                ..det
            }),
    {
        let (w, h) = self.size();
        Details { x: det.x, y: det.y, aw: w, ah: h }
    }
}

impl<L: Layable> Layable for FixedSize<L> {
    type Model = (L::Model, FitOpt);

    open spec fn model(&self) -> (L::Model, FitOpt) {
        (self.layable.model(), self.fit_opt)
    }

    open spec fn m_size(m: (L::Model, FitOpt)) -> (i32, i32) {
        fixed_size(m.1, L::m_size(m.0))
    }

    open spec fn m_render(m: (L::Model, FitOpt), det: Details, scale: Scale) -> Seq<Draw> {
        let s = fixed_size(m.1, L::m_size(m.0));
        L::m_render(m.0, Details { aw: s.0, ah: s.1, ..det }, scale)
    }

    open spec fn m_tick(m: (L::Model, FitOpt)) -> (L::Model, FitOpt) {
        (L::m_tick(m.0), m.1)
    }

    open spec fn m_pass(m: (L::Model, FitOpt), events: Seq<Event>, det: Details, scale: Scale) -> (
        (L::Model, FitOpt),
        Seq<ReturnEvent>,
    ) {
        let s = fixed_size(m.1, L::m_size(m.0));
        let (lm, rets) = L::m_pass(m.0, events, Details { aw: s.0, ah: s.1, ..det }, scale);
        ((lm, m.1), rets)
    }

    fn size(&self) -> (r: (i32, i32)) {
        match self.fit_opt {
            FitOpt::Width(w) => (w, self.layable.size().1),
            FitOpt::Height(h) => (self.layable.size().0, h),
            FitOpt::Both(s) => s,
        }
    }

    fn render(&self, det: Details, scale: Scale, out: &mut Vec<Draw>) {
        let d = self.l_det(det);
        self.layable.render(d, scale, out);
    }

    fn tick(&mut self) {
        self.layable.tick();
    }

    fn pass_events(
        &mut self,
        events: &Vec<Event>,
        det: Details,
        scale: Scale,
        ret_events: &mut Vec<ReturnEvent>,
    ) {
        let d = self.l_det(det);
        self.layable.pass_events(events, d, scale, ret_events);
    }
}

/// Gives its child a region of exactly the child's own (scaled) size, so that
/// it neither draws nor takes events beyond it.
#[derive(Clone, Debug)]
pub struct RestrictToSize<L> {
    pub layable: L,
}

/// The region [`RestrictToSize`] gives a child of size `l`.
pub open spec fn restricted_det(l: (i32, i32), det: Details, scale: Scale) -> Details {
    Details {
        aw: scaled(l.0 as int, scale) as i32,
        ah: scaled(l.1 as int, scale) as i32,
        ..det
    }
}

impl<L: Layable> RestrictToSize<L> {
    pub fn new(layable: L) -> (r: Self)
        ensures
            r.layable == layable,
    {
        RestrictToSize { layable }
    }

    fn l_det(&self, det: Details, scale: Scale) -> (r: Details)
        ensures
            r == restricted_det(L::m_size(self.layable.model()), det, scale),
    {
        let (lw, lh) = self.layable.size();
        Details { x: det.x, y: det.y, aw: scale.apply(lw), ah: scale.apply(lh) }
    }
}

impl<L: Layable> Layable for RestrictToSize<L> {
    type Model = L::Model;

    open spec fn model(&self) -> L::Model {
        self.layable.model()
    }

    open spec fn m_size(m: L::Model) -> (i32, i32) {
        L::m_size(m)
    }

    open spec fn m_render(m: L::Model, det: Details, scale: Scale) -> Seq<Draw> {
        L::m_render(m, restricted_det(L::m_size(m), det, scale), scale)
    }

    open spec fn m_tick(m: L::Model) -> L::Model {
        L::m_tick(m)
    }

    open spec fn m_pass(m: L::Model, events: Seq<Event>, det: Details, scale: Scale) -> (
        L::Model,
        Seq<ReturnEvent>,
    ) {
        L::m_pass(m, events, restricted_det(L::m_size(m), det, scale), scale)
    }

    fn size(&self) -> (r: (i32, i32)) {
        self.layable.size()
    }

    fn render(&self, det: Details, scale: Scale, out: &mut Vec<Draw>) {
        let d = self.l_det(det, scale);
        self.layable.render(d, scale, out);
    }

    fn tick(&mut self) {
        self.layable.tick();
    }

    fn pass_events(
        &mut self,
        events: &Vec<Event>,
        det: Details,
        scale: Scale,
        ret_events: &mut Vec<ReturnEvent>,
    ) {
        let d = self.l_det(det, scale);
        self.layable.pass_events(events, d, scale, ret_events);
    }
}

/// Insets on each side, in unscaled pixels.
#[derive(Clone, Copy, Debug, PartialEq, Eq, Structural, Hash, Default)]
pub struct MarginValues {
    pub r: i32,
    pub l: i32,
    pub t: i32,
    pub b: i32,
}

/// Adds insets around its child: they add to its size and shrink, by their
/// scaled amount, the region it is given.
#[derive(Clone, Debug)]
pub struct Margin<L> {
    pub layable: L,
    pub values: MarginValues,
}

/// The region [`Margin`] gives its child.
pub open spec fn margin_det(v: MarginValues, det: Details, scale: Scale) -> Details {
    Details {
        x: clamp_i32(det.x + scaled(v.l as int, scale)) as i32,
        y: clamp_i32(det.y + scaled(v.t as int, scale)) as i32,
        aw: clamp_i32(det.aw - scaled(v.r + v.l, scale)) as i32,
        ah: clamp_i32(det.ah - scaled(v.b + v.t, scale)) as i32,
    }
}

/// The size [`Margin`] reports for a child of size `l`.
pub open spec fn margin_size(v: MarginValues, l: (i32, i32)) -> (i32, i32) {
    (clamp_i32(l.0 + v.r + v.l) as i32, clamp_i32(l.1 + v.t + v.b) as i32)
}

impl<L: Layable> Margin<L> {
    pub fn new(values: MarginValues, layable: L) -> (r: Self)
        ensures
            r == (Margin { layable, values }),
    {
        Margin { layable, values }
    }

    /// Insets of `margin_v` on the right and the left.
    pub fn vertical(margin_v: i32, layable: L) -> (r: Self)
        ensures
            r == (Margin { layable, values: MarginValues { r: margin_v, l: margin_v, t: 0, b: 0 } }),
    {
        Self::new(MarginValues { r: margin_v, l: margin_v, t: 0, b: 0 }, layable)
    }

    /// Insets of `margin_h` at the top and the bottom.
    pub fn horizontal(margin_h: i32, layable: L) -> (r: Self)
        ensures
            r == (Margin { layable, values: MarginValues { r: 0, l: 0, t: margin_h, b: margin_h } }),
    {
        Self::new(MarginValues { r: 0, l: 0, t: margin_h, b: margin_h }, layable)
    }

    /// Insets of `margin` on every side.
    pub fn all(margin: i32, layable: L) -> (r: Self)
        ensures
            r == (Margin {
                layable,
                values: MarginValues { r: margin, l: margin, t: margin, b: margin },
            }),
    {
        Self::new(MarginValues { r: margin, l: margin, t: margin, b: margin }, layable)
    }

    fn l_det(&self, det: Details, scale: Scale) -> (r: Details)
        ensures
            r == margin_det(self.values, det, scale),
    {
        let v = self.values;
        Details {
            x: sat_i32(det.x as i64 + scale.apply(v.l) as i64),
            y: sat_i32(det.y as i64 + scale.apply(v.t) as i64),
            aw: sat_i32(det.aw as i64 - scale.apply_wide(v.r as i64 + v.l as i64) as i64),
            ah: sat_i32(det.ah as i64 - scale.apply_wide(v.b as i64 + v.t as i64) as i64),
        }
    }
}

impl<L: Layable> Layable for Margin<L> {
    type Model = (L::Model, MarginValues);

    open spec fn model(&self) -> (L::Model, MarginValues) {
        (self.layable.model(), self.values)
    }

    open spec fn m_size(m: (L::Model, MarginValues)) -> (i32, i32) {
        margin_size(m.1, L::m_size(m.0))
    }

    open spec fn m_render(m: (L::Model, MarginValues), det: Details, scale: Scale) -> Seq<Draw> {
        L::m_render(m.0, margin_det(m.1, det, scale), scale)
    }

    open spec fn m_tick(m: (L::Model, MarginValues)) -> (L::Model, MarginValues) {
        (L::m_tick(m.0), m.1)
    }

    open spec fn m_pass(
        m: (L::Model, MarginValues),
        events: Seq<Event>,
        det: Details,
        scale: Scale,
    ) -> ((L::Model, MarginValues), Seq<ReturnEvent>) {
        let (lm, rets) = L::m_pass(m.0, events, margin_det(m.1, det, scale), scale);
        ((lm, m.1), rets)
    }

    fn size(&self) -> (r: (i32, i32)) {
        let (lw, lh) = self.layable.size();
        let v = self.values;
        (
            sat_i32(lw as i64 + v.r as i64 + v.l as i64),
            sat_i32(lh as i64 + v.t as i64 + v.b as i64),
        )
    }

    fn render(&self, det: Details, scale: Scale, out: &mut Vec<Draw>) {
        let d = self.l_det(det, scale);
        self.layable.render(d, scale, out);
    }

    fn tick(&mut self) {
        self.layable.tick();
    }

    fn pass_events(
        &mut self,
        events: &Vec<Event>,
        det: Details,
        scale: Scale,
        ret_events: &mut Vec<ReturnEvent>,
    ) {
        let d = self.l_det(det, scale);
        self.layable.pass_events(events, d, scale, ret_events);
    }
}

} // verus!
