use vstd::prelude::*;

use crate::details::{clamp_i32, div_trunc, sat_i32, sat_wide, scaled, trunc_div, Details, Scale};
use crate::event::{Event, ReturnEvent};
use crate::layable::{Draw, Layable};

verus! {

/// Which far edges [`AtEnd`] aligns to: the right (`Vert`), the bottom
/// (`Horiz`), or both.
#[derive(Clone, Copy, Debug, PartialEq, Eq, Structural, Hash)]
pub enum Mode {
    Vert,
    Horiz,
    Both,
}

impl Mode {
    pub open spec fn spec_vert(&self) -> bool {
        !(*self is Horiz)
    }

    pub open spec fn spec_horiz(&self) -> bool {
        !(*self is Vert)
    }

    /// Whether the child goes to the right edge.
    pub fn vert(&self) -> (r: bool)
        ensures
            r == self.spec_vert(),
    {
        match self {
            Mode::Vert => true,
            Mode::Horiz => false,
            Mode::Both => true,
        }
    }

    /// Whether the child goes to the bottom edge.
    pub fn horiz(&self) -> (r: bool)
        ensures
            r == self.spec_horiz(),
    {
        match self {
            Mode::Vert => false,
            Mode::Horiz => true,
            Mode::Both => true,
        }
    }
}

/// The region [`AtEnd`] gives a child of size `l`: its own size, moved to
/// the far edges that `mode` names.
pub open spec fn at_end_det(mode: Mode, l: (i32, i32), det: Details, scale: Scale) -> Details {
    Details {
        x: if mode.spec_vert() {
            clamp_i32(det.x + scaled(det.aw - l.0, scale)) as i32
        } else {
            det.x
        },
        y: if mode.spec_horiz() {
            clamp_i32(det.y + scaled(det.ah - l.1, scale)) as i32
        } else {
            det.y
        },
        aw: l.0,
        ah: l.1,
    }
}

/// Places its child against the far edges of the region.
#[derive(Clone, Debug)]
pub struct AtEnd<L> {
    pub layable: L,
    pub mode: Mode,
}

impl<L: Layable> AtEnd<L> {
    pub fn new(mode: Mode, layable: L) -> (r: Self)
        ensures
            r == (AtEnd { layable, mode }),
    {
        AtEnd { layable, mode }
    }

    pub fn to_right(layable: L) -> (r: Self)
        ensures
            r == (AtEnd { layable, mode: Mode::Vert }),
    {
        Self::new(Mode::Vert, layable)
    }

    pub fn to_bottom(layable: L) -> (r: Self)
        ensures
            r == (AtEnd { layable, mode: Mode::Horiz }),
    {
        Self::new(Mode::Horiz, layable)
    }

    pub fn to_bottom_right(layable: L) -> (r: Self)
        ensures
            r == (AtEnd { layable, mode: Mode::Both }),
    {
        Self::new(Mode::Both, layable)
    }

    fn l_det(&self, det: Details, scale: Scale) -> (r: Details)
        ensures
            r == at_end_det(self.mode, L::m_size(self.layable.model()), det, scale),
    {
        let (lw, lh) = self.layable.size();
        Details {
            x: if self.mode.vert() {
                sat_i32(det.x as i64 + scale.apply_wide(det.aw as i64 - lw as i64) as i64)
            } else {
                det.x
            },
            y: if self.mode.horiz() {
                sat_i32(det.y as i64 + scale.apply_wide(det.ah as i64 - lh as i64) as i64)
            } else {
                det.y
            },
            aw: lw,
            ah: lh,
        }
    }
}

impl<L: Layable> Layable for AtEnd<L> {
    type Model = (L::Model, Mode);

    open spec fn model(&self) -> (L::Model, Mode) {
        (self.layable.model(), self.mode)
    }

    open spec fn m_size(m: (L::Model, Mode)) -> (i32, i32) {
        L::m_size(m.0)
    }

    open spec fn m_render(m: (L::Model, Mode), det: Details, scale: Scale) -> Seq<Draw> {
        L::m_render(m.0, at_end_det(m.1, L::m_size(m.0), det, scale), scale)
    }

    open spec fn m_tick(m: (L::Model, Mode)) -> (L::Model, Mode) {
        (L::m_tick(m.0), m.1)
    }

    open spec fn m_pass(m: (L::Model, Mode), events: Seq<Event>, det: Details, scale: Scale) -> (
        (L::Model, Mode),
        Seq<ReturnEvent>,
    ) {
        let (lm, rets) = L::m_pass(m.0, events, at_end_det(m.1, L::m_size(m.0), det, scale), scale);
        ((lm, m.1), rets)
    }

    fn size(&self) -> (r: (i32, i32)) {
        self.layable.size()
    }

    fn render(&self, det: Details, scale: Scale, out: &mut Vec<Draw>) {
        let d = self.l_det(det, scale);
        self.layable.render(d, scale, out);
    }

    fn tick(&mut self) {
        self.layable.tick();
    }

    fn pass_events(
        &mut self,
        events: &Vec<Event>,
        det: Details,
        scale: Scale,
        ret_events: &mut Vec<ReturnEvent>,
    ) {
        let d = self.l_det(det, scale);
        self.layable.pass_events(events, d, scale, ret_events);
    }
}

/// How far a child of scaled length `l * scale` sits from the start of a span
/// of length `a` when centred: `a / 2 - l * scale / 2`, rounded toward zero.
pub open spec fn center_offset(a: int, l: int, scale: Scale) -> int {
    clamp_i32(trunc_div(a * 1000 - l * scale.milli, 2000))
}

/// The region [`Centered`] gives a child of size `l`.
pub open spec fn centered_det(l: (i32, i32), det: Details, scale: Scale) -> Details {
    let xo = center_offset(det.aw as int, l.0 as int, scale);
    let yo = center_offset(det.ah as int, l.1 as int, scale);
    Details {
        x: clamp_i32(det.x + xo) as i32,
        y: clamp_i32(det.y + yo) as i32,
        aw: clamp_i32(det.aw - xo) as i32,
        ah: clamp_i32(det.ah - yo) as i32,
    }
}

fn center_off(a: i32, l: i32, scale: Scale) -> (r: i32)
    ensures
        r == center_offset(a as int, l as int, scale),
{
    proof {
        assert(-0x8000_0000 * 0xffff_ffff <= l * scale.milli <= 0x7fff_ffff * 0xffff_ffff)
            by (nonlinear_arith)
            requires
                -0x8000_0000 <= l <= 0x7fff_ffff,
                0 <= scale.milli <= 0xffff_ffff,
        ;
    }
    let n: i128 = a as i128 * 1000 - l as i128 * scale.milli as i128;
    sat_wide(div_trunc(n, 2000))
}

/// Centres its child, at the child's own size, in the region.
#[derive(Clone, Debug)]
pub struct Centered<L> {
    pub layable: L,
}

impl<L: Layable> Centered<L> {
    pub fn new(layable: L) -> (r: Self)
        ensures
            r.layable == layable,
    {
        Centered { layable }
    }

    fn l_det(&self, det: Details, scale: Scale) -> (r: Details)
        ensures
            r == centered_det(L::m_size(self.layable.model()), det, scale),
    {
        let (lw, lh) = self.layable.size();
        let xo = center_off(det.aw, lw, scale);
        let yo = center_off(det.ah, lh, scale);
        Details {
            x: sat_i32(det.x as i64 + xo as i64),
            y: sat_i32(det.y as i64 + yo as i64),
            aw: sat_i32(det.aw as i64 - xo as i64),
            ah: sat_i32(det.ah as i64 - yo as i64),
        }
    }
}

impl<L: Layable> Layable for Centered<L> {
    type Model = L::Model;

    open spec fn model(&self) -> L::Model {
        self.layable.model()
    }

    open spec fn m_size(m: L::Model) -> (i32, i32) {
        L::m_size(m)
    }

    open spec fn m_render(m: L::Model, det: Details, scale: Scale) -> Seq<Draw> {
        L::m_render(m, centered_det(L::m_size(m), det, scale), scale)
    }

    open spec fn m_tick(m: L::Model) -> L::Model {
        L::m_tick(m)
    }

    open spec fn m_pass(m: L::Model, events: Seq<Event>, det: Details, scale: Scale) -> (
        L::Model,
        Seq<ReturnEvent>,
    ) {
        L::m_pass(m, events, centered_det(L::m_size(m), det, scale), scale)
    }

    fn size(&self) -> (r: (i32, i32)) {
        self.layable.size()
    }

    fn render(&self, det: Details, scale: Scale, out: &mut Vec<Draw>) {
        let d = self.l_det(det, scale);
        self.layable.render(d, scale, out);
    }

    fn tick(&mut self) {
        self.layable.tick();
    }

    fn pass_events(
        &mut self,
        events: &Vec<Event>,
        det: Details,
        scale: Scale,
        ret_events: &mut Vec<ReturnEvent>,
    ) {
        let d = self.l_det(det, scale);
        self.layable.pass_events(events, d, scale, ret_events);
    }
}

} // verus!
