use vstd::prelude::*;

use crate::details::{Details, Scale};
use crate::div::Div;
use crate::event::{Event, ReturnEvent};
use crate::layable::{Color, Draw, Layable, Space};

verus! {

/// One of the library's base components, or a component of the type `C`:
/// a closed sum that lets components of different types stand side by side,
/// for instance as the children of one [`Div`].
#[derive(Clone, Debug)]
pub enum Comp<C> {
    Div(Div<C>),
    Space(Space),
    Color(Color),
    Other(C),
}

/// Which alternative a [`Comp`] holds.
#[derive(Clone, Copy, Debug, PartialEq, Eq, Structural, Hash)]
pub enum CompKind {
    Div,
    Space,
    Color,
    Other,
}

/// The model of a [`Comp`]: the model of the component it holds.
pub enum CompModel<M> {
    Div((Seq<M>, bool)),
    Space(Space),
    Color(Color),
    Other(M),
}

impl<C: Layable> Comp<C> {
    pub open spec fn spec_kind(&self) -> CompKind {
        match self {
            Comp::Div(_) => CompKind::Div,
            Comp::Space(_) => CompKind::Space,
            Comp::Color(_) => CompKind::Color,
            Comp::Other(_) => CompKind::Other,
        }
    }

    /// Which alternative this holds.
    pub fn kind(&self) -> (r: CompKind)
        ensures
            r == self.spec_kind(),
    {
        match self {
            Comp::Div(_) => CompKind::Div,
            Comp::Space(_) => CompKind::Space,
            Comp::Color(_) => CompKind::Color,
            Comp::Other(_) => CompKind::Other,
        }
    }

    /// Wraps `c`.
    pub fn new<T: Compatible<C>>(c: T) -> (r: Self)
        ensures
            r == c.spec_into_comp(),
            r.spec_kind() == T::kind(),
            r.model() == T::comp_model(c.model()),
    {
        proof {
            c.lemma_into_comp();
        }
        c.into_comp()
    }

    /// Whether this holds a `T`.
    pub fn can_take<T: Compatible<C>>(&self) -> (r: bool)
        ensures
            r == (self.spec_kind() == T::kind()),
    {
        self.kind() == T::comp_kind()
    }

    /// The component, if it is a `T`: a value wrapped as a `T` comes back as
    /// that very value.
    pub fn take<T: Compatible<C>>(self) -> (r: Option<T>)
        ensures
            r is Some <==> self.spec_kind() == T::kind(),
            r matches Some(t) ==> t.spec_into_comp() == self,
            forall|v: T| #[trigger] v.spec_into_comp() == self ==> r == Some(v),
    {
        let r = T::from_comp(self);
        proof {
            assert forall|v: T| #[trigger] v.spec_into_comp() == self implies r == Some(v) by {
                v.lemma_into_comp();
                let t = r->0;
                T::lemma_into_injective(t, v);
            }
        }
        r
    }

    /// Wraps a component of the open type `C`.
    pub fn other(c: C) -> (r: Self)
        ensures
            r == Comp::Other(c),
    {
        Comp::Other(c)
    }
}

/// A type that a [`Comp`] can hold, each in one alternative of its own: no
/// two implementing types share a kind (see [`law_kinds_distinct`]), so the
/// kind decides the type.
pub trait Compatible<C: Layable>: Layable + Sized {
    spec fn kind() -> CompKind;

    spec fn spec_into_comp(self) -> Comp<C>;

    /// The model of the wrapped component, from that of the component.
    spec fn comp_model(m: Self::Model) -> CompModel<C::Model>;

    proof fn lemma_into_comp(self)
        ensures
            self.spec_into_comp().spec_kind() == Self::kind(),
            self.spec_into_comp().model() == Self::comp_model(self.model()),
    ;

    /// Two values that wrap to the same component are the same value.
    proof fn lemma_into_injective(a: Self, b: Self)
        requires
            a.spec_into_comp() == b.spec_into_comp(),
        ensures
            a == b,
    ;

    /// Wrapping keeps what the component reports and does: its size, what it
    /// draws, and what it does with events.
    proof fn lemma_comp_model(m: Self::Model, events: Seq<Event>, det: Details, scale: Scale)
        ensures
            Comp::<C>::m_size(Self::comp_model(m)) == Self::m_size(m),
            Comp::<C>::m_render(Self::comp_model(m), det, scale) == Self::m_render(m, det, scale),
            Comp::<C>::m_pass(Self::comp_model(m), events, det, scale) == (
                Self::comp_model(Self::m_pass(m, events, det, scale).0),
                Self::m_pass(m, events, det, scale).1,
            ),
    ;

    fn comp_kind() -> (r: CompKind)
        ensures
            r == Self::kind(),
    ;

    fn into_comp(self) -> (r: Comp<C>)
        ensures
            r == self.spec_into_comp(),
    ;

    fn from_comp(c: Comp<C>) -> (r: Option<Self>)
        ensures
            r is Some <==> c.spec_kind() == Self::kind(),
            r matches Some(t) ==> t.spec_into_comp() == c,
    ;
}

impl<C: Layable> Compatible<C> for Space {
    open spec fn kind() -> CompKind {
        CompKind::Space
    }

    open spec fn spec_into_comp(self) -> Comp<C> {
        Comp::Space(self)
    }

    open spec fn comp_model(m: Space) -> CompModel<C::Model> {
        CompModel::Space(m)
    }

    proof fn lemma_into_comp(self) {
    }

    proof fn lemma_comp_model(m: Space, events: Seq<Event>, det: Details, scale: Scale) {
    }

    proof fn lemma_into_injective(a: Space, b: Space) {
    }

    fn comp_kind() -> (r: CompKind) {
        CompKind::Space
    }

    fn into_comp(self) -> (r: Comp<C>) {
        Comp::Space(self)
    }

    fn from_comp(c: Comp<C>) -> (r: Option<Self>) {
        match c {
            Comp::Space(s) => Some(s),
            _ => None,
        }
    }
}

impl<C: Layable> Compatible<C> for Color {
    open spec fn kind() -> CompKind {
        CompKind::Color
    }

    open spec fn spec_into_comp(self) -> Comp<C> {
        Comp::Color(self)
    }

    open spec fn comp_model(m: Color) -> CompModel<C::Model> {
        CompModel::Color(m)
    }

    proof fn lemma_into_comp(self) {
    }

    proof fn lemma_comp_model(m: Color, events: Seq<Event>, det: Details, scale: Scale) {
    }

    proof fn lemma_into_injective(a: Color, b: Color) {
    }

    fn comp_kind() -> (r: CompKind) {
        CompKind::Color
    }

    fn into_comp(self) -> (r: Comp<C>) {
        Comp::Color(self)
    }

    fn from_comp(c: Comp<C>) -> (r: Option<Self>) {
        match c {
            Comp::Color(s) => Some(s),
            _ => None,
        }
    }
}

impl<C: Layable> Compatible<C> for Div<C> {
    open spec fn kind() -> CompKind {
        CompKind::Div
    }

    open spec fn spec_into_comp(self) -> Comp<C> {
        Comp::Div(self)
    }

    open spec fn comp_model(m: (Seq<C::Model>, bool)) -> CompModel<C::Model> {
        CompModel::Div(m)
    }

    proof fn lemma_into_comp(self) {
    }

    proof fn lemma_comp_model(m: (Seq<C::Model>, bool), events: Seq<Event>, det: Details, scale: Scale) {
    }

    proof fn lemma_into_injective(a: Div<C>, b: Div<C>) {
    }

    fn comp_kind() -> (r: CompKind) {
        CompKind::Div
    }

    fn into_comp(self) -> (r: Comp<C>) {
        Comp::Div(self)
    }

    fn from_comp(c: Comp<C>) -> (r: Option<Self>) {
        match c {
            Comp::Div(s) => Some(s),
            _ => None,
        }
    }
}

impl<C: Layable> Layable for Comp<C> {
    type Model = CompModel<C::Model>;

    open spec fn model(&self) -> CompModel<C::Model> {
        match self {
            Comp::Div(d) => CompModel::Div(d.model()),
            Comp::Space(s) => CompModel::Space(*s),
            Comp::Color(c) => CompModel::Color(*c),
            Comp::Other(o) => CompModel::Other(o.model()),
        }
    }

    open spec fn m_size(m: CompModel<C::Model>) -> (i32, i32) {
        match m {
            CompModel::Div(d) => Div::<C>::m_size(d),
            CompModel::Space(s) => Space::m_size(s),
            CompModel::Color(c) => Color::m_size(c),
            CompModel::Other(o) => C::m_size(o),
        }
    }

    open spec fn m_render(m: CompModel<C::Model>, det: Details, scale: Scale) -> Seq<Draw> {
        match m {
            CompModel::Div(d) => Div::<C>::m_render(d, det, scale),
            CompModel::Space(s) => Space::m_render(s, det, scale),
            CompModel::Color(c) => Color::m_render(c, det, scale),
            CompModel::Other(o) => C::m_render(o, det, scale),
        }
    }

    open spec fn m_tick(m: CompModel<C::Model>) -> CompModel<C::Model> {
        match m {
            CompModel::Div(d) => CompModel::Div(Div::<C>::m_tick(d)),
            CompModel::Space(s) => CompModel::Space(Space::m_tick(s)),
            CompModel::Color(c) => CompModel::Color(Color::m_tick(c)),
            CompModel::Other(o) => CompModel::Other(C::m_tick(o)),
        }
    }

    open spec fn m_pass(m: CompModel<C::Model>, events: Seq<Event>, det: Details, scale: Scale) -> (
        CompModel<C::Model>,
        Seq<ReturnEvent>,
    ) {
        match m {
            CompModel::Div(d) => {
                let (d2, r) = Div::<C>::m_pass(d, events, det, scale);
                (CompModel::Div(d2), r)
            },
            CompModel::Space(s) => {
                let (s2, r) = Space::m_pass(s, events, det, scale);
                (CompModel::Space(s2), r)
            },
            CompModel::Color(c) => {
                let (c2, r) = Color::m_pass(c, events, det, scale);
                (CompModel::Color(c2), r)
            },
            CompModel::Other(o) => {
                let (o2, r) = C::m_pass(o, events, det, scale);
                (CompModel::Other(o2), r)
            },
        }
    }

    fn size(&self) -> (r: (i32, i32)) {
        match self {
            Comp::Div(d) => d.size(),
            Comp::Space(s) => s.size(),
            Comp::Color(c) => c.size(),
            Comp::Other(o) => o.size(),
        }
    }

    fn render(&self, det: Details, scale: Scale, out: &mut Vec<Draw>) {
        match self {
            Comp::Div(d) => d.render(det, scale, out),
            Comp::Space(s) => s.render(det, scale, out),
            Comp::Color(c) => c.render(det, scale, out),
            Comp::Other(o) => o.render(det, scale, out),
        }
    }

    fn tick(&mut self) {
        match self {
            Comp::Div(d) => d.tick(),
            Comp::Space(s) => s.tick(),
            Comp::Color(c) => c.tick(),
            Comp::Other(o) => o.tick(),
        }
    }

    fn pass_events(
        &mut self,
        events: &Vec<Event>,
        det: Details,
        scale: Scale,
        ret_events: &mut Vec<ReturnEvent>,
    ) {
        match self {
            Comp::Div(d) => d.pass_events(events, det, scale, ret_events),
            Comp::Space(s) => s.pass_events(events, det, scale, ret_events),
            Comp::Color(c) => c.pass_events(events, det, scale, ret_events),
            Comp::Other(o) => o.pass_events(events, det, scale, ret_events),
        }
    }
}

/// Wrapping a component and unwrapping it as its own type gives it back;
/// unwrapping it as a type of another alternative gives nothing. Wrapped, it
/// reports the same size, draws the same, and answers events the same.
pub proof fn law_comp_round_trip<C: Layable, T: Compatible<C>, U: Compatible<C>>(
    v: T,
    events: Seq<Event>,
    det: Details,
    scale: Scale,
)
    ensures
        (v.spec_into_comp().spec_kind() == U::kind()) <==> (T::kind() == U::kind()),
        Comp::<C>::m_size(v.spec_into_comp().model()) == T::m_size(v.model()),
        Comp::<C>::m_render(v.spec_into_comp().model(), det, scale) == T::m_render(
            v.model(),
            det,
            scale,
        ),
        Comp::<C>::m_pass(v.spec_into_comp().model(), events, det, scale).1 == T::m_pass(
            v.model(),
            events,
            det,
            scale,
        ).1,
{
    v.lemma_into_comp();
    T::lemma_comp_model(v.model(), events, det, scale);
}

/// The types that a [`Comp`] holds each have a kind of their own, so taking
/// a wrapped component back succeeds for its own type and no other.
pub proof fn law_kinds_distinct<C: Layable>()
    ensures
        <Space as Compatible<C>>::kind() != <Color as Compatible<C>>::kind(),
        <Space as Compatible<C>>::kind() != <Div<C> as Compatible<C>>::kind(),
        <Color as Compatible<C>>::kind() != <Div<C> as Compatible<C>>::kind(),
        <Space as Compatible<C>>::kind() != CompKind::Other,
        <Color as Compatible<C>>::kind() != CompKind::Other,
        <Div<C> as Compatible<C>>::kind() != CompKind::Other,
{
}

} // verus!
