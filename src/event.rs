use vstd::prelude::*;

use crate::details::{Details, Scale};
use crate::form::{FocusCommand, TypeEvent, UniqueId};

verus! {

/// A pointer event, in window coordinates.
#[derive(Clone, Copy, Debug, PartialEq, Eq, Hash)]
pub enum MouseEvent {
    MouseClick { x: i32, y: i32 },
    MouseHeld { x: i32, y: i32 },
    MouseRelease { x: i32, y: i32 },
    /// a wheel movement of `amount` notches; positive is away from the user
    Scroll { x: i32, y: i32, amount: i32 },
}

impl MouseEvent {
    pub open spec fn spec_at(&self) -> (i32, i32) {
        match *self {
            MouseEvent::MouseClick { x, y } => (x, y),
            MouseEvent::MouseHeld { x, y } => (x, y),
            MouseEvent::MouseRelease { x, y } => (x, y),
            MouseEvent::Scroll { x, y, .. } => (x, y),
        }
    }

    /// Where the pointer was.
    pub fn at(&self) -> (r: (i32, i32))
        ensures
            r == self.spec_at(),
    {
        match *self {
            MouseEvent::MouseClick { x, y } => (x, y),
            MouseEvent::MouseHeld { x, y } => (x, y),
            MouseEvent::MouseRelease { x, y } => (x, y),
            MouseEvent::Scroll { x, y, .. } => (x, y),
        }
    }
}

/// A keyboard event: a typed character, or a key held down by its code.
#[derive(Clone, Copy, Debug, PartialEq, Eq, Hash)]
pub enum KeyboardEvent {
    CharPressed(char),
    KeyDown(i32),
}

/// An input event; a keyboard event carries the focus it was sent to.
#[derive(Clone, Copy, Debug, PartialEq, Eq, Hash)]
pub enum Event {
    MouseEvent(MouseEvent),
    KeyboardEvent(UniqueId, KeyboardEvent),
}

/// Whether `e` concerns a region `det`: pointer events by where they happened,
/// keyboard events always.
pub open spec fn event_applies(e: Event, det: Details) -> bool {
    match e {
        Event::MouseEvent(m) => det.spec_is_inside(m.spec_at().0 as int, m.spec_at().1 as int),
        Event::KeyboardEvent(..) => true,
    }
}

/// The events of `events` that concern `det`, in order.
pub open spec fn events_in(events: Seq<Event>, det: Details) -> Seq<Event>
    decreases events.len(),
{
    if events.len() == 0 {
        events
    } else {
        let rest = events_in(events.drop_last(), det);
        if event_applies(events.last(), det) {
            rest.push(events.last())
        } else {
            rest
        }
    }
}

impl Event {
    /// Wraps a result for the ancestors; see [`ReturnEvent::new`].
    pub fn ret<T: Payload>(ret: T) -> (r: ReturnEvent)
        ensures
            r == ret.spec_into(),
    {
        ReturnEvent::new(ret)
    }
}

/// Filters `events` down to those that concern `det`.
pub fn filter_events(events: &Vec<Event>, det: Details) -> (r: Vec<Event>)
    ensures
        r@ == events_in(events@, det),
{
    let mut r: Vec<Event> = Vec::new();
    let mut i: usize = 0;
    while i < events.len()
        invariant
            i <= events@.len(),
            r@ == events_in(events@.take(i as int), det),
        decreases events@.len() - i,
    {
        let e = events[i];
        let keep = match e {
            Event::MouseEvent(m) => det.is_inside_tuple(m.at()),
            Event::KeyboardEvent(..) => true,
        };
        if keep {
            r.push(e);
        }
        proof {
            let s = events@.take(i as int + 1);
            assert(s.drop_last() =~= events@.take(i as int));
            assert(s.last() == e);
        }
        i = i + 1;
    }
    assert(events@.take(events@.len() as int) =~= events@);
    r
}

/// An application-defined command, known by its number.
#[derive(Clone, Copy, Debug, PartialEq, Eq, Hash)]
pub struct AppCommand(pub u64);

/// A request to open or close the application's dialog. The dialog's
/// content belongs to the application, which names it by a number; it is
/// shown with its origin at `(x, y)`, drawn at `scale`.
#[derive(Clone, Copy, Debug, PartialEq, Eq, Hash)]
pub enum DialogCommand {
    Open { content: u64, x: i32, y: i32, scale: Scale },
    Close,
}

/// The kinds of value a [`ReturnEvent`] can carry; a payload type has one.
#[derive(Clone, Copy, Debug, PartialEq, Eq, Structural, Hash)]
pub enum PayloadKind {
    Input,
    Focus,
    Type,
    Dialog,
    App,
}

/// A result that a component hands up to its ancestors, which claim it by
/// the kind of its payload.
#[derive(Clone, Copy, Debug, PartialEq, Eq, Hash)]
pub enum ReturnEvent {
    Input(Event),
    Focus(FocusCommand),
    Type(TypeEvent),
    Dialog(DialogCommand),
    App(AppCommand),
}

impl ReturnEvent {
    pub open spec fn spec_kind(&self) -> PayloadKind {
        match *self {
            ReturnEvent::Input(_) => PayloadKind::Input,
            ReturnEvent::Focus(_) => PayloadKind::Focus,
            ReturnEvent::Type(_) => PayloadKind::Type,
            ReturnEvent::Dialog(_) => PayloadKind::Dialog,
            ReturnEvent::App(_) => PayloadKind::App,
        }
    }

    /// The kind of the payload.
    pub fn kind(&self) -> (r: PayloadKind)
        ensures
            r == self.spec_kind(),
    {
        match *self {
            ReturnEvent::Input(_) => PayloadKind::Input,
            ReturnEvent::Focus(_) => PayloadKind::Focus,
            ReturnEvent::Type(_) => PayloadKind::Type,
            ReturnEvent::Dialog(_) => PayloadKind::Dialog,
            ReturnEvent::App(_) => PayloadKind::App,
        }
    }

    /// Wraps `event`.
    pub fn new<T: Payload>(event: T) -> (r: Self)
        ensures
            r == event.spec_into(),
            r.spec_kind() == T::kind(),
    {
        proof {
            event.lemma_into_kind();
        }
        event.into_return()
    }

    /// Whether the payload is of type `T`.
    pub fn can_take<T: Payload>(&self) -> (r: bool)
        ensures
            r == (self.spec_kind() == T::kind()),
    {
        let k = self.kind();
        k == T::payload_kind()
    }

    /// The payload, if it is of type `T`.
    pub fn take<T: Payload>(self) -> (r: Option<T>)
        ensures
            r == if self.spec_kind() == T::kind() {
                Some(T::spec_from(self))
            } else {
                None::<T>
            },
            r matches Some(t) ==> t.spec_into() == self,
    {
        let r = T::from_return(self);
        proof {
            if self.spec_kind() == T::kind() {
                T::lemma_from_into(self);
            }
        }
        r
    }
}

/// A type that a [`ReturnEvent`] can carry. Each such type is of one
/// [`PayloadKind`], and the kind alone decides whether a return event holds it.
pub trait Payload: Sized {
    spec fn kind() -> PayloadKind;

    spec fn spec_into(self) -> ReturnEvent;

    spec fn spec_from(ev: ReturnEvent) -> Self;

    proof fn lemma_into_kind(self)
        ensures
            self.spec_into().spec_kind() == Self::kind(),
            Self::spec_from(self.spec_into()) == self,
    ;

    proof fn lemma_from_into(ev: ReturnEvent)
        requires
            ev.spec_kind() == Self::kind(),
        ensures
            Self::spec_from(ev).spec_into() == ev,
    ;

    fn payload_kind() -> (r: PayloadKind)
        ensures
            r == Self::kind(),
    ;

    fn into_return(self) -> (r: ReturnEvent)
        ensures
            r == self.spec_into(),
    ;

    fn from_return(ev: ReturnEvent) -> (r: Option<Self>)
        ensures
            r == if ev.spec_kind() == Self::kind() {
                Some(Self::spec_from(ev))
            } else {
                None::<Self>
            },
    ;
}

impl Payload for Event {
    open spec fn kind() -> PayloadKind {
        PayloadKind::Input
    }

    open spec fn spec_into(self) -> ReturnEvent {
        ReturnEvent::Input(self)
    }

    open spec fn spec_from(ev: ReturnEvent) -> Self {
        match ev {
            ReturnEvent::Input(e) => e,
            _ => arbitrary(),
        }
    }

    proof fn lemma_into_kind(self) {
    }

    proof fn lemma_from_into(ev: ReturnEvent) {
    }

    fn payload_kind() -> (r: PayloadKind) {
        PayloadKind::Input
    }

    fn into_return(self) -> (r: ReturnEvent) {
        ReturnEvent::Input(self)
    }

    fn from_return(ev: ReturnEvent) -> (r: Option<Self>) {
        match ev {
            ReturnEvent::Input(e) => Some(e),
            _ => None,
        }
    }
}

impl Payload for FocusCommand {
    open spec fn kind() -> PayloadKind {
        PayloadKind::Focus
    }

    open spec fn spec_into(self) -> ReturnEvent {
        ReturnEvent::Focus(self)
    }

    open spec fn spec_from(ev: ReturnEvent) -> Self {
        match ev {
            ReturnEvent::Focus(c) => c,
            _ => arbitrary(),
        }
    }

    proof fn lemma_into_kind(self) {
    }

    proof fn lemma_from_into(ev: ReturnEvent) {
    }

    fn payload_kind() -> (r: PayloadKind) {
        PayloadKind::Focus
    }

    fn into_return(self) -> (r: ReturnEvent) {
        ReturnEvent::Focus(self)
    }

    fn from_return(ev: ReturnEvent) -> (r: Option<Self>) {
        match ev {
            ReturnEvent::Focus(c) => Some(c),
            _ => None,
        }
    }
}

impl Payload for TypeEvent {
    open spec fn kind() -> PayloadKind {
        PayloadKind::Type
    }

    open spec fn spec_into(self) -> ReturnEvent {
        ReturnEvent::Type(self)
    }

    open spec fn spec_from(ev: ReturnEvent) -> Self {
        match ev {
            ReturnEvent::Type(c) => c,
            _ => arbitrary(),
        }
    }

    proof fn lemma_into_kind(self) {
    }

    proof fn lemma_from_into(ev: ReturnEvent) {
    }

    fn payload_kind() -> (r: PayloadKind) {
        PayloadKind::Type
    }

    fn into_return(self) -> (r: ReturnEvent) {
        ReturnEvent::Type(self)
    }

    fn from_return(ev: ReturnEvent) -> (r: Option<Self>) {
        match ev {
            ReturnEvent::Type(c) => Some(c),
            _ => None,
        }
    }
}

impl Payload for DialogCommand {
    open spec fn kind() -> PayloadKind {
        PayloadKind::Dialog
    }

    open spec fn spec_into(self) -> ReturnEvent {
        ReturnEvent::Dialog(self)
    }

    open spec fn spec_from(ev: ReturnEvent) -> Self {
        match ev {
            ReturnEvent::Dialog(c) => c,
            _ => arbitrary(),
        }
    }

    proof fn lemma_into_kind(self) {
    }

    proof fn lemma_from_into(ev: ReturnEvent) {
    }

    fn payload_kind() -> (r: PayloadKind) {
        PayloadKind::Dialog
    }

    fn into_return(self) -> (r: ReturnEvent) {
        ReturnEvent::Dialog(self)
    }

    fn from_return(ev: ReturnEvent) -> (r: Option<Self>) {
        match ev {
            ReturnEvent::Dialog(c) => Some(c),
            _ => None,
        }
    }
}

impl Payload for AppCommand {
    open spec fn kind() -> PayloadKind {
        PayloadKind::App
    }

    open spec fn spec_into(self) -> ReturnEvent {
        ReturnEvent::App(self)
    }

    open spec fn spec_from(ev: ReturnEvent) -> Self {
        match ev {
            ReturnEvent::App(c) => c,
            _ => arbitrary(),
        }
    }

    proof fn lemma_into_kind(self) {
    }

    proof fn lemma_from_into(ev: ReturnEvent) {
    }

    fn payload_kind() -> (r: PayloadKind) {
        PayloadKind::App
    }

    fn into_return(self) -> (r: ReturnEvent) {
        ReturnEvent::App(self)
    }

    fn from_return(ev: ReturnEvent) -> (r: Option<Self>) {
        match ev {
            ReturnEvent::App(c) => Some(c),
            _ => None,
        }
    }
}

/// An application's own event type, which the library's commands can be
/// turned into.
pub trait FeaturedReturn: Sized {
    spec fn spec_from_focus(c: FocusCommand) -> Self;

    spec fn spec_from_type(c: TypeEvent) -> Self;

    spec fn spec_from_dialog(c: DialogCommand) -> Self;

    fn from_focus(c: FocusCommand) -> (r: Self)
        ensures
            r == Self::spec_from_focus(c),
    ;

    fn from_type(c: TypeEvent) -> (r: Self)
        ensures
            r == Self::spec_from_type(c),
    ;

    fn from_dialog(c: DialogCommand) -> (r: Self)
        ensures
            r == Self::spec_from_dialog(c),
    ;
}

/// What [`cast_event`] makes of `event`.
pub open spec fn spec_cast_event<E: FeaturedReturn>(event: ReturnEvent) -> Result<E, ReturnEvent> {
    match event {
        ReturnEvent::Focus(c) => Ok(E::spec_from_focus(c)),
        ReturnEvent::Type(c) => Ok(E::spec_from_type(c)),
        ReturnEvent::Dialog(c) => Ok(E::spec_from_dialog(c)),
        _ => Err(event),
    }
}

/// Turns a library command into the application's event type; any other
/// return event comes back unchanged, for the caller to handle or log.
pub fn cast_event<E: FeaturedReturn>(event: ReturnEvent) -> (r: Result<E, ReturnEvent>)
    ensures
        r == spec_cast_event::<E>(event),
{
    if event.can_take::<FocusCommand>() {
        match event.take::<FocusCommand>() {
            Some(c) => Ok(E::from_focus(c)),
            None => Err(event),
        }
    } else if event.can_take::<TypeEvent>() {
        match event.take::<TypeEvent>() {
            Some(c) => Ok(E::from_type(c)),
            None => Err(event),
        }
    } else if event.can_take::<DialogCommand>() {
        match event.take::<DialogCommand>() {
            Some(c) => Ok(E::from_dialog(c)),
            None => Err(event),
        }
    } else {
        Err(event)
    }
}

/// The commands that the library itself issues, as one type.
#[derive(Clone, Copy, Debug, PartialEq, Eq, Hash)]
pub enum Command {
    Focus(FocusCommand),
    Type(TypeEvent),
    Dialog(DialogCommand),
}

impl FeaturedReturn for Command {
    open spec fn spec_from_focus(c: FocusCommand) -> Self {
        Command::Focus(c)
    }

    open spec fn spec_from_type(c: TypeEvent) -> Self {
        Command::Type(c)
    }

    open spec fn spec_from_dialog(c: DialogCommand) -> Self {
        Command::Dialog(c)
    }

    fn from_focus(c: FocusCommand) -> (r: Self) {
        Command::Focus(c)
    }

    fn from_dialog(c: DialogCommand) -> (r: Self) {
        Command::Dialog(c)
    }

    fn from_type(c: TypeEvent) -> (r: Self) {
        Command::Type(c)
    }
}

/// A return event that is no library command is left as it was by
/// [`cast_event`]: it reaches no application event.
pub proof fn law_unclaimed_event_kept<E: FeaturedReturn>(event: ReturnEvent)
    requires
        event.spec_kind() != PayloadKind::Focus,
        event.spec_kind() != PayloadKind::Type,
        event.spec_kind() != PayloadKind::Dialog,
    ensures
        spec_cast_event::<E>(event) == Err::<E, ReturnEvent>(event),
{
}

/// Wrapping a payload and taking it back as the same type gives the payload;
/// taking it as a type of another kind gives nothing.
pub proof fn law_take_exact<A: Payload, B: Payload>(a: A)
    ensures
        a.spec_into().spec_kind() == B::kind() <==> A::kind() == B::kind(),
        A::spec_from(a.spec_into()) == a,
{
    a.lemma_into_kind();
}

} // verus!
