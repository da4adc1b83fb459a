use vstd::prelude::*;

use crate::details::{Details, Scale};
use crate::event::{
    cast_event, spec_cast_event, Event, FeaturedReturn, KeyboardEvent, MouseEvent, ReturnEvent,
};
use crate::form::{UniqueId, BACKSPACE};
use crate::layable::{pass_events_simple, Draw, Layable};

verus! {

/// The input of one frame, as the host polled it.
#[derive(Clone, Debug, PartialEq, Eq)]
pub struct InputState {
    pub ptr_x: i32,
    pub ptr_y: i32,
    /// the main button went down this frame
    pub pressed: bool,
    /// the main button is down
    pub down: bool,
    /// the main button went up this frame
    pub released: bool,
    /// wheel movement this frame, in notches
    pub wheel: i32,
    /// the character typed this frame, if any
    pub char_pressed: Option<char>,
    pub backspace_pressed: bool,
    pub enter_pressed: bool,
    /// the codes of the keys held down, in polling order
    pub keys_down: Vec<i32>,
}

/// The pointer events of a frame: only when the pointer is at or past the region's
/// origin; a click, a hold, a release and a wheel movement, in that order,
/// each if it happened.
pub open spec fn pointer_events(input: InputState, det: Details) -> Seq<Event> {
    let (x, y) = (input.ptr_x, input.ptr_y);
    if x >= det.x && y >= det.y {
        (if input.pressed {
            seq![Event::MouseEvent(MouseEvent::MouseClick { x, y })]
        } else {
            seq![]
        }) + (if input.down {
            seq![Event::MouseEvent(MouseEvent::MouseHeld { x, y })]
        } else {
            seq![]
        }) + (if input.released {
            seq![Event::MouseEvent(MouseEvent::MouseRelease { x, y })]
        } else {
            seq![]
        }) + (if input.wheel != 0 {
            seq![Event::MouseEvent(MouseEvent::Scroll { x, y, amount: input.wheel })]
        } else {
            seq![]
        })
    } else {
        seq![]
    }
}

/// The character a frame types: the typed character, else backspace, else
/// a newline for enter.
pub open spec fn typed_char(input: InputState) -> Option<char> {
    match input.char_pressed {
        Some(c) => Some(c),
        None => if input.backspace_pressed {
            Some(BACKSPACE)
        } else if input.enter_pressed {
            Some('\n')
        } else {
            None
        },
    }
}

/// The events of a frame: the pointer events, then the typed character, then
/// one event per key held down; keyboard events go to `focus`.
pub open spec fn input_events(input: InputState, det: Details, focus: UniqueId) -> Seq<Event> {
    pointer_events(input, det) + typed_events(input, focus) + key_events(input.keys_down@, focus)
}

/// Turns a frame's input into the events to dispatch.
pub fn collect_events(input: &InputState, det: Details, focus: UniqueId) -> (r: Vec<Event>)
    ensures
        r@ == input_events(*input, det, focus),
{
    let mut r: Vec<Event> = Vec::new();
    push_pointer_events(input, det, &mut r);
    push_typed_char(input, focus, &mut r);
    push_keys_down(input, focus, &mut r);
    proof {
        assert(r@ =~= input_events(*input, det, focus));
    }
    r
}

fn push_pointer_events(input: &InputState, det: Details, r: &mut Vec<Event>)
    ensures
        final(r)@ == old(r)@ + pointer_events(*input, det),
{
    let (x, y) = (input.ptr_x, input.ptr_y);
    if x >= det.x && y >= det.y {
        if input.pressed {
            r.push(Event::MouseEvent(MouseEvent::MouseClick { x, y }));
        }
        if input.down {
            r.push(Event::MouseEvent(MouseEvent::MouseHeld { x, y }));
        }
        if input.released {
            r.push(Event::MouseEvent(MouseEvent::MouseRelease { x, y }));
        }
        if input.wheel != 0 {
            r.push(Event::MouseEvent(MouseEvent::Scroll { x, y, amount: input.wheel }));
        }
    }
    assert(r@ =~= old(r)@ + pointer_events(*input, det));
}

/// The keyboard event of the typed character, if any.
pub open spec fn typed_events(input: InputState, focus: UniqueId) -> Seq<Event> {
    match typed_char(input) {
        Some(c) => seq![Event::KeyboardEvent(focus, KeyboardEvent::CharPressed(c))],
        None => seq![],
    }
}

fn push_typed_char(input: &InputState, focus: UniqueId, r: &mut Vec<Event>)
    ensures
        final(r)@ == old(r)@ + typed_events(*input, focus),
{
    let ghost r0 = r@;
    let key: Option<char> = match input.char_pressed {
        Some(c) => Some(c),
        None => if input.backspace_pressed {
            Some(BACKSPACE)
        } else if input.enter_pressed {
            Some('\n')
        } else {
            None
        },
    };
    assert(key == typed_char(*input));
    if key.is_some() {
        let c = key.unwrap();
        let e = Event::KeyboardEvent(focus, KeyboardEvent::CharPressed(c));
        r.push(e);
        proof {
            lemma_typed_events(*input, focus, c, r0);
        }
    } else {
        proof {
            assert(r0 =~= r0 + typed_events(*input, focus));
        }
    }
}

/// One keyboard event per key held down.
pub open spec fn key_events(keys: Seq<i32>, focus: UniqueId) -> Seq<Event> {
    keys.map_values(|k: i32| Event::KeyboardEvent(focus, KeyboardEvent::KeyDown(k)))
}

fn push_keys_down(input: &InputState, focus: UniqueId, r: &mut Vec<Event>)
    ensures
        final(r)@ == old(r)@ + key_events(input.keys_down@, focus),
{
    let ghost head = r@;
    let mut i: usize = 0;
    while i < input.keys_down.len()
        invariant
            i <= input.keys_down@.len(),
            r@ == head + key_events(input.keys_down@.take(i as int), focus),
        decreases input.keys_down@.len() - i,
    {
        r.push(Event::KeyboardEvent(focus, KeyboardEvent::KeyDown(input.keys_down[i])));
        proof {
            assert(key_events(input.keys_down@.take(i + 1), focus) =~= key_events(
                input.keys_down@.take(i as int),
                focus,
            ).push(Event::KeyboardEvent(focus, KeyboardEvent::KeyDown(input.keys_down@[i as int]))));
        }
        i = i + 1;
    }
    proof {
        assert(input.keys_down@.take(input.keys_down@.len() as int) =~= input.keys_down@);
    }
}

/// The results of a dispatch, each turned into the application's event type
/// where it is a library command.
pub open spec fn cast_all<E: FeaturedReturn>(rets: Seq<ReturnEvent>) -> Seq<Result<E, ReturnEvent>> {
    rets.map_values(|r: ReturnEvent| spec_cast_event::<E>(r))
}

/// The root of a component tree: the component, and the region and scale it
/// is drawn and dispatched at, so that drawing and events always agree.
#[derive(Clone, Debug)]
pub struct RootContext<L> {
    pub layable: L,
    pub det: Details,
    pub scale: Scale,
}

impl<L: Layable> RootContext<L> {
    pub fn new(layable: L, det: Details, scale: Scale) -> (r: Self)
        ensures
            r == (RootContext { layable, det, scale }),
    {
        RootContext { layable, det, scale }
    }

    /// Draws the tree.
    pub fn render(&self, out: &mut Vec<Draw>)
        ensures
            final(out)@ == old(out)@ + L::m_render(self.layable.model(), self.det, self.scale),
    {
        self.layable.render(self.det, self.scale, out);
    }

    /// Advances the tree one frame.
    pub fn tick(&mut self)
        ensures
            final(self).layable.model() == L::m_tick(old(self).layable.model()),
            final(self).det == old(self).det,
            final(self).scale == old(self).scale,
    {
        self.layable.tick();
    }

    /// Dispatches `events` to the tree and returns its results, library
    /// commands turned into `E`, anything else as it came.
    pub fn dispatch<E: FeaturedReturn>(&mut self, events: &Vec<Event>) -> (r: Vec<Result<E, ReturnEvent>>)
        ensures
            final(self).layable.model() == L::m_pass(
                old(self).layable.model(),
                events@,
                old(self).det,
                old(self).scale,
            ).0,
            final(self).det == old(self).det,
            final(self).scale == old(self).scale,
            r@ == cast_all::<E>(
                L::m_pass(old(self).layable.model(), events@, old(self).det, old(self).scale).1,
            ),
    {
        let rets = pass_events_simple(&mut self.layable, events, self.det, self.scale);
        let mut r: Vec<Result<E, ReturnEvent>> = Vec::new();
        let mut i: usize = 0;
        while i < rets.len()
            invariant
                i <= rets@.len(),
                r@ == cast_all::<E>(rets@.take(i as int)),
            decreases rets@.len() - i,
        {
            r.push(cast_event::<E>(rets[i]));
            proof {
                assert(rets@.take(i + 1) =~= rets@.take(i as int).push(rets@[i as int]));
                assert(cast_all::<E>(rets@.take(i + 1)) =~= cast_all::<E>(rets@.take(i as int)).push(
                    spec_cast_event::<E>(rets@[i as int]),
                ));
            }
            i = i + 1;
        }
        proof {
            assert(rets@.take(rets@.len() as int) =~= rets@);
        }
        r
    }

    /// Turns a frame's input into events, with keyboard events sent to
    /// `focus`, and dispatches them.
    pub fn handle_input<E: FeaturedReturn>(&mut self, input: &InputState, focus: UniqueId) -> (r: Vec<
        Result<E, ReturnEvent>,
    >)
        ensures
            final(self).layable.model() == L::m_pass(
                old(self).layable.model(),
                input_events(*input, old(self).det, focus),
                old(self).det,
                old(self).scale,
            ).0,
            r@ == cast_all::<E>(
                L::m_pass(
                    old(self).layable.model(),
                    input_events(*input, old(self).det, focus),
                    old(self).det,
                    old(self).scale,
                ).1,
            ),
    {
        let events = collect_events(input, self.det, focus);
        self.dispatch(&events)
    }
}



proof fn lemma_typed_events(input: InputState, focus: UniqueId, c: char, s: Seq<Event>)
    requires
        typed_char(input) == Some(c),
    ensures
        s.push(Event::KeyboardEvent(focus, KeyboardEvent::CharPressed(c))) == s + typed_events(
            input,
            focus,
        ),
{
    assert(s.push(Event::KeyboardEvent(focus, KeyboardEvent::CharPressed(c))) =~= s + typed_events(
        input,
        focus,
    ));
}

} // verus!
