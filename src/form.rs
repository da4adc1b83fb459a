use vstd::prelude::*;

use crate::event::{Event, KeyboardEvent, ReturnEvent};
use rand::RngCore;
use rand_core::SeedableRng;

verus! {

/// An identity that a keyboard event can be sent to; the null identity
/// stands for "nothing focused".
#[derive(Clone, Copy, Debug, PartialEq, Eq, Structural, Hash)]
pub struct UniqueId(pub u32);

/// Relies on `SeedableRng::try_from_rng` over rand's `OsRng`, which seeds a
/// `Pcg64Mcg` from the operating system and reports a failure of that source
/// as an error instead of panicking, and on the generator's `next_u32`: a
/// value drawn at random, of which nothing is promised, or `None` when the
/// system gave no seed.
#[verifier::external_body]
fn random_u32() -> Option<u32> {
    match rand_pcg::Pcg64Mcg::try_from_rng(&mut rand::rngs::OsRng) {
        Ok(mut rng) => Some(rng.next_u32()),
        Err(_) => None,
    }
}

impl UniqueId {
    /// The identity that no component holds.
    pub fn null() -> (r: Self)
        ensures
            r == UniqueId(0),
    {
        UniqueId(0)
    }

    /// A fresh identity, drawn at random; never the null identity. Should the
    /// system give no randomness, or the draw be zero, the identity is 1.
    pub fn new() -> (r: Self)
        ensures
            r != UniqueId(0),
    {
        match random_u32() {
            Some(n) => if n != 0 {
                UniqueId(n)
            } else {
                UniqueId(1)
            },
            None => UniqueId(1),
        }
    }
}

/// A single-owner store of a value, handed to a closure for reading or
/// writing.
#[derive(Clone, Debug, PartialEq, Eq, Default)]
pub struct Store<T> {
    val: T,
}

impl<T> Store<T> {
    /// The value held.
    pub closed spec fn value(&self) -> T {
        self.val
    }

    pub fn new(val: T) -> (r: Self)
        ensures
            r.value() == val,
    {
        Store { val }
    }

    /// Calls `f` on the value and returns what it returns.
    pub fn with_borrow<R, F: FnOnce(&T) -> R>(&self, f: F) -> (r: R)
        requires
            f.requires((&self.value(),)),
        ensures
            f.ensures((&self.value(),), r),
    {
        f(&self.val)
    }

    /// Calls `f` on the value, which it may change, and returns what it
    /// returns: the store then holds what `f` left behind its reference.
    pub fn with_mut_borrow<R, F: FnOnce(&mut T) -> R>(&mut self, f: F) -> (r: R)
        requires
            forall|v: &mut T| f.requires((v,)),
        ensures
            exists|v: &mut T|
                *v == old(self).value() && *final(v) == final(self).value() && f.ensures((v,), r),
    {
        f(&mut self.val)
    }

    /// The value, for changing in place.
    pub fn value_mut(&mut self) -> (r: &mut T)
        ensures
            *r == old(self).value(),
            final(self).value() == *final(r),
    {
        &mut self.val
    }

    /// Sets the value to `val`, returning the value it had.
    pub fn set(&mut self, val: T) -> (r: T)
        ensures
            r == old(self).value(),
            final(self).value() == val,
    {
        let mut val = val;
        std::mem::swap(&mut self.val, &mut val);
        val
    }
}

impl<T: Copy> Store<T> {
    /// A copy of the value.
    pub fn get(&self) -> (r: T)
        ensures
            r == self.value(),
    {
        self.val
    }
}

/// The store of the focused identity.
pub type FocusHandler = Store<UniqueId>;

/// A focus store with nothing focused.
pub fn focus_handler() -> (r: FocusHandler)
    ensures
        r.value() == UniqueId(0),
{
    Store::new(UniqueId::null())
}

/// A request to move the keyboard focus.
#[derive(Clone, Copy, Debug, PartialEq, Eq, Structural, Hash)]
pub enum FocusCommand {
    Request(UniqueId),
    Drop,
}

impl FocusCommand {
    pub open spec fn spec_target(&self) -> UniqueId {
        match *self {
            FocusCommand::Request(uid) => uid,
            FocusCommand::Drop => UniqueId(0),
        }
    }

    /// Moves the focus as asked: to the requested identity, or to none.
    pub fn apply(&self, fh: &mut FocusHandler)
        ensures
            final(fh).value() == self.spec_target(),
    {
        match *self {
            FocusCommand::Request(uid) => {
                fh.set(uid);
            },
            FocusCommand::Drop => {
                fh.set(UniqueId::null());
            },
        }
    }
}

/// The character that deletes the last one typed.
pub const BACKSPACE: char = '\x08';

/// What a text field reports when it took a typed character.
#[derive(Clone, Copy, Debug, PartialEq, Eq, Structural, Hash)]
pub enum TypeEvent {
    Handled,
}

/// The text typed into a field, and the identity that focuses it.
#[derive(Clone, Debug, PartialEq, Eq, Hash)]
pub struct TypableData {
    pub uid: UniqueId,
    pub text: String,
}

impl TypableData {
    /// An empty field with a fresh identity.
    pub fn new() -> (r: Self)
        ensures
            r.text@ == Seq::<char>::empty(),
            r.uid != UniqueId(0),
    {
        TypableData { uid: UniqueId::new(), text: String::new() }
    }

    /// A field holding `default`, with a fresh identity.
    pub fn with_default(default: String) -> (r: Self)
        ensures
            r.text@ == default@,
            r.uid != UniqueId(0),
    {
        TypableData { uid: UniqueId::new(), text: default }
    }
}

/// Relies on `String::push`: the character is appended.
#[verifier::external_body]
fn push_char(s: &mut String, c: char)
    ensures
        final(s)@ == old(s)@.push(c),
{
    s.push(c)
}

/// Relies on `String::pop`: the last character is removed and returned; an
/// empty string stays empty and gives `None`.
#[verifier::external_body]
fn pop_char(s: &mut String) -> (r: Option<char>)
    ensures
        old(s)@.len() == 0 ==> r is None && final(s)@ == old(s)@,
        old(s)@.len() > 0 ==> r == Some(old(s)@.last()) && final(s)@ == old(s)@.drop_last(),
{
    s.pop()
}

/// The text after typing `c`: backspace deletes the last character, if any;
/// any other character is appended.
pub open spec fn type_char(text: Seq<char>, c: char) -> Seq<char> {
    if c == BACKSPACE {
        if text.len() > 0 {
            text.drop_last()
        } else {
            text
        }
    } else {
        text.push(c)
    }
}

/// The text after `events`, and what is handed up: each character typed to
/// the field's identity changes the text and reports [`TypeEvent::Handled`];
/// anything else is ignored.
pub open spec fn typing(text: Seq<char>, uid: UniqueId, events: Seq<Event>) -> (Seq<char>, Seq<ReturnEvent>)
    decreases events.len(),
{
    if events.len() == 0 {
        (text, seq![])
    } else {
        let (t, rets) = typing(text, uid, events.drop_last());
        match events.last() {
            Event::KeyboardEvent(u, KeyboardEvent::CharPressed(c)) => if u == uid {
                (type_char(t, c), rets.push(ReturnEvent::Type(TypeEvent::Handled)))
            } else {
                (t, rets)
            },
            _ => (t, rets),
        }
    }
}

/// A text field: the characters typed to its identity go into the text held
/// by its store.
#[derive(Clone, Debug)]
pub struct Typable {
    pub store: Store<TypableData>,
    pub text_size: i32,
}

impl Typable {
    /// A field with a store of its own.
    pub fn default(text_size: i32) -> (r: Self)
        ensures
            r.store.value().text@ == Seq::<char>::empty(),
            r.text_size == text_size,
    {
        Self::new(Store::new(TypableData::new()), text_size)
    }

    pub fn new(store: Store<TypableData>, text_size: i32) -> (r: Self)
        ensures
            r.store == store,
            r.text_size == text_size,
    {
        Typable { store, text_size }
    }

    /// Takes the characters typed to this field.
    pub fn pass_events(&mut self, events: &Vec<Event>, ret_events: &mut Vec<ReturnEvent>)
        ensures
            final(self).text_size == old(self).text_size,
            final(self).store.value().uid == old(self).store.value().uid,
            final(self).store.value().text@ == typing(
                old(self).store.value().text@,
                old(self).store.value().uid,
                events@,
            ).0,
            final(ret_events)@ == old(ret_events)@ + typing(
                old(self).store.value().text@,
                old(self).store.value().uid,
                events@,
            ).1,
    {
        let ghost t0 = self.store.value().text@;
        let ghost rets0 = ret_events@;
        let uid = self.store.value_mut().uid;
        let mut i: usize = 0;
        proof {
            assert(events@.take(0) =~= Seq::<Event>::empty());
            assert(ret_events@ =~= rets0 + Seq::<ReturnEvent>::empty());
        }
        while i < events.len()
            invariant
                i <= events@.len(),
                self.text_size == old(self).text_size,
                self.store.value().uid == uid,
                uid == old(self).store.value().uid,
                self.store.value().text@ == typing(t0, uid, events@.take(i as int)).0,
                ret_events@ == rets0 + typing(t0, uid, events@.take(i as int)).1,
            decreases events@.len() - i,
        {
            let e = events[i];
            proof {
                assert(events@.take(i + 1).drop_last() =~= events@.take(i as int));
            }
            match e {
                Event::KeyboardEvent(u, KeyboardEvent::CharPressed(c)) => {
                    if u == uid {
                        let data = self.store.value_mut();
                        if c == BACKSPACE {
                            pop_char(&mut data.text);
                        } else {
                            push_char(&mut data.text, c);
                        }
                        ret_events.push(ReturnEvent::Type(TypeEvent::Handled));
                    }
                },
                _ => {},
            }
            proof {
                assert(ret_events@ =~= rets0 + typing(t0, uid, events@.take(i + 1)).1);
            }
            i = i + 1;
        }
        proof {
            assert(events@.take(events@.len() as int) =~= events@);
        }
    }
}

} // verus!
