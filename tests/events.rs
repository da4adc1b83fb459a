use sui::details::{Details, Scale};
use sui::event::{cast_event, filter_events, AppCommand, Command, DialogCommand, Event, KeyboardEvent, MouseEvent, PayloadKind, ReturnEvent};
use sui::form::{FocusCommand, Store, TypableData, Typable, TypeEvent, UniqueId, BACKSPACE};
use sui::root::{collect_events, InputState, RootContext};
use sui::layable::Space;
use sui::clickable::Clickable;

#[test]
fn return_event_take_is_exact() {
    let e = ReturnEvent::new(FocusCommand::Drop);
    assert!(e.can_take::<FocusCommand>());
    assert!(!e.can_take::<TypeEvent>());
    assert!(!e.can_take::<Event>());
    assert!(!e.can_take::<AppCommand>());
    assert_eq!(e.take::<TypeEvent>(), None);
    assert_eq!(e.take::<FocusCommand>(), Some(FocusCommand::Drop));
    assert_eq!(e.kind(), PayloadKind::Focus);
    let click = Event::MouseEvent(MouseEvent::MouseClick { x: 3, y: 4 });
    assert_eq!(Event::ret(click).take::<Event>(), Some(click));
}

#[test]
fn unclaimed_event_is_returned_unchanged() {
    let e = ReturnEvent::App(AppCommand(7));
    assert_eq!(cast_event::<Command>(e), Err(ReturnEvent::App(AppCommand(7))));
    let e = ReturnEvent::Focus(FocusCommand::Request(UniqueId(3)));
    assert_eq!(cast_event::<Command>(e), Ok(Command::Focus(FocusCommand::Request(UniqueId(3)))));
    let e = ReturnEvent::Type(TypeEvent::Handled);
    assert_eq!(cast_event::<Command>(e), Ok(Command::Type(TypeEvent::Handled)));
}

#[test]
fn filter_keeps_keyboard_and_inside_pointer() {
    let k = Event::KeyboardEvent(UniqueId(1), KeyboardEvent::CharPressed('a'));
    let inside = Event::MouseEvent(MouseEvent::MouseHeld { x: 1, y: 1 });
    let outside = Event::MouseEvent(MouseEvent::MouseRelease { x: 20, y: 1 });
    let r = filter_events(&vec![k, outside, inside], Details::new(0, 0, 10, 10));
    assert_eq!(r, vec![k, inside]);
}

#[test]
fn typable_types_to_its_identity() {
    let data = TypableData { uid: UniqueId(9), text: String::from("ab") };
    let mut t = Typable::new(Store::new(data), 12);
    let typed = |c: char| Event::KeyboardEvent(UniqueId(9), KeyboardEvent::CharPressed(c));
    let other = Event::KeyboardEvent(UniqueId(8), KeyboardEvent::CharPressed('z'));
    let mut rets = Vec::new();
    t.pass_events(&vec![typed('c'), other, typed(BACKSPACE), typed(BACKSPACE), typed('x')], &mut rets);
    assert_eq!(t.store.with_borrow(|d| d.text.clone()), "ax");
    assert_eq!(rets.len(), 4);
    assert!(rets.iter().all(|r| *r == ReturnEvent::Type(TypeEvent::Handled)));
    let mut empty = Typable::new(Store::new(TypableData::with_default(String::new())), 12);
    let uid = empty.store.with_borrow(|d| d.uid);
    let mut rets = Vec::new();
    empty.pass_events(&vec![Event::KeyboardEvent(uid, KeyboardEvent::CharPressed(BACKSPACE))], &mut rets);
    assert_eq!(empty.store.with_borrow(|d| d.text.clone()), "");
}

#[test]
fn input_becomes_events() {
    let input = InputState {
        ptr_x: 5,
        ptr_y: 6,
        pressed: true,
        down: true,
        released: false,
        wheel: -2,
        char_pressed: None,
        backspace_pressed: true,
        enter_pressed: true,
        keys_down: vec![65, 66],
    };
    let f = UniqueId(4);
    let events = collect_events(&input, Details::new(0, 0, 100, 100), f);
    assert_eq!(
        events,
        vec![
            Event::MouseEvent(MouseEvent::MouseClick { x: 5, y: 6 }),
            Event::MouseEvent(MouseEvent::MouseHeld { x: 5, y: 6 }),
            Event::MouseEvent(MouseEvent::Scroll { x: 5, y: 6, amount: -2 }),
            Event::KeyboardEvent(f, KeyboardEvent::CharPressed(BACKSPACE)),
            Event::KeyboardEvent(f, KeyboardEvent::KeyDown(65)),
            Event::KeyboardEvent(f, KeyboardEvent::KeyDown(66)),
        ]
    );
    let edge = collect_events(&input, Details::new(5, 6, 100, 100), f);
    assert_eq!(edge.len(), 6);
    let outside = collect_events(&input, Details::new(6, 0, 100, 100), f);
    assert_eq!(outside.len(), 3);
}

#[test]
fn root_casts_library_commands() {
    let clicker = Clickable::new(ReturnEvent::Focus(FocusCommand::Drop), Space::new(10, 10));
    let mut root = RootContext::new(clicker, Details::new(0, 0, 10, 10), Scale::one());
    let click = Event::MouseEvent(MouseEvent::MouseClick { x: 2, y: 2 });
    let r = root.dispatch::<Command>(&vec![click]);
    assert_eq!(r, vec![Ok(Command::Focus(FocusCommand::Drop))]);
    let app = Clickable::new(ReturnEvent::App(AppCommand(5)), Space::new(10, 10));
    let mut root = RootContext::new(app, Details::new(0, 0, 10, 10), Scale::one());
    let r = root.dispatch::<Command>(&vec![click]);
    assert_eq!(r, vec![Err(ReturnEvent::App(AppCommand(5)))]);
}

#[test]
fn fresh_identities_come_from_the_generator() {
    let ids: Vec<UniqueId> = (0..8).map(|_| UniqueId::new()).collect();
    assert!(ids.iter().any(|i| *i != ids[0]));
}

#[test]
fn dialog_commands_reach_the_application() {
    let open = DialogCommand::Open { content: 4, x: 10, y: 20, scale: Scale::one() };
    let e = ReturnEvent::new(open);
    assert!(e.can_take::<DialogCommand>());
    assert!(!e.can_take::<FocusCommand>());
    assert_eq!(cast_event::<Command>(e), Ok(Command::Dialog(open)));
    assert_eq!(
        cast_event::<Command>(ReturnEvent::Dialog(DialogCommand::Close)),
        Ok(Command::Dialog(DialogCommand::Close))
    );
}

#[test]
fn fresh_identities_are_never_null() {
    for _ in 0..16 {
        assert_ne!(UniqueId::new(), UniqueId::null());
        assert_ne!(TypableData::new().uid, UniqueId::null());
    }
}
