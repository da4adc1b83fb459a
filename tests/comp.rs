use sui::clickable::Clickable;
use sui::comp::{Comp, CompKind};
use sui::details::{Details, Scale};
use sui::div::{div, Div};
use sui::event::{AppCommand, Event, MouseEvent, ReturnEvent};
use sui::layable::{color, pass_events_simple, Color, Layable, Space};

type Leaf = Clickable<Space, ReturnEvent>;

fn leaf(n: u64, w: i32, h: i32) -> Leaf {
    Clickable::new(ReturnEvent::App(AppCommand(n)), Space::new(w, h))
}

fn click(x: i32, y: i32) -> Event {
    Event::MouseEvent(MouseEvent::MouseClick { x, y })
}

#[test]
fn comp_round_trip_of_a_leaf() {
    let v = Space::new(3, 4);
    let c: Comp<Leaf> = Comp::new(v);
    assert_eq!(c.size(), v.size());
    assert_eq!(c.kind(), CompKind::Space);
    assert!(c.can_take::<Space>());
    assert!(!c.can_take::<Color>());
    assert!(!c.can_take::<Div<Leaf>>());
    assert!(c.clone().take::<Color>().is_none());
    assert_eq!(c.take::<Space>(), Some(v));
}

#[test]
fn comp_round_trip_of_a_flow() {
    let mut d = div(vec![leaf(1, 10, 20), leaf(2, 30, 5), leaf(3, 7, 7)]);
    let mut c: Comp<Leaf> = Comp::new(d.clone());
    assert_eq!(c.size(), d.size());
    let det = Details::new(0, 0, 100, 100);
    let events = vec![click(3, 4), click(3, 22)];
    assert_eq!(
        pass_events_simple(&mut c, &events, det, Scale::one()),
        pass_events_simple(&mut d, &events, det, Scale::one())
    );
    assert!(c.can_take::<Div<Leaf>>());
    assert!(c.take::<Div<Leaf>>().is_some());
}

#[test]
fn comp_clone_parity() {
    let a: Comp<Leaf> = Comp::new(Color::new(color(1, 2, 3, 4)));
    let b = a.clone();
    let (ta, tb) = (a.take::<Color>(), b.take::<Color>());
    assert_eq!(ta, tb);
    assert_eq!(ta, Some(Color::new(color(1, 2, 3, 4))));
}

#[test]
fn comp_mixes_kinds_in_one_flow() {
    let mut d: Div<Comp<Leaf>> = div(vec![
        Comp::new(Space::new(10, 10)),
        Comp::new(Color::new(color(0, 0, 0, 255))),
        Comp::other(leaf(9, 10, 10)),
    ]);
    assert_eq!(d.size(), (10, 20));
    let det = Details::new(0, 0, 10, 100);
    assert_eq!(
        pass_events_simple(&mut d, &vec![click(5, 15)], det, Scale::one()),
        vec![ReturnEvent::App(AppCommand(9))]
    );
}

#[test]
fn comp_take_gives_back_the_wrapped_value() {
    let v = Color::new(color(5, 6, 7, 8));
    let c: Comp<Leaf> = Comp::new(v);
    assert_eq!(c.take::<Color>(), Some(v));
}
