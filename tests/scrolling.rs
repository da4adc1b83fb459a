use sui::details::{Details, Scale};
use sui::event::{Event, MouseEvent};
use sui::layable::{pass_events_simple, Draw, Layable, Space};
use sui::scrollable::{step, Scrollable, ScrollableMode, ScrollableState, ScrollbarAction};

fn wheel(amount: i32) -> Event {
    Event::MouseEvent(MouseEvent::Scroll { x: 10, y: 10, amount })
}

#[test]
fn scroll_clamps_to_content_minus_viewport() {
    let mut s = Scrollable::new(ScrollableState::default(), ScrollableMode::Vertical, Space::new(100, 500));
    let det = Details::new(0, 0, 100, 200);
    let events: Vec<Event> = (0..10).map(|_| wheel(-1000)).collect();
    let rets = pass_events_simple(&mut s, &events, det, Scale::one());
    assert!(rets.is_empty());
    assert_eq!(s.state.scroll_y, 300);
    pass_events_simple(&mut s, &vec![wheel(i32::MIN)], det, Scale::one());
    assert_eq!(s.state.scroll_y, 300);
    pass_events_simple(&mut s, &vec![wheel(25)], det, Scale::one());
    assert_eq!(s.state.scroll_y, 50);
    pass_events_simple(&mut s, &vec![wheel(1000)], det, Scale::one());
    assert_eq!(s.state.scroll_y, 0);
}

#[test]
fn scroll_horizontal_mode_moves_x() {
    let st = ScrollableState::default();
    let r = step(st, ScrollableMode::Horizontal, (500, 50), Details::new(0, 0, 200, 50), Scale::one(), wheel(-3));
    assert_eq!(r.scroll_x, 30);
    assert_eq!(r.scroll_y, 0);
}

#[test]
fn drag_moves_by_track_ratio() {
    let det = Details::new(0, 0, 100, 200);
    let l_size = (100, 500);
    let st = ScrollableState::default();
    // the vertical bar takes the right 10 px of the region; its handle sits at x = 90, y = 0, 40 long
    let st = step(st, ScrollableMode::Vertical, l_size, det, Scale::one(), Event::MouseEvent(MouseEvent::MouseClick { x: 95, y: 10 }));
    assert_eq!(st.action, ScrollbarAction::ScrollingYFrom { before: 0, drag_start_c: 10 });
    // 80 px of travel over a free track of 160 px moves half of the 300 px overflow
    let st = step(st, ScrollableMode::Vertical, l_size, det, Scale::one(), Event::MouseEvent(MouseEvent::MouseHeld { x: 95, y: 90 }));
    assert_eq!(st.scroll_y, 150);
    let st = step(st, ScrollableMode::Vertical, l_size, det, Scale::one(), Event::MouseEvent(MouseEvent::MouseHeld { x: 95, y: 900 }));
    assert_eq!(st.scroll_y, 300);
    let st = step(st, ScrollableMode::Vertical, l_size, det, Scale::one(), Event::MouseEvent(MouseEvent::MouseRelease { x: 95, y: 900 }));
    assert_eq!(st.action, ScrollbarAction::Idle);
}

#[test]
fn scrollbar_drawn_only_on_overflowing_axis() {
    let state = ScrollableState { scroll_x: 0, scroll_y: 150, action: ScrollbarAction::Idle };
    let s = Scrollable::new_uncropped(state, ScrollableMode::Vertical, Space::new(100, 500));
    let mut out = Vec::new();
    s.render(Details::new(0, 0, 100, 200), Scale::one(), &mut out);
    assert_eq!(out.len(), 2);
    match (out[0], out[1]) {
        (Draw::Rect { x, y, w, h, .. }, Draw::Rect { x: hx, y: hy, w: hw, h: hh, .. }) => {
            assert_eq!((x, y, w, h), (90, 0, 10, 200));
            assert_eq!((hx, hy, hw, hh), (90, 80, 10, 40));
        }
        _ => panic!("expected two rectangles"),
    }
    assert_eq!(s.size(), (100, 500));
}

#[test]
fn wheel_follows_the_mode() {
    let det = Details::new(0, 0, 100, 200);
    let st = ScrollableState { scroll_x: 900, scroll_y: 0, action: ScrollbarAction::Idle };
    // in both directions the wheel scrolls vertically, and every offset is held to its bound
    let r = step(st, ScrollableMode::Both, (300, 500), det, Scale::one(), wheel(-5));
    assert_eq!(r.scroll_y, 50);
    assert_eq!(r.scroll_x, 210);
    let r = step(st, ScrollableMode::Neither, (300, 500), det, Scale::one(), wheel(-5));
    assert_eq!(r, st);
}

#[test]
fn drag_and_wheel_share_one_bound() {
    let det = Details::new(0, 0, 100, 200);
    let l_size = (300, 500);
    let st = ScrollableState { scroll_x: 0, scroll_y: 0, action: ScrollbarAction::ScrollingYFrom { before: 0, drag_start_c: 0 } };
    let dragged = step(st, ScrollableMode::Both, l_size, det, Scale::one(), Event::MouseEvent(MouseEvent::MouseHeld { x: 0, y: 5000 }));
    let wheeled = step(st, ScrollableMode::Both, l_size, det, Scale::one(), wheel(-5000));
    assert_eq!(dragged.scroll_y, 310);
    assert_eq!(wheeled.scroll_y, 310);
}
