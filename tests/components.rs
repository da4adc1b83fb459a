use sui::align::{AtEnd, Centered};
use sui::cache::Cached;
use sui::clickable::{Clickable, OptionalClickable};
use sui::crop::{Crop, ViewOffset};
use sui::details::{Details, Scale};
use sui::div::{div, div_h, Div};
use sui::ext::LayableExt;
use sui::event::{AppCommand, Event, MouseEvent, ReturnEvent};
use sui::fit::{FixedSize, Margin, RestrictToSize};
use sui::layable::{color, pass_events_simple, Color, Draw, Layable, Space};
use sui::overlay::Overlay;
use sui::space_between::SpaceBetween;
use sui::scrollable::{Scrollable, ScrollableMode, ScrollableState, ScrollbarAction};
use sui::scale_to_fit::{ScaleBy, ScaleToFit};

fn click(x: i32, y: i32) -> Event {
    Event::MouseEvent(MouseEvent::MouseClick { x, y })
}

fn app(n: u64) -> ReturnEvent {
    ReturnEvent::App(AppCommand(n))
}

fn tagged(n: u64, w: i32, h: i32) -> Clickable<Space, ReturnEvent> {
    Clickable::new(app(n), Space::new(w, h))
}

#[test]
fn div_size_of_three_children() {
    let d = div(vec![tagged(1, 10, 20), tagged(2, 30, 5), tagged(3, 7, 7)]);
    assert_eq!(d.size(), (30, 32));
    let h = div_h(vec![tagged(1, 10, 20), tagged(2, 30, 5), tagged(3, 7, 7)]);
    assert_eq!(h.size(), (47, 20));
}

#[test]
fn div_click_reaches_only_the_child_under_it() {
    let mut d = div(vec![tagged(1, 10, 20), tagged(2, 30, 5), tagged(3, 7, 7)]);
    let det = Details::new(0, 0, 100, 100);
    let dets = d.child_dets(det, Scale::one());
    assert_eq!(
        dets,
        vec![
            Details::new(0, 0, 100, 20),
            Details::new(0, 20, 100, 5),
            Details::new(0, 25, 100, 7),
        ]
    );
    let rets = pass_events_simple(&mut d, &vec![click(3, 22)], det, Scale::one());
    assert_eq!(rets, vec![app(2)]);
    let none = pass_events_simple(&mut d, &vec![click(3, 60)], det, Scale::one());
    assert!(none.is_empty());
}

#[test]
fn div_scaled_offsets() {
    let d = Div::vertical(vec![Space::new(10, 20), Space::new(10, 20)]);
    let dets = d.child_dets(Details::new(5, 5, 40, 40), Scale::from_milli(2000));
    assert_eq!(dets, vec![Details::new(5, 5, 80, 20), Details::new(5, 45, 80, 20)]);
}

#[test]
fn overlay_foreground_claims_first() {
    let mut o = Overlay::new(tagged(1, 10, 10), tagged(2, 10, 10));
    let rets = pass_events_simple(&mut o, &vec![click(5, 5)], Details::new(0, 0, 10, 10), Scale::one());
    assert_eq!(rets, vec![app(2)]);
}

#[test]
fn overlay_background_gets_what_foreground_leaves() {
    let mut o = Overlay::new(tagged(1, 10, 10), Space::new(20, 4));
    assert_eq!(o.size(), (20, 10));
    let rets = pass_events_simple(&mut o, &vec![click(5, 5)], Details::new(0, 0, 10, 10), Scale::one());
    assert_eq!(rets, vec![app(1)]);
}

#[test]
fn crop_clips_and_filters() {
    let mut c = Crop::new(tagged(1, 10, 10));
    let mut out = Vec::new();
    c.render(Details::new(1, 2, 10, 10), Scale::from_milli(2000), &mut out);
    assert_eq!(out, vec![Draw::PushClip(Details::new(1, 2, 20, 20)), Draw::PopClip]);
    let rets = pass_events_simple(&mut c, &vec![click(50, 50), click(5, 5)], Details::new(0, 0, 10, 10), Scale::one());
    assert_eq!(rets, vec![app(1)]);
}

#[test]
fn color_fills_scaled_region() {
    let c = Color::new(color(1, 2, 3, 4));
    let mut out = Vec::new();
    c.render(Details::new(3, 4, 10, 20), Scale::from_milli(500), &mut out);
    assert_eq!(out, vec![Draw::Rect { x: 3, y: 4, w: 5, h: 10, color: color(1, 2, 3, 4) }]);
}

#[test]
fn clickable_fallback_lets_child_answer() {
    let inner = Clickable::new(app(7), Space::new(10, 10));
    let mut outer = Clickable::new_fallback(app(8), inner);
    let rets = pass_events_simple(&mut outer, &vec![click(1, 1)], Details::new(0, 0, 10, 10), Scale::one());
    assert_eq!(rets, vec![app(7)]);
    let mut plain = Clickable::new(app(8), Clickable::new(app(7), Space::new(10, 10)));
    let rets = pass_events_simple(&mut plain, &vec![click(1, 1)], Details::new(0, 0, 10, 10), Scale::one());
    assert_eq!(rets, vec![app(8)]);
    let rets = pass_events_simple(&mut plain, &vec![click(11, 1)], Details::new(0, 0, 10, 10), Scale::one());
    assert!(rets.is_empty());
}

#[test]
fn space_between_spreads_children() {
    let s = SpaceBetween::new(vec![tagged(1, 10, 10), tagged(2, 10, 10), tagged(3, 10, 10)]);
    assert_eq!(s.size(), (10, 30));
    let det = Details::new(0, 0, 10, 100);
    assert_eq!(s.calculate_gap(det, Scale::one()), 35);
    let mut s = s;
    let rets = pass_events_simple(&mut s, &vec![click(5, 50)], det, Scale::one());
    assert_eq!(rets, vec![app(2)]);
    let rets = pass_events_simple(&mut s, &vec![click(5, 95)], det, Scale::one());
    assert_eq!(rets, vec![app(3)]);
    let single = SpaceBetween::new(vec![Space::new(10, 10)]);
    assert_eq!(single.calculate_gap(det, Scale::one()), 90);
}

#[test]
fn margin_and_fixed_size() {
    let m = Margin::all(5, Space::new(10, 20));
    assert_eq!(m.size(), (20, 30));
    let f = FixedSize::fix_w(50, Space::new(10, 20));
    assert_eq!(f.size(), (50, 20));
    let f = FixedSize::fix_h(50, Space::new(10, 20));
    assert_eq!(f.size(), (10, 50));
    let f = FixedSize::fix_both(7, Space::new(10, 20));
    assert_eq!(f.size(), (7, 7));
}

#[test]
fn region_transforms_reach_child() {
    let det = Details::new(0, 0, 100, 100);
    let mut m = Margin::all(10, tagged(1, 10, 10));
    assert_eq!(pass_events_simple(&mut m, &vec![click(5, 5)], det, Scale::one()), vec![]);
    assert_eq!(pass_events_simple(&mut m, &vec![click(15, 15)], det, Scale::one()), vec![app(1)]);
    let mut a = AtEnd::to_bottom_right(tagged(2, 10, 10));
    assert_eq!(pass_events_simple(&mut a, &vec![click(5, 5)], det, Scale::one()), vec![]);
    assert_eq!(pass_events_simple(&mut a, &vec![click(95, 95)], det, Scale::one()), vec![app(2)]);
    let mut c = Centered::new(tagged(3, 10, 10));
    assert_eq!(pass_events_simple(&mut c, &vec![click(50, 50)], det, Scale::one()), vec![app(3)]);
    assert_eq!(pass_events_simple(&mut c, &vec![click(40, 40)], det, Scale::one()), vec![]);
    let mut r = RestrictToSize::new(tagged(4, 10, 10));
    assert_eq!(pass_events_simple(&mut r, &vec![click(50, 50)], det, Scale::one()), vec![]);
    let mut v = ViewOffset::new(tagged(5, 10, 10), 0, 40);
    assert_eq!(pass_events_simple(&mut v, &vec![click(5, 120)], det, Scale::one()), vec![]);
    let mut v = ViewOffset::new(tagged(5, 10, 10), 0, -50);
    assert_eq!(pass_events_simple(&mut v, &vec![click(5, 5)], det, Scale::one()), vec![]);
}

#[test]
fn test_scaling() {
    {
        let stf = ScaleToFit::fix_w(50, Space::new(100, 200));
        assert_eq!(stf.size(), (50, 100));
    }
    {
        let stf = ScaleToFit::fix_h(400, Space::new(100, 200));
        assert_eq!(stf.size(), (200, 400));
    }
}

#[test]
fn scale_to_fit_scales_drawing() {
    let stf = ScaleToFit::fix_w(50, Color::new(color(0, 0, 0, 255)));
    assert_eq!(stf.scale(Scale::one()), Scale::from_milli(0));
    let stf = ScaleToFit::fix_w(50, Space::new(100, 200));
    assert_eq!(stf.scale(Scale::from_milli(2000)), Scale::from_milli(1000));
}

#[test]
fn scale_by_maps_pointer_back() {
    let mut s = ScaleBy::new(tagged(1, 10, 10), Scale::from_milli(2000));
    assert_eq!(s.size(), (20, 20));
    let det = Details::new(0, 0, 10, 10);
    assert_eq!(pass_events_simple(&mut s, &vec![click(18, 18)], det, Scale::one()), vec![app(1)]);
    assert_eq!(pass_events_simple(&mut s, &vec![click(24, 2)], det, Scale::one()), vec![]);
}

#[test]
fn empty_flows() {
    let d: Div<Space> = Div::empty();
    assert_eq!(d.size(), (0, 0));
    let s: SpaceBetween<Space> = SpaceBetween::new(vec![]);
    assert_eq!(s.size(), (0, 0));
    assert_eq!(s.calculate_gap(Details::new(0, 0, 10, 40), Scale::one()), 40);
    let mut d = Div::empty_horizontal();
    d.push(Space::new(3, 4));
    assert_eq!(d.size(), (3, 4));
}

#[test]
fn crop_lets_held_pointer_through() {
    let state = ScrollableState {
        scroll_x: 0,
        scroll_y: 0,
        action: ScrollbarAction::ScrollingYFrom { before: 0, drag_start_c: 10 },
    };
    let mut c = Crop::new(Scrollable::new_uncropped(state, ScrollableMode::Vertical, Space::new(100, 500)));
    let det = Details::new(0, 0, 100, 200);
    let held = Event::MouseEvent(MouseEvent::MouseHeld { x: 105, y: 900 });
    pass_events_simple(&mut c, &vec![held], det, Scale::one());
    assert_eq!(c.layable.state.scroll_y, 300);
    let release = Event::MouseEvent(MouseEvent::MouseRelease { x: 105, y: 900 });
    pass_events_simple(&mut c, &vec![release], det, Scale::one());
    assert_eq!(c.layable.state.action, ScrollbarAction::ScrollingYFrom { before: 0, drag_start_c: 10 });
}

#[test]
fn builders_compose() {
    let mut tree = Space::new(10, 10)
        .clickable(app(4))
        .margin(5)
        .fix_wh(40, 40)
        .with_background(Color::new(color(9, 9, 9, 255)));
    assert_eq!(tree.size(), (40, 40));
    let det = Details::new(0, 0, 40, 40);
    assert_eq!(pass_events_simple(&mut tree, &vec![click(7, 7)], det, Scale::one()), vec![app(4)]);
    assert_eq!(pass_events_simple(&mut tree, &vec![click(2, 2)], det, Scale::one()), vec![]);
}

#[test]
fn optional_clickable_answers_when_it_has_an_answer() {
    let det = Details::new(0, 0, 10, 10);
    let mut yes = OptionalClickable::new(Space::new(10, 10), Some(app(3)));
    assert_eq!(pass_events_simple(&mut yes, &vec![click(1, 1), click(20, 1)], det, Scale::one()), vec![app(3)]);
    let mut no = OptionalClickable::new(Space::new(10, 10), None::<ReturnEvent>);
    assert!(pass_events_simple(&mut no, &vec![click(1, 1)], det, Scale::one()).is_empty());
}

#[test]
fn cache_recomputes_only_on_a_new_hash() {
    let mut c: Cached<i32> = Cached::new();
    assert_eq!(c.borrow(), None);
    c.update_hashed(7, || 1);
    assert_eq!(c.borrow(), Some(&1));
    c.update_hashed(7, || 2);
    assert_eq!(c.borrow(), Some(&1));
    c.update_hashed(8, || 3);
    assert_eq!(c.borrow(), Some(&3));
}
