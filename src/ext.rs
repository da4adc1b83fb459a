use vstd::prelude::*;

use crate::align::{AtEnd, Centered, Mode};
use crate::clickable::{Clickable, OnClick};
use crate::crop::{Crop, ViewOffset};
use crate::details::Scale;
use crate::fit::{FitOpt, FixedSize, Margin, MarginValues, RestrictToSize};
use crate::layable::Layable;
use crate::overlay::Overlay;
use crate::scale_to_fit::{self, ScaleBy, ScaleToFit};
use crate::scrollable::{Scrollable, ScrollableMode, ScrollableState};

verus! {

/// Wrapping a component in a combinator, as a method of the component.
pub trait LayableExt: Layable + Sized {
    fn centered(self) -> (r: Centered<Self>)
        ensures
            r.layable == self,
    {
        Centered::new(self)
    }

    fn to_right(self) -> (r: AtEnd<Self>)
        ensures
            r == (AtEnd { layable: self, mode: Mode::Vert }),
    {
        AtEnd::to_right(self)
    }

    fn to_bottom(self) -> (r: AtEnd<Self>)
        ensures
            r == (AtEnd { layable: self, mode: Mode::Horiz }),
    {
        AtEnd::to_bottom(self)
    }

    fn to_bottom_right(self) -> (r: AtEnd<Self>)
        ensures
            r == (AtEnd { layable: self, mode: Mode::Both }),
    {
        AtEnd::to_bottom_right(self)
    }

    fn crop(self) -> (r: Crop<Self>)
        ensures
            r.layable == self,
    {
        Crop::new(self)
    }

    fn restrict_to_size(self) -> (r: RestrictToSize<Self>)
        ensures
            r.layable == self,
    {
        RestrictToSize::new(self)
    }

    fn fix_w(self, width: i32) -> (r: FixedSize<Self>)
        ensures
            r == (FixedSize { layable: self, fit_opt: FitOpt::Width(width) }),
    {
        FixedSize::fix_w(width, self)
    }

    fn fix_h(self, height: i32) -> (r: FixedSize<Self>)
        ensures
            r == (FixedSize { layable: self, fit_opt: FitOpt::Height(height) }),
    {
        FixedSize::fix_h(height, self)
    }

    fn fix_wh(self, width: i32, height: i32) -> (r: FixedSize<Self>)
        ensures
            r == (FixedSize { layable: self, fit_opt: FitOpt::Both((width, height)) }),
    {
        FixedSize::fix_size((width, height), self)
    }

    fn fix_wh_square(self, both: i32) -> (r: FixedSize<Self>)
        ensures
            r == (FixedSize { layable: self, fit_opt: FitOpt::Both((both, both)) }),
    {
        FixedSize::fix_both(both, self)
    }

    fn scale_h_to_fix(self, fix_width: i32) -> (r: ScaleToFit<Self>)
        ensures
            r == (ScaleToFit { layable: self, fit_opt: scale_to_fit::FitOpt::Width(fix_width) }),
    {
        ScaleToFit::fix_w(fix_width, self)
    }

    fn scale_w_to_fix(self, fix_height: i32) -> (r: ScaleToFit<Self>)
        ensures
            r == (ScaleToFit { layable: self, fit_opt: scale_to_fit::FitOpt::Height(fix_height) }),
    {
        ScaleToFit::fix_h(fix_height, self)
    }

    fn scale_by(self, scale: Scale) -> (r: ScaleBy<Self>)
        ensures
            r == (ScaleBy { layable: self, scale }),
    {
        ScaleBy::new(self, scale)
    }

    fn margin(self, margin: i32) -> (r: Margin<Self>)
        ensures
            r == (Margin {
                layable: self,
                values: MarginValues { r: margin, l: margin, t: margin, b: margin },
            }),
    {
        Margin::all(margin, self)
    }

    fn margin_v(self, margin: i32) -> (r: Margin<Self>)
        ensures
            r == (Margin { layable: self, values: MarginValues { r: margin, l: margin, t: 0, b: 0 } }),
    {
        Margin::vertical(margin, self)
    }

    fn margin_h(self, margin: i32) -> (r: Margin<Self>)
        ensures
            r == (Margin { layable: self, values: MarginValues { r: 0, l: 0, t: margin, b: margin } }),
    {
        Margin::horizontal(margin, self)
    }

    fn view(self, x: i32, y: i32) -> (r: ViewOffset<Self>)
        ensures
            r == (ViewOffset { layable: self, base_x: x, base_y: y }),
    {
        ViewOffset::new(self, x, y)
    }

    fn scrollable_vert(self, state: ScrollableState) -> (r: Scrollable<Crop<Self>>)
        ensures
            r.state == state,
            r.mode == ScrollableMode::Vertical,
            r.layable.layable == self,
    {
        Scrollable::new(state, ScrollableMode::Vertical, self)
    }

    fn scrollable_horiz(self, state: ScrollableState) -> (r: Scrollable<Crop<Self>>)
        ensures
            r.state == state,
            r.mode == ScrollableMode::Horizontal,
            r.layable.layable == self,
    {
        Scrollable::new(state, ScrollableMode::Horizontal, self)
    }

    fn scrollable(self, state: ScrollableState) -> (r: Scrollable<Crop<Self>>)
        ensures
            r.state == state,
            r.mode == ScrollableMode::Both,
            r.layable.layable == self,
    {
        Scrollable::new(state, ScrollableMode::Both, self)
    }

    fn clickable<F: OnClick>(self, gen_ret: F) -> (r: Clickable<Self, F>)
        ensures
            r == (Clickable { comp: self, gen_ret, fallback: false }),
    {
        Clickable::new(gen_ret, self)
    }

    fn clickable_fallback<F: OnClick>(self, gen_ret: F) -> (r: Clickable<Self, F>)
        ensures
            r == (Clickable { comp: self, gen_ret, fallback: true }),
    {
        Clickable::new_fallback(gen_ret, self)
    }

    /// This component drawn over `background`.
    fn with_background<B: Layable>(self, background: B) -> (r: Overlay<Self, B>)
        ensures
            r == (Overlay { foreground: self, background }),
    {
        Overlay::new(background, self)
    }

    /// `foreground` drawn over this component.
    fn overlay<F: Layable>(self, foreground: F) -> (r: Overlay<F, Self>)
        ensures
            r == (Overlay { foreground, background: self }),
    {
        Overlay::new(self, foreground)
    }
}

impl<L: Layable> LayableExt for L {
}

} // verus!
