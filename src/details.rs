use vstd::prelude::*;

verus! {

/// `v` held to the range of `i32`: what a coordinate becomes when its
/// arithmetic leaves that range.
pub open spec fn clamp_i32(v: int) -> int {
    if v < i32::MIN {
        i32::MIN as int
    } else if v > i32::MAX {
        i32::MAX as int
    } else {
        v
    }
}

/// Integer division rounding toward zero, as Rust's `/` does.
pub open spec fn trunc_div(a: int, b: int) -> int
    recommends
        b > 0,
{
    if a >= 0 {
        a / b
    } else {
        -((-a) / b)
    }
}

/// Narrows a wide intermediate value to `i32`, saturating at the bounds.
pub fn sat_i32(v: i64) -> (r: i32)
    ensures
        r == clamp_i32(v as int),
{
    if v < i32::MIN as i64 {
        i32::MIN
    } else if v > i32::MAX as i64 {
        i32::MAX
    } else {
        v as i32
    }
}

/// `a + b`, saturating at the bounds of `i32`.
pub fn add_sat(a: i32, b: i32) -> (r: i32)
    ensures
        r == clamp_i32(a + b),
{
    sat_i32(a as i64 + b as i64)
}

/// `a - b`, saturating at the bounds of `i32`.
pub fn sub_sat(a: i32, b: i32) -> (r: i32)
    ensures
        r == clamp_i32(a - b),
{
    sat_i32(a as i64 - b as i64)
}

/// `a / b`, rounding toward zero.
pub fn div_trunc(a: i128, b: i128) -> (r: i128)
    requires
        b > 0,
        a > i128::MIN,
    ensures
        r == trunc_div(a as int, b as int),
{
    if a >= 0 {
        a / b
    } else {
        -((-a) / b)
    }
}

/// `v` narrowed from a wide value to `i32`, saturating.
pub fn sat_wide(v: i128) -> (r: i32)
    ensures
        r == clamp_i32(v as int),
{
    if v < i32::MIN as i128 {
        i32::MIN
    } else if v > i32::MAX as i128 {
        i32::MAX
    } else {
        v as i32
    }
}

/// A uniform scale factor, in thousandths: `1000` draws at natural size.
#[derive(Clone, Copy, Debug, PartialEq, Eq, Hash)]
pub struct Scale {
    pub milli: u32,
}

/// What a length becomes under `scale`: the exact product, rounded toward
/// zero and saturated to `i32`.
pub open spec fn scaled(v: int, scale: Scale) -> int {
    clamp_i32(trunc_div(v * scale.milli, 1000))
}

impl Scale {
    /// The natural size: a factor of one.
    pub fn one() -> (r: Self)
        ensures
            r.milli == 1000,
    {
        Scale { milli: 1000 }
    }

    pub fn from_milli(milli: u32) -> (r: Self)
        ensures
            r.milli == milli,
    {
        Scale { milli }
    }

    /// Applies this factor to a length.
    pub fn apply(&self, v: i32) -> (r: i32)
        ensures
            r == scaled(v as int, *self),
    {
        let m = self.milli as i64;
        proof {
            assert(-0x8000_0000 * 0xffff_ffff <= v * m <= 0x7fff_ffff * 0xffff_ffff)
                by (nonlinear_arith)
                requires
                    -0x8000_0000 <= v <= 0x7fff_ffff,
                    0 <= m <= 0xffff_ffff,
            ;
        }
        let p: i64 = v as i64 * m;
        let q: i64 = if p >= 0 {
            p / 1000
        } else {
            -((-p) / 1000)
        };
        sat_i32(q)
    }
}

impl Scale {
    /// Applies this factor to a wide length.
    pub fn apply_wide(&self, v: i64) -> (r: i32)
        requires
            -0x1_0000_0000 <= v <= 0x1_0000_0000,
        ensures
            r == scaled(v as int, *self),
    {
        let m = self.milli as i128;
        proof {
            assert(-0x1_0000_0000 * 0xffff_ffff <= v * m <= 0x1_0000_0000 * 0xffff_ffff)
                by (nonlinear_arith)
                requires
                    -0x1_0000_0000 <= v <= 0x1_0000_0000,
                    0 <= m <= 0xffff_ffff,
            ;
        }
        sat_wide(div_trunc(v as i128 * m, 1000))
    }
}

/// A rectangular region that a parent allots to a child for one pass:
/// an origin and the available width and height.
#[derive(Clone, Copy, Debug, PartialEq, Eq, Hash, Default)]
pub struct Details {
    pub x: i32,
    pub y: i32,
    /// available width
    pub aw: i32,
    /// available height
    pub ah: i32,
}

/// The `i`-th of `pieces` equal columns of `d`.
pub open spec fn column_of(d: Details, pieces: int, i: int) -> Details {
    let one_w = trunc_div(d.aw as int, pieces);
    Details { x: clamp_i32(d.x + one_w * i) as i32, y: d.y, aw: one_w as i32, ah: d.ah }
}

/// The `i`-th of `pieces` equal rows of `d`.
pub open spec fn row_of(d: Details, pieces: int, i: int) -> Details {
    let one_h = trunc_div(d.ah as int, pieces);
    Details { x: d.x, y: clamp_i32(d.y + one_h * i) as i32, aw: d.aw, ah: one_h as i32 }
}

proof fn lemma_trunc_div_bounds(a: int, b: int)
    requires
        b > 0,
    ensures
        a >= 0 ==> 0 <= trunc_div(a, b) <= a,
        a < 0 ==> a <= trunc_div(a, b) <= 0,
{
    if a >= 0 {
        assert(0 <= a / b <= a) by (nonlinear_arith)
            requires
                a >= 0,
                b > 0,
        ;
    } else {
        assert(0 <= (-a) / b <= -a) by (nonlinear_arith)
            requires
                -a > 0,
                b > 0,
        ;
    }
}

impl Details {
    /// the area of a point with a width and height
    pub open spec fn spec_is_inside(&self, x: int, y: int) -> bool {
        &&& self.x <= x <= self.x + self.aw
        &&& self.y <= y <= self.y + self.ah
    }

    /// whether the two regions share any area
    pub open spec fn spec_intersects(&self, o: &Details) -> bool {
        !(self.x + self.aw <= o.x || o.x + o.aw <= self.x || self.y + self.ah <= o.y || o.y
            + o.ah <= self.y)
    }

    pub fn new(x: i32, y: i32, aw: i32, ah: i32) -> (r: Self)
        ensures
            r == (Details { x, y, aw, ah }),
    {
        Details { x, y, aw, ah }
    }

    /// The whole window of the given size, from the origin.
    pub fn window(w: i32, h: i32) -> (r: Self)
        ensures
            r == (Details { x: 0, y: 0, aw: w, ah: h }),
    {
        Self::new(0, 0, w, h)
    }

    /// The top strip of height `h`.
    pub fn from_top(&self, h: i32) -> (r: Self)
        ensures
            r == (Details { ah: h, ..*self }),
    {
        Details { x: self.x, y: self.y, aw: self.aw, ah: h }
    }

    /// The bottom strip of height `h`.
    pub fn from_bottom(&self, h: i32) -> (r: Self)
        ensures
            r == (Details { y: clamp_i32(self.y + self.ah - h) as i32, ah: h, ..*self }),
    {
        let y = sat_i32(self.y as i64 + self.ah as i64 - h as i64);
        Details { x: self.x, y, aw: self.aw, ah: h }
    }

    /// The left strip of width `w`.
    pub fn from_left(&self, w: i32) -> (r: Self)
        ensures
            r == (Details { aw: w, ..*self }),
    {
        Details { x: self.x, y: self.y, aw: w, ah: self.ah }
    }

    /// The right strip of width `w`.
    pub fn from_right(&self, w: i32) -> (r: Self)
        ensures
            r == (Details { x: clamp_i32(self.x + self.aw - w) as i32, aw: w, ..*self }),
    {
        let x = sat_i32(self.x as i64 + self.aw as i64 - w as i64);
        Details { x, y: self.y, aw: w, ah: self.ah }
    }

    /// Splits the region into `pieces` columns of equal width, left to right;
    /// none when `pieces` is negative.
    pub fn split_v(&self, pieces: i32) -> (r: Vec<Details>)
        requires
            pieces != 0,
        ensures
            r@.len() == if pieces > 0 {
                pieces as int
            } else {
                0
            },
            forall|i: int| 0 <= i < r@.len() ==> r@[i] == column_of(*self, pieces as int, i),
    {
        let mut r: Vec<Details> = Vec::new();
        if pieces < 0 {
            return r;
        }
        let aw = self.aw as i64;
        let one_w: i64 = if aw >= 0 {
            aw / pieces as i64
        } else {
            -((-aw) / pieces as i64)
        };
        proof {
            lemma_trunc_div_bounds(aw as int, pieces as int);
        }
        let mut i: i32 = 0;
        while i < pieces
            invariant
                0 <= i <= pieces,
                one_w == trunc_div(self.aw as int, pieces as int),
                aw >= 0 ==> 0 <= one_w <= aw,
                aw < 0 ==> aw <= one_w <= 0,
                aw == self.aw,
                r@.len() == i,
                forall|k: int| 0 <= k < i ==> r@[k] == column_of(*self, pieces as int, k),
            decreases pieces - i,
        {
            proof {
                if aw >= 0 {
                    assert(0 <= one_w * i <= one_w * pieces) by (nonlinear_arith)
                        requires
                            0 <= one_w,
                            0 <= i < pieces,
                    ;
                } else {
                    assert(one_w * pieces <= one_w * i <= 0) by (nonlinear_arith)
                        requires
                            one_w <= 0,
                            0 <= i < pieces,
                    ;
                }
                assert(-0x8000_0000 * 0x7fff_ffff <= one_w * i <= 0x7fff_ffff * 0x7fff_ffff)
                    by (nonlinear_arith)
                    requires
                        -0x8000_0000 <= one_w <= 0x7fff_ffff,
                        0 <= i <= 0x7fff_ffff,
                ;
            }
            let x = sat_i32(self.x as i64 + one_w * i as i64);
            r.push(Details { x, y: self.y, aw: one_w as i32, ah: self.ah });
            i = i + 1;
        }
        r
    }

    /// Splits the region into `pieces` rows of equal height, top to bottom;
    /// none when `pieces` is negative.
    pub fn split_h(&self, pieces: i32) -> (r: Vec<Details>)
        requires
            pieces != 0,
        ensures
            r@.len() == if pieces > 0 {
                pieces as int
            } else {
                0
            },
            forall|i: int| 0 <= i < r@.len() ==> r@[i] == row_of(*self, pieces as int, i),
    {
        let mut r: Vec<Details> = Vec::new();
        if pieces < 0 {
            return r;
        }
        let ah = self.ah as i64;
        let one_h: i64 = if ah >= 0 {
            ah / pieces as i64
        } else {
            -((-ah) / pieces as i64)
        };
        proof {
            lemma_trunc_div_bounds(ah as int, pieces as int);
        }
        let mut i: i32 = 0;
        while i < pieces
            invariant
                0 <= i <= pieces,
                one_h == trunc_div(self.ah as int, pieces as int),
                ah >= 0 ==> 0 <= one_h <= ah,
                ah < 0 ==> ah <= one_h <= 0,
                ah == self.ah,
                r@.len() == i,
                forall|k: int| 0 <= k < i ==> r@[k] == row_of(*self, pieces as int, k),
            decreases pieces - i,
        {
            proof {
                assert(-0x8000_0000 * 0x7fff_ffff <= one_h * i <= 0x7fff_ffff * 0x7fff_ffff)
                    by (nonlinear_arith)
                    requires
                        -0x8000_0000 <= one_h <= 0x7fff_ffff,
                        0 <= i <= 0x7fff_ffff,
                ;
            }
            let y = sat_i32(self.y as i64 + one_h * i as i64);
            r.push(Details { x: self.x, y, aw: self.aw, ah: one_h as i32 });
            i = i + 1;
        }
        r
    }

    /// This region with its width and height scaled.
    pub fn mul_size(self, scale: Scale) -> (r: Self)
        ensures
            r == (Details {
                aw: scaled(self.aw as int, scale) as i32,
                ah: scaled(self.ah as int, scale) as i32,
                ..self
            }),
    {
        Details { x: self.x, y: self.y, aw: scale.apply(self.aw), ah: scale.apply(self.ah) }
    }

    /// Whether the point lies in the region, edges included.
    pub fn is_inside(&self, x: i32, y: i32) -> (r: bool)
        ensures
            r == self.spec_is_inside(x as int, y as int),
    {
        x as i64 >= self.x as i64 && x as i64 <= self.x as i64 + self.aw as i64 && y as i64
            >= self.y as i64 && y as i64 <= self.y as i64 + self.ah as i64
    }

    /// [`Details::is_inside`] on a pair.
    pub fn is_inside_tuple(&self, p: (i32, i32)) -> (r: bool)
        ensures
            r == self.spec_is_inside(p.0 as int, p.1 as int),
    {
        self.is_inside(p.0, p.1)
    }

    /// Whether the two regions share any area.
    pub fn intersects(&self, rhs: &Self) -> (r: bool)
        ensures
            r == self.spec_intersects(rhs),
    {
        let r1_left = self.x as i64;
        let r1_right = self.x as i64 + self.aw as i64;
        let r1_bottom = self.y as i64;
        let r1_top = self.y as i64 + self.ah as i64;

        let r2_left = rhs.x as i64;
        let r2_right = rhs.x as i64 + rhs.aw as i64;
        let r2_bottom = rhs.y as i64;
        let r2_top = rhs.y as i64 + rhs.ah as i64;

        let no_overlap = r1_right <= r2_left || r2_right <= r1_left || r1_top <= r2_bottom
            || r2_top <= r1_bottom;
        !no_overlap
    }
}

} // verus!
