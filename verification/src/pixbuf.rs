//! An RGBA pixel buffer and the hollow-rectangle highlighting drawn on it.

use vstd::prelude::*;
use vstd::pervasive::VecAdditionalExecFns;
use crate::region::{Region, any_border, all_in_bounds};

verus! {

/// One RGBA pixel.
#[derive(Clone, Copy, Debug, PartialEq, Eq, Structural)]
pub struct Pixel {
    pub r: u8,
    pub g: u8,
    pub b: u8,
    pub a: u8,
}

/// The fixed highlight colour for forged regions: opaque red.
pub open spec fn highlight() -> Pixel {
    Pixel { r: 255, g: 0, b: 0, a: 255 }
}

/// Channel `c` (0 = red, 1 = green, 2 = blue, 3 = alpha) of a pixel.
pub open spec fn channel(p: Pixel, c: int) -> u8 {
    if c == 0 {
        p.r
    } else if c == 1 {
        p.g
    } else if c == 2 {
        p.b
    } else {
        p.a
    }
}

/// The pixel at `(x, y)` of a row-major RGBA byte sequence of width `width`.
pub open spec fn px_in(data: Seq<u8>, width: int, x: int, y: int) -> Pixel {
    let i = 4 * (y * width + x);
    Pixel { r: data[i], g: data[i + 1], b: data[i + 2], a: data[i + 3] }
}

/// A decoded image: row-major RGBA bytes, four per pixel.
pub struct RgbaBuffer {
    pub width: u32,
    pub height: u32,
    pub data: Vec<u8>,
}

impl RgbaBuffer {
    /// The byte length matches the dimensions.
    pub open spec fn wf(self) -> bool {
        self.data@.len() == 4 * (self.width as int) * (self.height as int)
    }

    pub open spec fn px(self, x: int, y: int) -> Pixel {
        px_in(self.data@, self.width as int, x, y)
    }

    /// Wraps raw RGBA bytes; succeeds exactly when the length matches the
    /// dimensions.
    pub fn from_raw(width: u32, height: u32, data: Vec<u8>) -> (r: Option<RgbaBuffer>)
        ensures
            match r {
                Some(b) => b.wf() && b.width == width && b.height == height && b.data@ == data@
                    && 4 * (width as int) * (height as int) == data@.len(),
                None => 4 * (width as int) * (height as int) != data@.len(),
            },
    {
        proof {
            lemma_area_times_four(width as int, height as int);
        }
        let _len: usize = data.len();
        let pixels: Option<usize> = (width as usize).checked_mul(height as usize);
        match pixels {
            Some(p) => match p.checked_mul(4) {
                Some(len) => {
                    if len == data.len() {
                        Some(RgbaBuffer { width, height, data })
                    } else {
                        None
                    }
                },
                None => None,
            },
            None => None,
        }
    }

    pub fn get_pixel(&self, x: u32, y: u32) -> (p: Pixel)
        requires
            self.wf(),
            x < self.width,
            y < self.height,
        ensures
            p == self.px(x as int, y as int),
    {
        let i: usize = self.pixel_index(x, y);
        Pixel { r: self.data[i], g: self.data[i + 1], b: self.data[i + 2], a: self.data[i + 3] }
    }

    /// Byte index of the first channel of `(x, y)`.
    fn pixel_index(&self, x: u32, y: u32) -> (i: usize)
        requires
            self.wf(),
            x < self.width,
            y < self.height,
        ensures
            i == 4 * ((y as int) * (self.width as int) + (x as int)),
            i + 3 < self.data@.len(),
    {
        let _len: usize = self.data.len();
        proof {
            lemma_pixel_index_bound(self.width as int, self.height as int, x as int, y as int);
        }
        4 * ((y as usize) * (self.width as usize) + (x as usize))
    }

    /// Sets the pixel at `(x, y)`, leaving every other pixel unchanged.
    pub fn put_pixel(&mut self, x: u32, y: u32, color: Pixel)
        requires
            old(self).wf(),
            x < old(self).width,
            y < old(self).height,
        ensures
            final(self).wf(),
            final(self).width == old(self).width,
            final(self).height == old(self).height,
            final(self).px(x as int, y as int) == color,
            forall|xx: int, yy: int|
                0 <= xx < old(self).width && 0 <= yy < old(self).height
                && !(xx == x && yy == y)
                ==> final(self).px(xx, yy) == old(self).px(xx, yy),
    {
        let i: usize = self.pixel_index(x, y);
        self.data.set(i, color.r);
        self.data.set(i + 1, color.g);
        self.data.set(i + 2, color.b);
        self.data.set(i + 3, color.a);
        proof {
            assert forall|xx: int, yy: int|
                0 <= xx < old(self).width && 0 <= yy < old(self).height
                && !(xx == x && yy == y)
                implies final(self).px(xx, yy) == old(self).px(xx, yy) by {
                lemma_pixel_index_injective(
                    self.width as int,
                    x as int,
                    y as int,
                    xx,
                    yy,
                );
                lemma_pixel_index_bound(self.width as int, self.height as int, xx, yy);
            }
        }
    }
}

/// The part of a rectangle's top and bottom rows drawn once the row loop has
/// reached column `x_lim`.
pub open spec fn rows_drawn(r: Region, x_lim: int, xx: int, yy: int) -> bool {
    r.start.x <= xx < x_lim && (yy == r.start.y || yy == r.end.y)
}

/// The part of a rectangle's left and right columns drawn once the column
/// loop has reached row `y_lim`.
pub open spec fn cols_drawn(r: Region, y_lim: int, xx: int, yy: int) -> bool {
    (xx == r.start.x || xx == r.end.x) && r.start.y <= yy < y_lim
}

impl RgbaBuffer {
    /// Draws the outline of `region` in `color`: every pixel on its top row,
    /// bottom row, left column and right column, corners included; interior
    /// pixels and pixels outside the rectangle are untouched.
    pub fn draw_hollow_rect(&mut self, region: &Region, color: Pixel)
        requires
            old(self).wf(),
            region.in_bounds(old(self).width as int, old(self).height as int),
        ensures
            final(self).wf(),
            final(self).width == old(self).width,
            final(self).height == old(self).height,
            forall|xx: int, yy: int|
                0 <= xx < old(self).width && 0 <= yy < old(self).height
                ==> final(self).px(xx, yy) == (if region.on_border(xx, yy) {
                    color
                } else {
                    old(self).px(xx, yy)
                }),
    {
        let sx = region.start.x;
        let sy = region.start.y;
        let ex = region.end.x;
        let ey = region.end.y;
        let mut x: u32 = sx;
        while x <= ex
            invariant
                self.wf(),
                self.width == old(self).width,
                self.height == old(self).height,
                region.in_bounds(self.width as int, self.height as int),
                sx == region.start.x && sy == region.start.y,
                ex == region.end.x && ey == region.end.y,
                sx <= x <= ex + 1,
                forall|xx: int, yy: int|
                    0 <= xx < self.width && 0 <= yy < self.height
                    ==> self.px(xx, yy) == (if rows_drawn(*region, x as int, xx, yy) {
                        color
                    } else {
                        old(self).px(xx, yy)
                    }),
            decreases ex + 1 - x,
        {
            self.put_pixel(x, sy, color);
            self.put_pixel(x, ey, color);
            x = x + 1;
        }
        let mut y: u32 = sy;
        while y <= ey
            invariant
                self.wf(),
                self.width == old(self).width,
                self.height == old(self).height,
                region.in_bounds(self.width as int, self.height as int),
                sx == region.start.x && sy == region.start.y,
                ex == region.end.x && ey == region.end.y,
                sy <= y <= ey + 1,
                forall|xx: int, yy: int|
                    0 <= xx < self.width && 0 <= yy < self.height
                    ==> self.px(xx, yy) == (if rows_drawn(*region, ex + 1, xx, yy)
                        || cols_drawn(*region, y as int, xx, yy) {
                        color
                    } else {
                        old(self).px(xx, yy)
                    }),
            decreases ey + 1 - y,
        {
            self.put_pixel(sx, y, color);
            self.put_pixel(ex, y, color);
            y = y + 1;
        }
    }

    /// Draws every region's outline in the highlight colour, in order.
    /// The resulting bytes are exactly `annotated` of the old bytes.
    pub fn draw_regions(&mut self, regions: &Vec<Region>)
        requires
            old(self).wf(),
            all_in_bounds(regions@, old(self).width as int, old(self).height as int),
        ensures
            final(self).wf(),
            final(self).width == old(self).width,
            final(self).height == old(self).height,
            final(self).data@ == annotated(
                old(self).data@,
                old(self).width as int,
                regions@,
            ),
    {
        let red = Pixel { r: 255, g: 0, b: 0, a: 255 };
        let mut i: usize = 0;
        while i < regions.len()
            invariant
                self.wf(),
                self.width == old(self).width,
                self.height == old(self).height,
                all_in_bounds(regions@, self.width as int, self.height as int),
                red == highlight(),
                0 <= i <= regions.len(),
                forall|xx: int, yy: int|
                    0 <= xx < self.width && 0 <= yy < self.height
                    ==> self.px(xx, yy) == (if any_border(regions@.take(i as int), xx, yy) {
                        highlight()
                    } else {
                        old(self).px(xx, yy)
                    }),
            decreases regions.len() - i,
        {
            let ghost prev = regions@.take(i as int);
            assert(regions@[i as int].in_bounds(self.width as int, self.height as int));
            self.draw_hollow_rect(&regions[i], red);
            proof {
                assert(regions@.take(i + 1) =~= prev.push(regions@[i as int]));
                assert forall|xx: int, yy: int|
                    0 <= xx < self.width && 0 <= yy < self.height
                    implies self.px(xx, yy) == (if any_border(regions@.take(i + 1), xx, yy) {
                        highlight()
                    } else {
                        old(self).px(xx, yy)
                    }) by {
                    lemma_any_border_push(prev, regions@[i as int], xx, yy);
                }
            }
            i = i + 1;
        }
        proof {
            assert(regions@.take(i as int) =~= regions@);
            assert forall|x: int, y: int|
                0 <= x < self.width as int && 0 <= y < self.height as int
                implies px_in(self.data@, self.width as int, x, y) == (if any_border(
                regions@,
                x,
                y,
            ) {
                highlight()
            } else {
                px_in(old(self).data@, self.width as int, x, y)
            }) by {
                assert(self.px(x, y) == (if any_border(regions@.take(i as int), x, y) {
                    highlight()
                } else {
                    old(self).px(x, y)
                }));
            }
            lemma_px_matches_annotated(
                old(self).data@,
                self.data@,
                self.width as int,
                self.height as int,
                regions@,
            );
        }
    }
}

/// Pushing a region onto a sequence adds exactly its border to the drawn set.
proof fn lemma_any_border_push(s: Seq<Region>, r: Region, x: int, y: int)
    ensures
        any_border(s.push(r), x, y) <==> (any_border(s, x, y) || r.on_border(x, y)),
{
    if any_border(s.push(r), x, y) {
        let i = choose|i: int| 0 <= i < s.push(r).len() && #[trigger] s.push(r)[i].on_border(x, y);
        if i < s.len() {
            assert(s[i].on_border(x, y));
        } else {
            assert(s.push(r)[i] == r);
        }
    }
    if any_border(s, x, y) {
        let i = choose|i: int| 0 <= i < s.len() && #[trigger] s[i].on_border(x, y);
        assert(s.push(r)[i].on_border(x, y));
    }
    if r.on_border(x, y) {
        assert(s.push(r)[s.len() as int].on_border(x, y));
    }
}

/// The bytes of an image with every region's outline drawn in the highlight
/// colour: byte `i` belongs to pixel `(x, y) = (i / 4 % width, i / 4 / width)`
/// and is replaced by the matching highlight channel exactly when some
/// region's border passes through that pixel.
pub open spec fn annotated(data: Seq<u8>, width: int, regions: Seq<Region>) -> Seq<u8> {
    Seq::new(
        data.len(),
        |i: int|
            {
                let x = i / 4 % width;
                let y = i / 4 / width;
                if any_border(regions, x, y) {
                    channel(highlight(), i % 4)
                } else {
                    data[i]
                }
            },
    )
}

/// Splits a byte index of an RGBA buffer into its pixel coordinates and
/// channel.
proof fn lemma_byte_decompose(w: int, h: int, i: int)
    requires
        0 < w,
        0 < h,
        0 <= i < 4 * w * h,
    ensures
        0 <= i % 4 < 4,
        0 <= i / 4 % w < w,
        0 <= i / 4 / w < h,
        i == 4 * ((i / 4 / w) * w + (i / 4 % w)) + i % 4,
{
    vstd::arithmetic::div_mod::lemma_fundamental_div_mod(i, 4);
    vstd::arithmetic::div_mod::lemma_mod_division_less_than_divisor(i, 4);
    let p = i / 4;
    assert(0 <= p && 4 * p <= i) by (nonlinear_arith)
        requires
            i == 4 * p + i % 4,
            0 <= i % 4 < 4,
            0 <= i,
    ;
    lemma_area_times_four(w, h);
    assert(p < w * h) by (nonlinear_arith)
        requires
            4 * p <= i,
            i < 4 * w * h,
            4 * w * h == 4 * (w * h),
    ;
    vstd::arithmetic::div_mod::lemma_fundamental_div_mod(p, w);
    vstd::arithmetic::div_mod::lemma_mod_division_less_than_divisor(p, w);
    let x = p % w;
    let y = p / w;
    assert(0 <= y < h) by (nonlinear_arith)
        requires
            p == w * y + x,
            0 <= x < w,
            0 <= p < w * h,
            0 < w,
            0 < h,
    ;
    assert(i == 4 * (y * w + x) + i % 4) by (nonlinear_arith)
        requires
            i == 4 * p + i % 4,
            p == w * y + x,
    ;
}

/// One byte of the annotated buffer, addressed by pixel coordinates and
/// channel instead of by flat index.
proof fn lemma_annotated_byte(
    data: Seq<u8>,
    w: int,
    h: int,
    regions: Seq<Region>,
    x: int,
    y: int,
    c: int,
)
    requires
        0 < w,
        0 < h,
        data.len() == 4 * w * h,
        0 <= x < w,
        0 <= y < h,
        0 <= c < 4,
    ensures
        annotated(data, w, regions)[4 * (y * w + x) + c] == (if any_border(regions, x, y) {
            channel(highlight(), c)
        } else {
            data[4 * (y * w + x) + c]
        }),
{
    let q = y * w + x;
    lemma_pixel_index_bound(w, h, x, y);
    vstd::arithmetic::div_mod::lemma_fundamental_div_mod_converse(4 * q + c, 4, q, c);
    vstd::arithmetic::div_mod::lemma_fundamental_div_mod_converse(q, w, y, x);
}

/// A pointwise pixel description of the drawn buffer pins its bytes down to
/// exactly `annotated` of the original bytes.
proof fn lemma_px_matches_annotated(
    d_old: Seq<u8>,
    d_new: Seq<u8>,
    w: int,
    h: int,
    regions: Seq<Region>,
)
    requires
        0 <= w,
        0 <= h,
        d_old.len() == 4 * w * h,
        d_new.len() == 4 * w * h,
        forall|x: int, y: int|
            0 <= x < w && 0 <= y < h ==> px_in(d_new, w, x, y) == (if any_border(regions, x, y) {
                highlight()
            } else {
                px_in(d_old, w, x, y)
            }),
    ensures
        d_new == annotated(d_old, w, regions),
{
    assert forall|i: int| 0 <= i < d_old.len() implies d_new[i] == annotated(
        d_old,
        w,
        regions,
    )[i] by {
        lemma_area_times_four(w, h);
        lemma_byte_decompose(w, h, i);
        let c = i % 4;
        let x = i / 4 % w;
        let y = i / 4 / w;
        lemma_annotated_byte(d_old, w, h, regions, x, y, c);
        assert(px_in(d_new, w, x, y) == (if any_border(regions, x, y) {
            highlight()
        } else {
            px_in(d_old, w, x, y)
        }));
        assert(d_new[i] == channel(px_in(d_new, w, x, y), c));
        assert(d_old[i] == channel(px_in(d_old, w, x, y), c));
    }
    assert(d_new =~= annotated(d_old, w, regions));
}

/// Law: drawing the regions puts the highlight colour on every pixel of a
/// region's outline, and leaves a pixel untouched when no region's outline
/// passes through it — in particular every pixel strictly inside a lone
/// rectangle keeps its original colour.
pub proof fn lemma_hollow_rectangle(
    data: Seq<u8>,
    w: int,
    h: int,
    regions: Seq<Region>,
    k: int,
    x: int,
    y: int,
)
    requires
        0 < w,
        0 < h,
        data.len() == 4 * w * h,
        0 <= x < w,
        0 <= y < h,
        0 <= k < regions.len(),
    ensures
        regions[k].on_border(x, y) ==> px_in(annotated(data, w, regions), w, x, y) == highlight(),
        (forall|j: int| 0 <= j < regions.len() ==> !(#[trigger] regions[j].on_border(x, y)))
            ==> px_in(annotated(data, w, regions), w, x, y) == px_in(data, w, x, y),
        (regions[k].strictly_inside(x, y) && (forall|j: int|
            0 <= j < regions.len() && j != k ==> !(#[trigger] regions[j].on_border(x, y))))
            ==> px_in(annotated(data, w, regions), w, x, y) == px_in(data, w, x, y),
{
    lemma_pixel_index_bound(w, h, x, y);
    lemma_annotated_byte(data, w, h, regions, x, y, 0);
    lemma_annotated_byte(data, w, h, regions, x, y, 1);
    lemma_annotated_byte(data, w, h, regions, x, y, 2);
    lemma_annotated_byte(data, w, h, regions, x, y, 3);
    if regions[k].on_border(x, y) {
        assert(any_border(regions, x, y));
    }
}

/// Multiplying an area by the four channels keeps it non-negative.
#[verifier::nonlinear]
proof fn lemma_area_times_four(w: int, h: int)
    requires
        0 <= w,
        0 <= h,
    ensures
        0 <= w * h,
        4 * w * h == 4 * (w * h),
        w * h <= 4 * w * h,
{
}

/// The byte index of a pixel in bounds stays within the buffer.
#[verifier::nonlinear]
proof fn lemma_pixel_index_bound(w: int, h: int, x: int, y: int)
    requires
        0 <= x < w,
        0 <= y < h,
    ensures
        0 <= y * w + x,
        4 * (y * w + x) + 3 < 4 * w * h,
{
}

/// Distinct pixel coordinates map to distinct byte indices.
#[verifier::nonlinear]
proof fn lemma_pixel_index_injective(w: int, x1: int, y1: int, x2: int, y2: int)
    requires
        0 <= x1 < w,
        0 <= x2 < w,
        0 <= y1,
        0 <= y2,
        !(x1 == x2 && y1 == y2),
    ensures
        y1 * w + x1 != y2 * w + x2,
{
}

} // verus!
