//! A progress bar: maps a bounded value (a track position, a volume) to the
//! pixel width of its filled rectangle, and maps a click back to a value.
//!
//! The fill width is the floor of `value * inner_width / maximum`, where the
//! inner width leaves one border pixel on each side. A bar whose `maximum`
//! is zero is inert: nothing it is told changes it.

use vstd::prelude::*;
use vstd::arithmetic::div_mod::{
    lemma_div_by_multiple,
    lemma_div_is_ordered,
    lemma_div_plus_one,
    lemma_div_pos_is_pos,
};
use vstd::arithmetic::mul::{
    lemma_mul_inequality,
    lemma_mul_is_commutative,
    lemma_mul_nonnegative,
    lemma_mul_upper_bound,
};
use crate::geometry::{box_contains, inside_box, Vector2};

verus! {

/// `v` clamped from above to `m`.
pub open spec fn clamp_to(v: int, m: int) -> int {
    if v > m {
        m
    } else {
        v
    }
}

/// The pixel width that represents the value `v` of a quantity bounded by
/// `m` on `inner` available pixels; zero when the bar has no bound yet.
pub open spec fn pixel_of(v: int, inner: int, m: int) -> int {
    if m > 0 {
        v * inner / m
    } else {
        0
    }
}

pub struct ProgressBar {
    pub maximum: usize,
    pub value: usize,
    pub real_value: usize,
    pub position: Vector2,
    pub size: Vector2,
    pub need_to_draw: bool,
    pub name: String,
}

/// What the bar hands the renderer: its footprint and the width of the
/// filled rectangle.
#[derive(Clone, Copy, PartialEq, Eq, Structural, Debug)]
pub struct BarFrame {
    pub position: Vector2,
    pub size: Vector2,
    pub fill_width: usize,
}

impl ProgressBar {
    /// The pixels left for the fill between the two border columns.
    pub open spec fn inner_width(self) -> int {
        self.size.x - 2
    }

    /// The bar never shrinks below its minimum size, so an inner pixel
    /// always exists.
    pub open spec fn wf(self) -> bool {
        self.size.x >= 3 && self.size.y >= 3
    }

    /// The cached pixel width is the quantization of the cached value under
    /// the current bounds and maximum. Every operation but `set_maximum`
    /// preserves this; after `set_maximum` a `set_progress` restores it.
    pub open spec fn synced(self) -> bool {
        &&& self.real_value <= self.maximum
        &&& self.value == pixel_of(self.real_value as int, self.inner_width(), self.maximum as int)
    }

    /// What `set_progress` does: clamp the value to `[0, maximum]`, map it
    /// to pixels, and cache both only when the pixel width changed. A bar
    /// with `maximum == 0` ignores it entirely.
    pub open spec fn set_progress_spec(self, v: int) -> ProgressBar {
        if self.maximum > 0 {
            let c = clamp_to(v, self.maximum as int);
            let npx = pixel_of(c, self.inner_width(), self.maximum as int);
            if npx != self.value {
                ProgressBar {
                    value: npx as usize,
                    real_value: c as usize,
                    need_to_draw: true,
                    ..self
                }
            } else {
                self
            }
        } else {
            self
        }
    }

    /// The value a click at `pos` asks for: the horizontal offset inside
    /// the bar as a fraction of the inner width, scaled by `maximum`, with
    /// a single final floor, so the inverse mapping is pixel-accurate.
    pub open spec fn click_value(self, pos: Vector2) -> int {
        let rel = if pos.x - self.position.x >= 0 {
            pos.x - self.position.x
        } else {
            0
        };
        rel * self.maximum / self.inner_width()
    }

    /// A fresh bar: no maximum yet, empty fill, dirty so the first frame
    /// draws it.
    pub fn new_init(size: Vector2, position: Vector2) -> (r: ProgressBar)
        requires
            size.x >= 3,
            size.y >= 3,
        ensures
            r.maximum == 0,
            r.value == 0,
            r.real_value == 0,
            r.position == position,
            r.size == size,
            r.need_to_draw == true,
            r.name@ == Seq::<char>::empty(),
            r.wf(),
            r.synced(),
    {
        ProgressBar {
            maximum: 0,
            value: 0,
            real_value: 0,
            position,
            size,
            need_to_draw: true,
            name: String::new(),
        }
    }

    /// Clamps `position` to `[0, maximum]` and caches it with its pixel
    /// width when that width changed; inert when `maximum` is zero.
    pub fn set_progress(&mut self, position: usize)
        requires
            old(self).wf(),
        ensures
            *final (self) == old(self).set_progress_spec(position as int),
            final (self).wf(),
            old(self).synced() ==> final (self).synced(),
            old(self).maximum == 0 ==> *final (self) == *old(self),
    {
        let tmp: usize = if position > self.maximum {
            self.maximum
        } else {
            position
        };
        if self.maximum > 0 {
            let inner_w: u128 = (self.size.x as i64 - 2) as u128;
            let ghost inner: int = self.inner_width();
            let ghost m: int = self.maximum as int;
            proof {
                lemma_mul_upper_bound(tmp as int, u64::MAX as int, inner, 0x8000_0000);
            }
            let wide: u128 = (tmp as u128) * inner_w / (self.maximum as u128);
            proof {
                lemma_mul_inequality(tmp as int, m, inner);
                lemma_div_is_ordered(tmp as int * inner, m * inner, m);
                lemma_mul_is_commutative(m, inner);
                lemma_div_by_multiple(inner, m);
                assert(wide <= inner);
            }
            let new_value: usize = wide as usize;
            if new_value != self.value {
                self.need_to_draw = true;
                self.value = new_value;
                self.real_value = tmp;
            }
        }
    }

    /// The last value `set_progress` accepted, in domain units.
    pub fn get_real_value(&self) -> (r: usize)
        ensures
            r == self.real_value,
    {
        self.real_value
    }

    /// Replaces the bound. The displayed width is not recomputed: the
    /// caller re-issues `set_progress` when it wants the fill refreshed
    /// against the new bound.
    pub fn set_maximum(&mut self, maximum: usize)
        ensures
            *final (self) == (ProgressBar { maximum, ..*old(self) }),
    {
        self.maximum = maximum;
    }

    /// Whether `pos` lies on the bar's footprint.
    pub fn is_inside(&self, pos: Vector2) -> (r: bool)
        ensures
            r == inside_box(self.position, self.size, pos),
    {
        box_contains(self.position, self.size, pos)
    }

    /// Turns a click into `set_progress` of the value its horizontal
    /// position stands for, so the same widget seeks a track or sets a
    /// volume.
    pub fn clicked(&mut self, pos: Vector2)
        requires
            old(self).wf(),
        ensures
            *final (self) == old(self).set_progress_spec(old(self).click_value(pos)),
            final (self).wf(),
            old(self).synced() ==> final (self).synced(),
    {
        let relraw: i64 = pos.x as i64 - self.position.x as i64;
        let rel: u128 = if relraw >= 0 {
            relraw as u128
        } else {
            0
        };
        let inner_w: u128 = (self.size.x as i64 - 2) as u128;
        let ghost cv: int = self.click_value(pos);
        proof {
            lemma_mul_upper_bound(rel as int, 0x1_0000_0000, self.maximum as int, u64::MAX as int);
        }
        let scaled: u128 = rel * (self.maximum as u128) / inner_w;
        let v: usize = if scaled > self.maximum as u128 {
            self.maximum
        } else {
            scaled as usize
        };
        proof {
            assert(clamp_to(v as int, self.maximum as int) == clamp_to(cv, self.maximum as int));
        }
        self.set_progress(v);
    }

    /// Hands the renderer the footprint and fill width, and clears the
    /// dirty flag: it is read and cleared exactly once per frame.
    pub fn draw(&mut self) -> (r: BarFrame)
        ensures
            r.position == old(self).position,
            r.size == old(self).size,
            r.fill_width == old(self).value,
            *final (self) == (ProgressBar { need_to_draw: false, ..*old(self) }),
    {
        let r = BarFrame { position: self.position, size: self.size, fill_width: self.value };
        self.need_to_draw = false;
        r
    }

    /// The bar's footprint.
    pub fn get_size(&self) -> (r: Vector2)
        ensures
            r == self.size,
    {
        self.size
    }

    /// Resizes the bar and re-runs the value-to-pixel mapping so the fill
    /// stays consistent with the new bounds.
    pub fn set_size(&mut self, size: Vector2)
        requires
            old(self).wf(),
            size.x >= 3,
            size.y >= 3,
        ensures
            *final (self) == (ProgressBar {
                size,
                need_to_draw: true,
                ..*old(self)
            }).set_progress_spec(old(self).real_value as int),
            final (self).wf(),
            old(self).synced() ==> final (self).synced(),
    {
        self.size = size;
        self.need_to_draw = true;
        let rv: usize = self.real_value;
        self.set_progress(rv);
        proof {
            let s0 = *old(self);
            let mid = (ProgressBar { size, need_to_draw: true, ..s0 });
            if s0.synced() {
                if mid.maximum > 0 {
                    let c = clamp_to(s0.real_value as int, mid.maximum as int);
                    assert(c == s0.real_value as int);
                    let npx = pixel_of(c, mid.inner_width(), mid.maximum as int);
                    if npx == mid.value {
                        assert(self.synced());
                    } else {
                        let m = mid.maximum as int;
                        let inner = mid.inner_width();
                        lemma_mul_nonnegative(c, inner);
                        lemma_div_pos_is_pos(c * inner, m);
                        lemma_mul_inequality(c, m, inner);
                        lemma_div_is_ordered(c * inner, m * inner, m);
                        lemma_mul_is_commutative(m, inner);
                        lemma_div_by_multiple(inner, m);
                        assert(0 <= npx <= inner);
                        assert(self.synced());
                    }
                } else {
                    assert(s0.real_value == 0);
                    assert(self.synced());
                }
            }
        }
    }

    /// The bar's top-left corner.
    pub fn get_position(&self) -> (r: Vector2)
        ensures
            r == self.position,
    {
        self.position
    }

    /// Moves the bar.
    pub fn set_position(&mut self, position: Vector2)
        ensures
            *final (self) == (ProgressBar { position, need_to_draw: true, ..*old(self) }),
    {
        self.position = position;
        self.need_to_draw = true;
    }

    /// A progress bar has no hover state: pointer movement changes nothing.
    pub fn cursor_moved(&mut self, pos: Vector2)
        ensures
            *final (self) == *old(self),
    {
    }

    /// Nor does the pointer leaving it.
    pub fn mouse_leave(&mut self)
        ensures
            *final (self) == *old(self),
    {
    }

    /// The smallest footprint that leaves an inner pixel.
    pub fn get_min_size(&self) -> (r: Vector2)
        ensures
            r == (Vector2 { x: 3, y: 3 }),
    {
        Vector2 { x: 3, y: 3 }
    }

    /// The bar grows without bound.
    pub fn get_max_size(&self) -> (r: Option<Vector2>)
        ensures
            (r is None),
    {
        None
    }

    /// Names the element for the layout that owns it.
    pub fn set_element_name(&mut self, name: &String)
        ensures
            *final (self) == (ProgressBar { name: *name, ..*old(self) }),
    {
        self.name = name.clone();
    }

    /// The element's name.
    pub fn get_element_name(&self) -> (r: &String)
        ensures
            r@ == self.name@,
    {
        &self.name
    }
}

/// The fill width is monotonic in the clamped value: a larger value never
/// draws a shorter fill.
pub proof fn lemma_pixel_monotonic(a: int, b: int, inner: int, m: int)
    requires
        0 <= a <= b,
        0 <= inner,
        0 < m,
    ensures
        pixel_of(a, inner, m) <= pixel_of(b, inner, m),
{
    lemma_mul_inequality(a, b, inner);
    lemma_div_is_ordered(a * inner, b * inner, m);
}

/// When the bar has at least one pixel per domain unit, distinct values get
/// distinct fill widths.
proof fn lemma_pixel_strict_monotonic(a: int, b: int, inner: int, m: int)
    requires
        0 <= a < b,
        0 < m <= inner,
    ensures
        pixel_of(a, inner, m) < pixel_of(b, inner, m),
{
    assert((a + 1) * inner == a * inner + inner) by (nonlinear_arith);
    lemma_mul_inequality(a + 1, b, inner);
    lemma_div_plus_one(a * inner, m);
    lemma_div_is_ordered(a * inner + m, b * inner, m);
}

/// Round trip: on a synced bar whose inner width is at least its maximum,
/// `set_progress(v)` leaves `real_value` at exactly `v` clamped to the
/// maximum, whether or not the pixel cache had to change.
pub proof fn lemma_set_progress_round_trip(s: ProgressBar, v: int)
    requires
        s.wf(),
        s.synced(),
        s.maximum > 0,
        s.inner_width() >= s.maximum,
        0 <= v,
    ensures
        s.set_progress_spec(v).real_value == clamp_to(v, s.maximum as int),
{
    let m = s.maximum as int;
    let inner = s.inner_width();
    let c = clamp_to(v, m);
    let npx = pixel_of(c, inner, m);
    if npx == s.value {
        if c < s.real_value {
            lemma_pixel_strict_monotonic(c, s.real_value as int, inner, m);
        } else if c > s.real_value {
            lemma_pixel_strict_monotonic(s.real_value as int, c, inner, m);
        }
    }
}

} // verus!
