//!
//! Bounded numeric operations.
//!
use vstd::prelude::*;

verus! {

/// `v` clamped into `lo..=hi`.
pub open spec fn clamp_int(v: int, lo: int, hi: int) -> int {
    if v < lo {
        lo
    } else if v > hi {
        hi
    } else {
        v
    }
}

/// Bounded add and subtract.
///
/// The result of the plain operation saturates at the limits of the
/// value type and is then clamped into `bounds.0..=bounds.1`.
pub trait RangeOp where Self: Sized {
    type Step;

    /// The bounds can be used: the lower one is not above the upper one.
    spec fn valid_bounds(bounds: (Self, Self)) -> bool;

    /// Value of `add_clamp`.
    spec fn add_clamp_value(self, delta: Self::Step, bounds: (Self, Self)) -> Self;

    /// Value of `sub_clamp`.
    spec fn sub_clamp_value(self, delta: Self::Step, bounds: (Self, Self)) -> Self;

    /// Addition. Bounded to min/max.
    fn add_clamp(self, delta: Self::Step, bounds: (Self, Self)) -> (r: Self)
        requires
            Self::valid_bounds(bounds),
        ensures
            r == self.add_clamp_value(delta, bounds),
    ;

    /// Subtraction. Bounded to min/max.
    fn sub_clamp(self, delta: Self::Step, bounds: (Self, Self)) -> (r: Self)
        requires
            Self::valid_bounds(bounds),
        ensures
            r == self.sub_clamp_value(delta, bounds),
    ;
}

impl RangeOp for u8 {
    type Step = u8;

    open spec fn valid_bounds(bounds: (u8, u8)) -> bool {
        bounds.0 <= bounds.1
    }

    open spec fn add_clamp_value(self, delta: u8, bounds: (u8, u8)) -> u8 {
        let s = if self + delta > u8::MAX { u8::MAX as int } else { self + delta };
        clamp_int(s, bounds.0 as int, bounds.1 as int) as u8
    }

    open spec fn sub_clamp_value(self, delta: u8, bounds: (u8, u8)) -> u8 {
        let s = if self - delta < 0 { 0 } else { self - delta };
        clamp_int(s, bounds.0 as int, bounds.1 as int) as u8
    }

    fn add_clamp(self, delta: u8, bounds: (u8, u8)) -> (r: u8) {
        let s = self.saturating_add(delta);
        if s < bounds.0 {
            bounds.0
        } else if s > bounds.1 {
            bounds.1
        } else {
            s
        }
    }

    fn sub_clamp(self, delta: u8, bounds: (u8, u8)) -> (r: u8) {
        let s = self.saturating_sub(delta);
        if s < bounds.0 {
            bounds.0
        } else if s > bounds.1 {
            bounds.1
        } else {
            s
        }
    }
}

impl RangeOp for u16 {
    type Step = u16;

    open spec fn valid_bounds(bounds: (u16, u16)) -> bool {
        bounds.0 <= bounds.1
    }

    open spec fn add_clamp_value(self, delta: u16, bounds: (u16, u16)) -> u16 {
        let s = if self + delta > u16::MAX { u16::MAX as int } else { self + delta };
        clamp_int(s, bounds.0 as int, bounds.1 as int) as u16
    }

    open spec fn sub_clamp_value(self, delta: u16, bounds: (u16, u16)) -> u16 {
        let s = if self - delta < 0 { 0 } else { self - delta };
        clamp_int(s, bounds.0 as int, bounds.1 as int) as u16
    }

    fn add_clamp(self, delta: u16, bounds: (u16, u16)) -> (r: u16) {
        let s = self.saturating_add(delta);
        if s < bounds.0 {
            bounds.0
        } else if s > bounds.1 {
            bounds.1
        } else {
            s
        }
    }

    fn sub_clamp(self, delta: u16, bounds: (u16, u16)) -> (r: u16) {
        let s = self.saturating_sub(delta);
        if s < bounds.0 {
            bounds.0
        } else if s > bounds.1 {
            bounds.1
        } else {
            s
        }
    }
}

impl RangeOp for u32 {
    type Step = u32;

    open spec fn valid_bounds(bounds: (u32, u32)) -> bool {
        bounds.0 <= bounds.1
    }

    open spec fn add_clamp_value(self, delta: u32, bounds: (u32, u32)) -> u32 {
        let s = if self + delta > u32::MAX { u32::MAX as int } else { self + delta };
        clamp_int(s, bounds.0 as int, bounds.1 as int) as u32
    }

    open spec fn sub_clamp_value(self, delta: u32, bounds: (u32, u32)) -> u32 {
        let s = if self - delta < 0 { 0 } else { self - delta };
        clamp_int(s, bounds.0 as int, bounds.1 as int) as u32
    }

    fn add_clamp(self, delta: u32, bounds: (u32, u32)) -> (r: u32) {
        let s = self.saturating_add(delta);
        if s < bounds.0 {
            bounds.0
        } else if s > bounds.1 {
            bounds.1
        } else {
            s
        }
    }

    fn sub_clamp(self, delta: u32, bounds: (u32, u32)) -> (r: u32) {
        let s = self.saturating_sub(delta);
        if s < bounds.0 {
            bounds.0
        } else if s > bounds.1 {
            bounds.1
        } else {
            s
        }
    }
}

impl RangeOp for u64 {
    type Step = u64;

    open spec fn valid_bounds(bounds: (u64, u64)) -> bool {
        bounds.0 <= bounds.1
    }

    open spec fn add_clamp_value(self, delta: u64, bounds: (u64, u64)) -> u64 {
        let s = if self + delta > u64::MAX { u64::MAX as int } else { self + delta };
        clamp_int(s, bounds.0 as int, bounds.1 as int) as u64
    }

    open spec fn sub_clamp_value(self, delta: u64, bounds: (u64, u64)) -> u64 {
        let s = if self - delta < 0 { 0 } else { self - delta };
        clamp_int(s, bounds.0 as int, bounds.1 as int) as u64
    }

    fn add_clamp(self, delta: u64, bounds: (u64, u64)) -> (r: u64) {
        let s = self.saturating_add(delta);
        if s < bounds.0 {
            bounds.0
        } else if s > bounds.1 {
            bounds.1
        } else {
            s
        }
    }

    fn sub_clamp(self, delta: u64, bounds: (u64, u64)) -> (r: u64) {
        let s = self.saturating_sub(delta);
        if s < bounds.0 {
            bounds.0
        } else if s > bounds.1 {
            bounds.1
        } else {
            s
        }
    }
}

impl RangeOp for u128 {
    type Step = u128;

    open spec fn valid_bounds(bounds: (u128, u128)) -> bool {
        bounds.0 <= bounds.1
    }

    open spec fn add_clamp_value(self, delta: u128, bounds: (u128, u128)) -> u128 {
        let s = if self + delta > u128::MAX { u128::MAX as int } else { self + delta };
        clamp_int(s, bounds.0 as int, bounds.1 as int) as u128
    }

    open spec fn sub_clamp_value(self, delta: u128, bounds: (u128, u128)) -> u128 {
        let s = if self - delta < 0 { 0 } else { self - delta };
        clamp_int(s, bounds.0 as int, bounds.1 as int) as u128
    }

    fn add_clamp(self, delta: u128, bounds: (u128, u128)) -> (r: u128) {
        let s = self.saturating_add(delta);
        if s < bounds.0 {
            bounds.0
        } else if s > bounds.1 {
            bounds.1
        } else {
            s
        }
    }

    fn sub_clamp(self, delta: u128, bounds: (u128, u128)) -> (r: u128) {
        let s = self.saturating_sub(delta);
        if s < bounds.0 {
            bounds.0
        } else if s > bounds.1 {
            bounds.1
        } else {
            s
        }
    }
}

impl RangeOp for usize {
    type Step = usize;

    open spec fn valid_bounds(bounds: (usize, usize)) -> bool {
        bounds.0 <= bounds.1
    }

    open spec fn add_clamp_value(self, delta: usize, bounds: (usize, usize)) -> usize {
        let s = if self + delta > usize::MAX { usize::MAX as int } else { self + delta };
        clamp_int(s, bounds.0 as int, bounds.1 as int) as usize
    }

    open spec fn sub_clamp_value(self, delta: usize, bounds: (usize, usize)) -> usize {
        let s = if self - delta < 0 { 0 } else { self - delta };
        clamp_int(s, bounds.0 as int, bounds.1 as int) as usize
    }

    fn add_clamp(self, delta: usize, bounds: (usize, usize)) -> (r: usize) {
        let s = self.saturating_add(delta);
        if s < bounds.0 {
            bounds.0
        } else if s > bounds.1 {
            bounds.1
        } else {
            s
        }
    }

    fn sub_clamp(self, delta: usize, bounds: (usize, usize)) -> (r: usize) {
        let s = self.saturating_sub(delta);
        if s < bounds.0 {
            bounds.0
        } else if s > bounds.1 {
            bounds.1
        } else {
            s
        }
    }
}

impl RangeOp for i8 {
    type Step = u8;

    open spec fn valid_bounds(bounds: (i8, i8)) -> bool {
        bounds.0 <= bounds.1
    }

    open spec fn add_clamp_value(self, delta: u8, bounds: (i8, i8)) -> i8 {
        let s = if self + delta > i8::MAX { i8::MAX as int } else { self + delta };
        clamp_int(s, bounds.0 as int, bounds.1 as int) as i8
    }

    open spec fn sub_clamp_value(self, delta: u8, bounds: (i8, i8)) -> i8 {
        let s = if self - delta < i8::MIN { i8::MIN as int } else { self - delta };
        clamp_int(s, bounds.0 as int, bounds.1 as int) as i8
    }

    fn add_clamp(self, delta: u8, bounds: (i8, i8)) -> (r: i8) {
        let half: u8 = i8::MAX as u8;
        let s: i8 = if delta <= half {
            let d = delta as i8;
            if self <= i8::MAX - d {
                self + d
            } else {
                i8::MAX
            }
        } else {
            let d2 = (delta - half - 1) as i8;
            if self < 0 {
                let p = self + d2;
                if p < 0 {
                    p - i8::MIN
                } else {
                    i8::MAX
                }
            } else {
                i8::MAX
            }
        };
        if s < bounds.0 {
            bounds.0
        } else if s > bounds.1 {
            bounds.1
        } else {
            s
        }
    }

    fn sub_clamp(self, delta: u8, bounds: (i8, i8)) -> (r: i8) {
        let half: u8 = i8::MAX as u8;
        let s: i8 = if delta <= half {
            let d = delta as i8;
            if self >= i8::MIN + d {
                self - d
            } else {
                i8::MIN
            }
        } else {
            let d2 = (delta - half - 1) as i8;
            if self >= d2 {
                (self - d2) + i8::MIN
            } else {
                i8::MIN
            }
        };
        if s < bounds.0 {
            bounds.0
        } else if s > bounds.1 {
            bounds.1
        } else {
            s
        }
    }
}

impl RangeOp for i16 {
    type Step = u16;

    open spec fn valid_bounds(bounds: (i16, i16)) -> bool {
        bounds.0 <= bounds.1
    }

    open spec fn add_clamp_value(self, delta: u16, bounds: (i16, i16)) -> i16 {
        let s = if self + delta > i16::MAX { i16::MAX as int } else { self + delta };
        clamp_int(s, bounds.0 as int, bounds.1 as int) as i16
    }

    open spec fn sub_clamp_value(self, delta: u16, bounds: (i16, i16)) -> i16 {
        let s = if self - delta < i16::MIN { i16::MIN as int } else { self - delta };
        clamp_int(s, bounds.0 as int, bounds.1 as int) as i16
    }

    fn add_clamp(self, delta: u16, bounds: (i16, i16)) -> (r: i16) {
        let half: u16 = i16::MAX as u16;
        let s: i16 = if delta <= half {
            let d = delta as i16;
            if self <= i16::MAX - d {
                self + d
            } else {
                i16::MAX
            }
        } else {
            let d2 = (delta - half - 1) as i16;
            if self < 0 {
                let p = self + d2;
                if p < 0 {
                    p - i16::MIN
                } else {
                    i16::MAX
                }
            } else {
                i16::MAX
            }
        };
        if s < bounds.0 {
            bounds.0
        } else if s > bounds.1 {
            bounds.1
        } else {
            s
        }
    }

    fn sub_clamp(self, delta: u16, bounds: (i16, i16)) -> (r: i16) {
        let half: u16 = i16::MAX as u16;
        let s: i16 = if delta <= half {
            let d = delta as i16;
            if self >= i16::MIN + d {
                self - d
            } else {
                i16::MIN
            }
        } else {
            let d2 = (delta - half - 1) as i16;
            if self >= d2 {
                (self - d2) + i16::MIN
            } else {
                i16::MIN
            }
        };
        if s < bounds.0 {
            bounds.0
        } else if s > bounds.1 {
            bounds.1
        } else {
            s
        }
    }
}

impl RangeOp for i32 {
    type Step = u32;

    open spec fn valid_bounds(bounds: (i32, i32)) -> bool {
        bounds.0 <= bounds.1
    }

    open spec fn add_clamp_value(self, delta: u32, bounds: (i32, i32)) -> i32 {
        let s = if self + delta > i32::MAX { i32::MAX as int } else { self + delta };
        clamp_int(s, bounds.0 as int, bounds.1 as int) as i32
    }

    open spec fn sub_clamp_value(self, delta: u32, bounds: (i32, i32)) -> i32 {
        let s = if self - delta < i32::MIN { i32::MIN as int } else { self - delta };
        clamp_int(s, bounds.0 as int, bounds.1 as int) as i32
    }

    fn add_clamp(self, delta: u32, bounds: (i32, i32)) -> (r: i32) {
        let half: u32 = i32::MAX as u32;
        let s: i32 = if delta <= half {
            let d = delta as i32;
            if self <= i32::MAX - d {
                self + d
            } else {
                i32::MAX
            }
        } else {
            let d2 = (delta - half - 1) as i32;
            if self < 0 {
                let p = self + d2;
                if p < 0 {
                    p - i32::MIN
                } else {
                    i32::MAX
                }
            } else {
                i32::MAX
            }
        };
        if s < bounds.0 {
            bounds.0
        } else if s > bounds.1 {
            bounds.1
        } else {
            s
        }
    }

    fn sub_clamp(self, delta: u32, bounds: (i32, i32)) -> (r: i32) {
        let half: u32 = i32::MAX as u32;
        let s: i32 = if delta <= half {
            let d = delta as i32;
            if self >= i32::MIN + d {
                self - d
            } else {
                i32::MIN
            }
        } else {
            let d2 = (delta - half - 1) as i32;
            if self >= d2 {
                (self - d2) + i32::MIN
            } else {
                i32::MIN
            }
        };
        if s < bounds.0 {
            bounds.0
        } else if s > bounds.1 {
            bounds.1
        } else {
            s
        }
    }
}

impl RangeOp for i64 {
    type Step = u64;

    open spec fn valid_bounds(bounds: (i64, i64)) -> bool {
        bounds.0 <= bounds.1
    }

    open spec fn add_clamp_value(self, delta: u64, bounds: (i64, i64)) -> i64 {
        let s = if self + delta > i64::MAX { i64::MAX as int } else { self + delta };
        clamp_int(s, bounds.0 as int, bounds.1 as int) as i64
    }

    open spec fn sub_clamp_value(self, delta: u64, bounds: (i64, i64)) -> i64 {
        let s = if self - delta < i64::MIN { i64::MIN as int } else { self - delta };
        clamp_int(s, bounds.0 as int, bounds.1 as int) as i64
    }

    fn add_clamp(self, delta: u64, bounds: (i64, i64)) -> (r: i64) {
        let half: u64 = i64::MAX as u64;
        let s: i64 = if delta <= half {
            let d = delta as i64;
            if self <= i64::MAX - d {
                self + d
            } else {
                i64::MAX
            }
        } else {
            let d2 = (delta - half - 1) as i64;
            if self < 0 {
                let p = self + d2;
                if p < 0 {
                    p - i64::MIN
                } else {
                    i64::MAX
                }
            } else {
                i64::MAX
            }
        };
        if s < bounds.0 {
            bounds.0
        } else if s > bounds.1 {
            bounds.1
        } else {
            s
        }
    }

    fn sub_clamp(self, delta: u64, bounds: (i64, i64)) -> (r: i64) {
        let half: u64 = i64::MAX as u64;
        let s: i64 = if delta <= half {
            let d = delta as i64;
            if self >= i64::MIN + d {
                self - d
            } else {
                i64::MIN
            }
        } else {
            let d2 = (delta - half - 1) as i64;
            if self >= d2 {
                (self - d2) + i64::MIN
            } else {
                i64::MIN
            }
        };
        if s < bounds.0 {
            bounds.0
        } else if s > bounds.1 {
            bounds.1
        } else {
            s
        }
    }
}

impl RangeOp for i128 {
    type Step = u128;

    open spec fn valid_bounds(bounds: (i128, i128)) -> bool {
        bounds.0 <= bounds.1
    }

    open spec fn add_clamp_value(self, delta: u128, bounds: (i128, i128)) -> i128 {
        let s = if self + delta > i128::MAX { i128::MAX as int } else { self + delta };
        clamp_int(s, bounds.0 as int, bounds.1 as int) as i128
    }

    open spec fn sub_clamp_value(self, delta: u128, bounds: (i128, i128)) -> i128 {
        let s = if self - delta < i128::MIN { i128::MIN as int } else { self - delta };
        clamp_int(s, bounds.0 as int, bounds.1 as int) as i128
    }

    fn add_clamp(self, delta: u128, bounds: (i128, i128)) -> (r: i128) {
        let half: u128 = i128::MAX as u128;
        let s: i128 = if delta <= half {
            let d = delta as i128;
            if self <= i128::MAX - d {
                self + d
            } else {
                i128::MAX
            }
        } else {
            let d2 = (delta - half - 1) as i128;
            if self < 0 {
                let p = self + d2;
                if p < 0 {
                    p - i128::MIN
                } else {
                    i128::MAX
                }
            } else {
                i128::MAX
            }
        };
        if s < bounds.0 {
            bounds.0
        } else if s > bounds.1 {
            bounds.1
        } else {
            s
        }
    }

    fn sub_clamp(self, delta: u128, bounds: (i128, i128)) -> (r: i128) {
        let half: u128 = i128::MAX as u128;
        let s: i128 = if delta <= half {
            let d = delta as i128;
            if self >= i128::MIN + d {
                self - d
            } else {
                i128::MIN
            }
        } else {
            let d2 = (delta - half - 1) as i128;
            if self >= d2 {
                (self - d2) + i128::MIN
            } else {
                i128::MIN
            }
        };
        if s < bounds.0 {
            bounds.0
        } else if s > bounds.1 {
            bounds.1
        } else {
            s
        }
    }
}

impl RangeOp for isize {
    type Step = usize;

    open spec fn valid_bounds(bounds: (isize, isize)) -> bool {
        bounds.0 <= bounds.1
    }

    open spec fn add_clamp_value(self, delta: usize, bounds: (isize, isize)) -> isize {
        let s = if self + delta > isize::MAX { isize::MAX as int } else { self + delta };
        clamp_int(s, bounds.0 as int, bounds.1 as int) as isize
    }

    open spec fn sub_clamp_value(self, delta: usize, bounds: (isize, isize)) -> isize {
        let s = if self - delta < isize::MIN { isize::MIN as int } else { self - delta };
        clamp_int(s, bounds.0 as int, bounds.1 as int) as isize
    }

    fn add_clamp(self, delta: usize, bounds: (isize, isize)) -> (r: isize) {
        let half: usize = isize::MAX as usize;
        let s: isize = if delta <= half {
            let d = delta as isize;
            if self <= isize::MAX - d {
                self + d
            } else {
                isize::MAX
            }
        } else {
            let d2 = (delta - half - 1) as isize;
            if self < 0 {
                let p = self + d2;
                if p < 0 {
                    p - isize::MIN
                } else {
                    isize::MAX
                }
            } else {
                isize::MAX
            }
        };
        if s < bounds.0 {
            bounds.0
        } else if s > bounds.1 {
            bounds.1
        } else {
            s
        }
    }

    fn sub_clamp(self, delta: usize, bounds: (isize, isize)) -> (r: isize) {
        let half: usize = isize::MAX as usize;
        let s: isize = if delta <= half {
            let d = delta as isize;
            if self >= isize::MIN + d {
                self - d
            } else {
                isize::MIN
            }
        } else {
            let d2 = (delta - half - 1) as isize;
            if self >= d2 {
                (self - d2) + isize::MIN
            } else {
                isize::MIN
            }
        };
        if s < bounds.0 {
            bounds.0
        } else if s > bounds.1 {
            bounds.1
        } else {
            s
        }
    }
}

/// Bounded add and subtract on `u8` land within the bounds: a result
/// past a bound is that bound, a result between them is the plain sum or
/// difference, and a larger step never moves the result the other way.
pub proof fn lemma_clamp_ops_u8(x: u8, d1: u8, d2: u8, b: (u8, u8))
    requires
        b.0 <= b.1,
        d1 <= d2,
    ensures
        b.0 <= x.add_clamp_value(d1, b) <= b.1,
        b.0 <= x.sub_clamp_value(d1, b) <= b.1,
        x + d1 >= b.1 ==> x.add_clamp_value(d1, b) == b.1,
        x + d1 <= b.0 ==> x.add_clamp_value(d1, b) == b.0,
        b.0 <= x + d1 <= b.1 ==> x.add_clamp_value(d1, b) == x + d1,
        x - d1 <= b.0 ==> x.sub_clamp_value(d1, b) == b.0,
        x - d1 >= b.1 ==> x.sub_clamp_value(d1, b) == b.1,
        b.0 <= x - d1 <= b.1 ==> x.sub_clamp_value(d1, b) == x - d1,
        x.add_clamp_value(d1, b) <= x.add_clamp_value(d2, b),
        x.sub_clamp_value(d2, b) <= x.sub_clamp_value(d1, b),
{
}

/// Bounded add and subtract on `u16` land within the bounds: a result
/// past a bound is that bound, a result between them is the plain sum or
/// difference, and a larger step never moves the result the other way.
pub proof fn lemma_clamp_ops_u16(x: u16, d1: u16, d2: u16, b: (u16, u16))
    requires
        b.0 <= b.1,
        d1 <= d2,
    ensures
        b.0 <= x.add_clamp_value(d1, b) <= b.1,
        b.0 <= x.sub_clamp_value(d1, b) <= b.1,
        x + d1 >= b.1 ==> x.add_clamp_value(d1, b) == b.1,
        x + d1 <= b.0 ==> x.add_clamp_value(d1, b) == b.0,
        b.0 <= x + d1 <= b.1 ==> x.add_clamp_value(d1, b) == x + d1,
        x - d1 <= b.0 ==> x.sub_clamp_value(d1, b) == b.0,
        x - d1 >= b.1 ==> x.sub_clamp_value(d1, b) == b.1,
        b.0 <= x - d1 <= b.1 ==> x.sub_clamp_value(d1, b) == x - d1,
        x.add_clamp_value(d1, b) <= x.add_clamp_value(d2, b),
        x.sub_clamp_value(d2, b) <= x.sub_clamp_value(d1, b),
{
}

/// Bounded add and subtract on `u32` land within the bounds: a result
/// past a bound is that bound, a result between them is the plain sum or
/// difference, and a larger step never moves the result the other way.
pub proof fn lemma_clamp_ops_u32(x: u32, d1: u32, d2: u32, b: (u32, u32))
    requires
        b.0 <= b.1,
        d1 <= d2,
    ensures
        b.0 <= x.add_clamp_value(d1, b) <= b.1,
        b.0 <= x.sub_clamp_value(d1, b) <= b.1,
        x + d1 >= b.1 ==> x.add_clamp_value(d1, b) == b.1,
        x + d1 <= b.0 ==> x.add_clamp_value(d1, b) == b.0,
        b.0 <= x + d1 <= b.1 ==> x.add_clamp_value(d1, b) == x + d1,
        x - d1 <= b.0 ==> x.sub_clamp_value(d1, b) == b.0,
        x - d1 >= b.1 ==> x.sub_clamp_value(d1, b) == b.1,
        b.0 <= x - d1 <= b.1 ==> x.sub_clamp_value(d1, b) == x - d1,
        x.add_clamp_value(d1, b) <= x.add_clamp_value(d2, b),
        x.sub_clamp_value(d2, b) <= x.sub_clamp_value(d1, b),
{
}

/// Bounded add and subtract on `u64` land within the bounds: a result
/// past a bound is that bound, a result between them is the plain sum or
/// difference, and a larger step never moves the result the other way.
pub proof fn lemma_clamp_ops_u64(x: u64, d1: u64, d2: u64, b: (u64, u64))
    requires
        b.0 <= b.1,
        d1 <= d2,
    ensures
        b.0 <= x.add_clamp_value(d1, b) <= b.1,
        b.0 <= x.sub_clamp_value(d1, b) <= b.1,
        x + d1 >= b.1 ==> x.add_clamp_value(d1, b) == b.1,
        x + d1 <= b.0 ==> x.add_clamp_value(d1, b) == b.0,
        b.0 <= x + d1 <= b.1 ==> x.add_clamp_value(d1, b) == x + d1,
        x - d1 <= b.0 ==> x.sub_clamp_value(d1, b) == b.0,
        x - d1 >= b.1 ==> x.sub_clamp_value(d1, b) == b.1,
        b.0 <= x - d1 <= b.1 ==> x.sub_clamp_value(d1, b) == x - d1,
        x.add_clamp_value(d1, b) <= x.add_clamp_value(d2, b),
        x.sub_clamp_value(d2, b) <= x.sub_clamp_value(d1, b),
{
}

/// Bounded add and subtract on `u128` land within the bounds: a result
/// past a bound is that bound, a result between them is the plain sum or
/// difference, and a larger step never moves the result the other way.
pub proof fn lemma_clamp_ops_u128(x: u128, d1: u128, d2: u128, b: (u128, u128))
    requires
        b.0 <= b.1,
        d1 <= d2,
    ensures
        b.0 <= x.add_clamp_value(d1, b) <= b.1,
        b.0 <= x.sub_clamp_value(d1, b) <= b.1,
        x + d1 >= b.1 ==> x.add_clamp_value(d1, b) == b.1,
        x + d1 <= b.0 ==> x.add_clamp_value(d1, b) == b.0,
        b.0 <= x + d1 <= b.1 ==> x.add_clamp_value(d1, b) == x + d1,
        x - d1 <= b.0 ==> x.sub_clamp_value(d1, b) == b.0,
        x - d1 >= b.1 ==> x.sub_clamp_value(d1, b) == b.1,
        b.0 <= x - d1 <= b.1 ==> x.sub_clamp_value(d1, b) == x - d1,
        x.add_clamp_value(d1, b) <= x.add_clamp_value(d2, b),
        x.sub_clamp_value(d2, b) <= x.sub_clamp_value(d1, b),
{
}

/// Bounded add and subtract on `usize` land within the bounds: a result
/// past a bound is that bound, a result between them is the plain sum or
/// difference, and a larger step never moves the result the other way.
pub proof fn lemma_clamp_ops_usize(x: usize, d1: usize, d2: usize, b: (usize, usize))
    requires
        b.0 <= b.1,
        d1 <= d2,
    ensures
        b.0 <= x.add_clamp_value(d1, b) <= b.1,
        b.0 <= x.sub_clamp_value(d1, b) <= b.1,
        x + d1 >= b.1 ==> x.add_clamp_value(d1, b) == b.1,
        x + d1 <= b.0 ==> x.add_clamp_value(d1, b) == b.0,
        b.0 <= x + d1 <= b.1 ==> x.add_clamp_value(d1, b) == x + d1,
        x - d1 <= b.0 ==> x.sub_clamp_value(d1, b) == b.0,
        x - d1 >= b.1 ==> x.sub_clamp_value(d1, b) == b.1,
        b.0 <= x - d1 <= b.1 ==> x.sub_clamp_value(d1, b) == x - d1,
        x.add_clamp_value(d1, b) <= x.add_clamp_value(d2, b),
        x.sub_clamp_value(d2, b) <= x.sub_clamp_value(d1, b),
{
}

/// Bounded add and subtract on `i8` land within the bounds: a result
/// past a bound is that bound, a result between them is the plain sum or
/// difference, and a larger step never moves the result the other way.
pub proof fn lemma_clamp_ops_i8(x: i8, d1: u8, d2: u8, b: (i8, i8))
    requires
        b.0 <= b.1,
        d1 <= d2,
    ensures
        b.0 <= x.add_clamp_value(d1, b) <= b.1,
        b.0 <= x.sub_clamp_value(d1, b) <= b.1,
        x + d1 >= b.1 ==> x.add_clamp_value(d1, b) == b.1,
        x + d1 <= b.0 ==> x.add_clamp_value(d1, b) == b.0,
        b.0 <= x + d1 <= b.1 ==> x.add_clamp_value(d1, b) == x + d1,
        x - d1 <= b.0 ==> x.sub_clamp_value(d1, b) == b.0,
        x - d1 >= b.1 ==> x.sub_clamp_value(d1, b) == b.1,
        b.0 <= x - d1 <= b.1 ==> x.sub_clamp_value(d1, b) == x - d1,
        x.add_clamp_value(d1, b) <= x.add_clamp_value(d2, b),
        x.sub_clamp_value(d2, b) <= x.sub_clamp_value(d1, b),
{
}

/// Bounded add and subtract on `i16` land within the bounds: a result
/// past a bound is that bound, a result between them is the plain sum or
/// difference, and a larger step never moves the result the other way.
pub proof fn lemma_clamp_ops_i16(x: i16, d1: u16, d2: u16, b: (i16, i16))
    requires
        b.0 <= b.1,
        d1 <= d2,
    ensures
        b.0 <= x.add_clamp_value(d1, b) <= b.1,
        b.0 <= x.sub_clamp_value(d1, b) <= b.1,
        x + d1 >= b.1 ==> x.add_clamp_value(d1, b) == b.1,
        x + d1 <= b.0 ==> x.add_clamp_value(d1, b) == b.0,
        b.0 <= x + d1 <= b.1 ==> x.add_clamp_value(d1, b) == x + d1,
        x - d1 <= b.0 ==> x.sub_clamp_value(d1, b) == b.0,
        x - d1 >= b.1 ==> x.sub_clamp_value(d1, b) == b.1,
        b.0 <= x - d1 <= b.1 ==> x.sub_clamp_value(d1, b) == x - d1,
        x.add_clamp_value(d1, b) <= x.add_clamp_value(d2, b),
        x.sub_clamp_value(d2, b) <= x.sub_clamp_value(d1, b),
{
}

/// Bounded add and subtract on `i32` land within the bounds: a result
/// past a bound is that bound, a result between them is the plain sum or
/// difference, and a larger step never moves the result the other way.
pub proof fn lemma_clamp_ops_i32(x: i32, d1: u32, d2: u32, b: (i32, i32))
    requires
        b.0 <= b.1,
        d1 <= d2,
    ensures
        b.0 <= x.add_clamp_value(d1, b) <= b.1,
        b.0 <= x.sub_clamp_value(d1, b) <= b.1,
        x + d1 >= b.1 ==> x.add_clamp_value(d1, b) == b.1,
        x + d1 <= b.0 ==> x.add_clamp_value(d1, b) == b.0,
        b.0 <= x + d1 <= b.1 ==> x.add_clamp_value(d1, b) == x + d1,
        x - d1 <= b.0 ==> x.sub_clamp_value(d1, b) == b.0,
        x - d1 >= b.1 ==> x.sub_clamp_value(d1, b) == b.1,
        b.0 <= x - d1 <= b.1 ==> x.sub_clamp_value(d1, b) == x - d1,
        x.add_clamp_value(d1, b) <= x.add_clamp_value(d2, b),
        x.sub_clamp_value(d2, b) <= x.sub_clamp_value(d1, b),
{
}

/// Bounded add and subtract on `i64` land within the bounds: a result
/// past a bound is that bound, a result between them is the plain sum or
/// difference, and a larger step never moves the result the other way.
pub proof fn lemma_clamp_ops_i64(x: i64, d1: u64, d2: u64, b: (i64, i64))
    requires
        b.0 <= b.1,
        d1 <= d2,
    ensures
        b.0 <= x.add_clamp_value(d1, b) <= b.1,
        b.0 <= x.sub_clamp_value(d1, b) <= b.1,
        x + d1 >= b.1 ==> x.add_clamp_value(d1, b) == b.1,
        x + d1 <= b.0 ==> x.add_clamp_value(d1, b) == b.0,
        b.0 <= x + d1 <= b.1 ==> x.add_clamp_value(d1, b) == x + d1,
        x - d1 <= b.0 ==> x.sub_clamp_value(d1, b) == b.0,
        x - d1 >= b.1 ==> x.sub_clamp_value(d1, b) == b.1,
        b.0 <= x - d1 <= b.1 ==> x.sub_clamp_value(d1, b) == x - d1,
        x.add_clamp_value(d1, b) <= x.add_clamp_value(d2, b),
        x.sub_clamp_value(d2, b) <= x.sub_clamp_value(d1, b),
{
}

/// Bounded add and subtract on `i128` land within the bounds: a result
/// past a bound is that bound, a result between them is the plain sum or
/// difference, and a larger step never moves the result the other way.
pub proof fn lemma_clamp_ops_i128(x: i128, d1: u128, d2: u128, b: (i128, i128))
    requires
        b.0 <= b.1,
        d1 <= d2,
    ensures
        b.0 <= x.add_clamp_value(d1, b) <= b.1,
        b.0 <= x.sub_clamp_value(d1, b) <= b.1,
        x + d1 >= b.1 ==> x.add_clamp_value(d1, b) == b.1,
        x + d1 <= b.0 ==> x.add_clamp_value(d1, b) == b.0,
        b.0 <= x + d1 <= b.1 ==> x.add_clamp_value(d1, b) == x + d1,
        x - d1 <= b.0 ==> x.sub_clamp_value(d1, b) == b.0,
        x - d1 >= b.1 ==> x.sub_clamp_value(d1, b) == b.1,
        b.0 <= x - d1 <= b.1 ==> x.sub_clamp_value(d1, b) == x - d1,
        x.add_clamp_value(d1, b) <= x.add_clamp_value(d2, b),
        x.sub_clamp_value(d2, b) <= x.sub_clamp_value(d1, b),
{
}

/// Bounded add and subtract on `isize` land within the bounds: a result
/// past a bound is that bound, a result between them is the plain sum or
/// difference, and a larger step never moves the result the other way.
pub proof fn lemma_clamp_ops_isize(x: isize, d1: usize, d2: usize, b: (isize, isize))
    requires
        b.0 <= b.1,
        d1 <= d2,
    ensures
        b.0 <= x.add_clamp_value(d1, b) <= b.1,
        b.0 <= x.sub_clamp_value(d1, b) <= b.1,
        x + d1 >= b.1 ==> x.add_clamp_value(d1, b) == b.1,
        x + d1 <= b.0 ==> x.add_clamp_value(d1, b) == b.0,
        b.0 <= x + d1 <= b.1 ==> x.add_clamp_value(d1, b) == x + d1,
        x - d1 <= b.0 ==> x.sub_clamp_value(d1, b) == b.0,
        x - d1 >= b.1 ==> x.sub_clamp_value(d1, b) == b.1,
        b.0 <= x - d1 <= b.1 ==> x.sub_clamp_value(d1, b) == x - d1,
        x.add_clamp_value(d1, b) <= x.add_clamp_value(d2, b),
        x.sub_clamp_value(d2, b) <= x.sub_clamp_value(d1, b),
{
}

} // verus!
