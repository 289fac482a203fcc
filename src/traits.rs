//! Abstractions over number types: the additive and multiplicative identities
//! and the absolute value.
use vstd::prelude::*;

verus! {

/// Defines the absolute value for a type.
pub trait Abs: Sized {
    /// Whether the absolute value of `self` exists in the type.
    spec fn abs_req(&self) -> bool;

    /// The absolute value of `self`.
    spec fn abs_spec(&self) -> Self;

    /// Returns the absolute value of this value.
    fn abs(self) -> (r: Self)
        requires
            self.abs_req(),
        ensures
            r == self.abs_spec(),
    ;
}

/// Defines a multiplicative identity element for a type.
pub trait One: Sized {
    /// The multiplicative identity.
    spec fn one_spec() -> Self;

    /// Returns the multiplicative identity element of this type.
    fn one() -> (r: Self)
        ensures
            r == Self::one_spec(),
    ;
}

/// Defines an additive identity element for a type.
pub trait Zero: Sized {
    /// The additive identity.
    spec fn zero_spec() -> Self;

    /// Returns the additive identity element of this type.
    fn zero() -> (r: Self)
        ensures
            r == Self::zero_spec(),
    ;
}

impl One for bool {
    open spec fn one_spec() -> bool {
        true
    }

    fn one() -> (r: bool) {
        true
    }
}

impl Zero for bool {
    open spec fn zero_spec() -> bool {
        false
    }

    fn zero() -> (r: bool) {
        false
    }
}

impl One for usize {
    open spec fn one_spec() -> usize {
        1
    }

    fn one() -> (r: usize) {
        1
    }
}

impl Zero for usize {
    open spec fn zero_spec() -> usize {
        0
    }

    fn zero() -> (r: usize) {
        0
    }
}

impl One for u8 {
    open spec fn one_spec() -> u8 {
        1
    }

    fn one() -> (r: u8) {
        1
    }
}

impl Zero for u8 {
    open spec fn zero_spec() -> u8 {
        0
    }

    fn zero() -> (r: u8) {
        0
    }
}

impl One for u16 {
    open spec fn one_spec() -> u16 {
        1
    }

    fn one() -> (r: u16) {
        1
    }
}

impl Zero for u16 {
    open spec fn zero_spec() -> u16 {
        0
    }

    fn zero() -> (r: u16) {
        0
    }
}

impl One for u32 {
    open spec fn one_spec() -> u32 {
        1
    }

    fn one() -> (r: u32) {
        1
    }
}

impl Zero for u32 {
    open spec fn zero_spec() -> u32 {
        0
    }

    fn zero() -> (r: u32) {
        0
    }
}

impl One for u64 {
    open spec fn one_spec() -> u64 {
        1
    }

    fn one() -> (r: u64) {
        1
    }
}

impl Zero for u64 {
    open spec fn zero_spec() -> u64 {
        0
    }

    fn zero() -> (r: u64) {
        0
    }
}

impl One for u128 {
    open spec fn one_spec() -> u128 {
        1
    }

    fn one() -> (r: u128) {
        1
    }
}

impl Zero for u128 {
    open spec fn zero_spec() -> u128 {
        0
    }

    fn zero() -> (r: u128) {
        0
    }
}

impl One for isize {
    open spec fn one_spec() -> isize {
        1
    }

    fn one() -> (r: isize) {
        1
    }
}

impl Zero for isize {
    open spec fn zero_spec() -> isize {
        0
    }

    fn zero() -> (r: isize) {
        0
    }
}

impl One for i8 {
    open spec fn one_spec() -> i8 {
        1
    }

    fn one() -> (r: i8) {
        1
    }
}

impl Zero for i8 {
    open spec fn zero_spec() -> i8 {
        0
    }

    fn zero() -> (r: i8) {
        0
    }
}

impl One for i16 {
    open spec fn one_spec() -> i16 {
        1
    }

    fn one() -> (r: i16) {
        1
    }
}

impl Zero for i16 {
    open spec fn zero_spec() -> i16 {
        0
    }

    fn zero() -> (r: i16) {
        0
    }
}

impl One for i32 {
    open spec fn one_spec() -> i32 {
        1
    }

    fn one() -> (r: i32) {
        1
    }
}

impl Zero for i32 {
    open spec fn zero_spec() -> i32 {
        0
    }

    fn zero() -> (r: i32) {
        0
    }
}

impl One for i64 {
    open spec fn one_spec() -> i64 {
        1
    }

    fn one() -> (r: i64) {
        1
    }
}

impl Zero for i64 {
    open spec fn zero_spec() -> i64 {
        0
    }

    fn zero() -> (r: i64) {
        0
    }
}

impl One for i128 {
    open spec fn one_spec() -> i128 {
        1
    }

    fn one() -> (r: i128) {
        1
    }
}

impl Zero for i128 {
    open spec fn zero_spec() -> i128 {
        0
    }

    fn zero() -> (r: i128) {
        0
    }
}

impl Abs for usize {
    open spec fn abs_req(&self) -> bool {
        true
    }

    open spec fn abs_spec(&self) -> usize {
        *self
    }

    fn abs(self) -> (r: usize) {
        self
    }
}

impl Abs for u8 {
    open spec fn abs_req(&self) -> bool {
        true
    }

    open spec fn abs_spec(&self) -> u8 {
        *self
    }

    fn abs(self) -> (r: u8) {
        self
    }
}

impl Abs for u16 {
    open spec fn abs_req(&self) -> bool {
        true
    }

    open spec fn abs_spec(&self) -> u16 {
        *self
    }

    fn abs(self) -> (r: u16) {
        self
    }
}

impl Abs for u32 {
    open spec fn abs_req(&self) -> bool {
        true
    }

    open spec fn abs_spec(&self) -> u32 {
        *self
    }

    fn abs(self) -> (r: u32) {
        self
    }
}

impl Abs for u64 {
    open spec fn abs_req(&self) -> bool {
        true
    }

    open spec fn abs_spec(&self) -> u64 {
        *self
    }

    fn abs(self) -> (r: u64) {
        self
    }
}

impl Abs for u128 {
    open spec fn abs_req(&self) -> bool {
        true
    }

    open spec fn abs_spec(&self) -> u128 {
        *self
    }

    fn abs(self) -> (r: u128) {
        self
    }
}

impl Abs for isize {
    open spec fn abs_req(&self) -> bool {
        *self > isize::MIN
    }

    open spec fn abs_spec(&self) -> isize {
        if *self < 0 {
            (-*self) as isize
        } else {
            *self
        }
    }

    fn abs(self) -> (r: isize) {
        if self < 0 {
            -self
        } else {
            self
        }
    }
}

impl Abs for i8 {
    open spec fn abs_req(&self) -> bool {
        *self > i8::MIN
    }

    open spec fn abs_spec(&self) -> i8 {
        if *self < 0 {
            (-*self) as i8
        } else {
            *self
        }
    }

    fn abs(self) -> (r: i8) {
        if self < 0 {
            -self
        } else {
            self
        }
    }
}

impl Abs for i16 {
    open spec fn abs_req(&self) -> bool {
        *self > i16::MIN
    }

    open spec fn abs_spec(&self) -> i16 {
        if *self < 0 {
            (-*self) as i16
        } else {
            *self
        }
    }

    fn abs(self) -> (r: i16) {
        if self < 0 {
            -self
        } else {
            self
        }
    }
}

impl Abs for i32 {
    open spec fn abs_req(&self) -> bool {
        *self > i32::MIN
    }

    open spec fn abs_spec(&self) -> i32 {
        if *self < 0 {
            (-*self) as i32
        } else {
            *self
        }
    }

    fn abs(self) -> (r: i32) {
        if self < 0 {
            -self
        } else {
            self
        }
    }
}

impl Abs for i64 {
    open spec fn abs_req(&self) -> bool {
        *self > i64::MIN
    }

    open spec fn abs_spec(&self) -> i64 {
        if *self < 0 {
            (-*self) as i64
        } else {
            *self
        }
    }

    fn abs(self) -> (r: i64) {
        if self < 0 {
            -self
        } else {
            self
        }
    }
}

impl Abs for i128 {
    open spec fn abs_req(&self) -> bool {
        *self > i128::MIN
    }

    open spec fn abs_spec(&self) -> i128 {
        if *self < 0 {
            (-*self) as i128
        } else {
            *self
        }
    }

    fn abs(self) -> (r: i128) {
        if self < 0 {
            -self
        } else {
            self
        }
    }
}

} // verus!
