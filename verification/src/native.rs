//! The numeric types a column can hold, as far as the rolling kernels need
//! them: addition, subtraction, a zero, and whether a value is finite.

use crate::modular::{lemma_reduce_unique, reduce};
use vstd::prelude::*;
use vstd::wrapping::{
    i128_specs, i16_specs, i32_specs, i64_specs, i8_specs, u128_specs, u16_specs, u32_specs,
    u64_specs, u8_specs,
};

verus! {

/// A fixed-width numeric type.
///
/// Each operation comes with the function it computes, so that what a kernel
/// leaves behind can be stated for every type. For an integer type these are
/// the wrapping operations; for a floating-point type they are the rounded
/// ones, which is why a kernel's result is stated as the very sequence of
/// operations it performs.
pub trait NativeType: Copy {
    /// Whether the type is a floating-point type.
    spec fn is_float_spec() -> bool;

    /// Whether the value is neither infinite nor NaN.
    spec fn is_finite_spec(self) -> bool;

    /// The additive identity.
    spec fn zeroed_spec() -> Self;

    /// What `plus` computes.
    spec fn add_spec(self, rhs: Self) -> Self;

    /// What `minus` computes.
    spec fn sub_spec(self, rhs: Self) -> Self;

    /// Whether the type is a floating-point type.
    fn is_float() -> (b: bool)
        ensures
            b == Self::is_float_spec(),
    ;

    /// Whether the value is neither infinite nor NaN.
    fn is_finite(&self) -> (b: bool)
        ensures
            b == self.is_finite_spec(),
    ;

    /// The additive identity.
    fn zeroed() -> (z: Self)
        ensures
            z == Self::zeroed_spec(),
    ;

    /// The sum of two values, in the type's own arithmetic.
    fn plus(self, rhs: Self) -> (r: Self)
        ensures
            r == self.add_spec(rhs),
    ;

    /// The difference of two values, in the type's own arithmetic.
    fn minus(self, rhs: Self) -> (r: Self)
        ensures
            r == self.sub_spec(rhs),
    ;
}

/// A numeric type whose values are the integers of a range and whose
/// arithmetic is that of the integers, reduced into the range.
pub trait NativeInteger: NativeType {
    /// The integer a value stands for.
    spec fn as_int(self) -> int;

    /// The least integer of the type.
    spec fn min_int() -> int;

    /// How many integers the type holds.
    spec fn modulus() -> int;

    /// The type is no floating-point type, distinct values stand for distinct
    /// integers of `[min_int, min_int + modulus)`, zero stands for zero, and
    /// sums and differences are those of the integers, reduced.
    proof fn lemma_integer(a: Self, b: Self)
        ensures
            !Self::is_float_spec(),
            0 < Self::modulus(),
            Self::min_int() <= a.as_int() < Self::min_int() + Self::modulus(),
            a.as_int() == b.as_int() ==> a == b,
            Self::zeroed_spec().as_int() == 0,
            a.add_spec(b).as_int() == reduce(
                a.as_int() + b.as_int(),
                Self::min_int(),
                Self::modulus(),
            ),
            a.sub_spec(b).as_int() == reduce(
                a.as_int() - b.as_int(),
                Self::min_int(),
                Self::modulus(),
            ),
    ;
}

impl NativeType for i8 {
    open spec fn is_float_spec() -> bool {
        false
    }

    open spec fn is_finite_spec(self) -> bool {
        true
    }

    open spec fn zeroed_spec() -> Self {
        0
    }

    open spec fn add_spec(self, rhs: Self) -> Self {
        i8_specs::wrapping_add(self, rhs)
    }

    open spec fn sub_spec(self, rhs: Self) -> Self {
        i8_specs::wrapping_sub(self, rhs)
    }

    fn is_float() -> (b: bool) {
        false
    }

    fn is_finite(&self) -> (b: bool) {
        true
    }

    fn zeroed() -> (z: Self) {
        0
    }

    fn plus(self, rhs: Self) -> (r: Self) {
        self.wrapping_add(rhs)
    }

    fn minus(self, rhs: Self) -> (r: Self) {
        self.wrapping_sub(rhs)
    }
}

impl NativeInteger for i8 {
    open spec fn as_int(self) -> int {
        self as int
    }

    open spec fn min_int() -> int {
        i8::MIN as int
    }

    open spec fn modulus() -> int {
        0x100
    }

    proof fn lemma_integer(a: Self, b: Self) {
        let sum = i8_specs::wrapping_add(a, b);
        let up: int = if a + b > i8::MAX {
            1
        } else if a + b < i8::MIN {
            -1
        } else {
            0
        };
        assert(a + b == sum + up * 0x100);
        lemma_reduce_unique(a + b, sum as int, up, i8::MIN as int, 0x100);
        let difference = i8_specs::wrapping_sub(a, b);
        let down: int = if a - b > i8::MAX {
            1
        } else if a - b < i8::MIN {
            -1
        } else {
            0
        };
        assert(a - b == difference + down * 0x100);
        lemma_reduce_unique(a - b, difference as int, down, i8::MIN as int, 0x100);
    }
}

impl NativeType for i16 {
    open spec fn is_float_spec() -> bool {
        false
    }

    open spec fn is_finite_spec(self) -> bool {
        true
    }

    open spec fn zeroed_spec() -> Self {
        0
    }

    open spec fn add_spec(self, rhs: Self) -> Self {
        i16_specs::wrapping_add(self, rhs)
    }

    open spec fn sub_spec(self, rhs: Self) -> Self {
        i16_specs::wrapping_sub(self, rhs)
    }

    fn is_float() -> (b: bool) {
        false
    }

    fn is_finite(&self) -> (b: bool) {
        true
    }

    fn zeroed() -> (z: Self) {
        0
    }

    fn plus(self, rhs: Self) -> (r: Self) {
        self.wrapping_add(rhs)
    }

    fn minus(self, rhs: Self) -> (r: Self) {
        self.wrapping_sub(rhs)
    }
}

impl NativeInteger for i16 {
    open spec fn as_int(self) -> int {
        self as int
    }

    open spec fn min_int() -> int {
        i16::MIN as int
    }

    open spec fn modulus() -> int {
        0x1_0000
    }

    proof fn lemma_integer(a: Self, b: Self) {
        let sum = i16_specs::wrapping_add(a, b);
        let up: int = if a + b > i16::MAX {
            1
        } else if a + b < i16::MIN {
            -1
        } else {
            0
        };
        assert(a + b == sum + up * 0x1_0000);
        lemma_reduce_unique(a + b, sum as int, up, i16::MIN as int, 0x1_0000);
        let difference = i16_specs::wrapping_sub(a, b);
        let down: int = if a - b > i16::MAX {
            1
        } else if a - b < i16::MIN {
            -1
        } else {
            0
        };
        assert(a - b == difference + down * 0x1_0000);
        lemma_reduce_unique(a - b, difference as int, down, i16::MIN as int, 0x1_0000);
    }
}

impl NativeType for i32 {
    open spec fn is_float_spec() -> bool {
        false
    }

    open spec fn is_finite_spec(self) -> bool {
        true
    }

    open spec fn zeroed_spec() -> Self {
        0
    }

    open spec fn add_spec(self, rhs: Self) -> Self {
        i32_specs::wrapping_add(self, rhs)
    }

    open spec fn sub_spec(self, rhs: Self) -> Self {
        i32_specs::wrapping_sub(self, rhs)
    }

    fn is_float() -> (b: bool) {
        false
    }

    fn is_finite(&self) -> (b: bool) {
        true
    }

    fn zeroed() -> (z: Self) {
        0
    }

    fn plus(self, rhs: Self) -> (r: Self) {
        self.wrapping_add(rhs)
    }

    fn minus(self, rhs: Self) -> (r: Self) {
        self.wrapping_sub(rhs)
    }
}

impl NativeInteger for i32 {
    open spec fn as_int(self) -> int {
        self as int
    }

    open spec fn min_int() -> int {
        i32::MIN as int
    }

    open spec fn modulus() -> int {
        0x1_0000_0000
    }

    proof fn lemma_integer(a: Self, b: Self) {
        let sum = i32_specs::wrapping_add(a, b);
        let up: int = if a + b > i32::MAX {
            1
        } else if a + b < i32::MIN {
            -1
        } else {
            0
        };
        assert(a + b == sum + up * 0x1_0000_0000);
        lemma_reduce_unique(a + b, sum as int, up, i32::MIN as int, 0x1_0000_0000);
        let difference = i32_specs::wrapping_sub(a, b);
        let down: int = if a - b > i32::MAX {
            1
        } else if a - b < i32::MIN {
            -1
        } else {
            0
        };
        assert(a - b == difference + down * 0x1_0000_0000);
        lemma_reduce_unique(a - b, difference as int, down, i32::MIN as int, 0x1_0000_0000);
    }
}

impl NativeType for i64 {
    open spec fn is_float_spec() -> bool {
        false
    }

    open spec fn is_finite_spec(self) -> bool {
        true
    }

    open spec fn zeroed_spec() -> Self {
        0
    }

    open spec fn add_spec(self, rhs: Self) -> Self {
        i64_specs::wrapping_add(self, rhs)
    }

    open spec fn sub_spec(self, rhs: Self) -> Self {
        i64_specs::wrapping_sub(self, rhs)
    }

    fn is_float() -> (b: bool) {
        false
    }

    fn is_finite(&self) -> (b: bool) {
        true
    }

    fn zeroed() -> (z: Self) {
        0
    }

    fn plus(self, rhs: Self) -> (r: Self) {
        self.wrapping_add(rhs)
    }

    fn minus(self, rhs: Self) -> (r: Self) {
        self.wrapping_sub(rhs)
    }
}

impl NativeInteger for i64 {
    open spec fn as_int(self) -> int {
        self as int
    }

    open spec fn min_int() -> int {
        i64::MIN as int
    }

    open spec fn modulus() -> int {
        0x1_0000_0000_0000_0000
    }

    proof fn lemma_integer(a: Self, b: Self) {
        let sum = i64_specs::wrapping_add(a, b);
        let up: int = if a + b > i64::MAX {
            1
        } else if a + b < i64::MIN {
            -1
        } else {
            0
        };
        assert(a + b == sum + up * 0x1_0000_0000_0000_0000);
        lemma_reduce_unique(a + b, sum as int, up, i64::MIN as int, 0x1_0000_0000_0000_0000);
        let difference = i64_specs::wrapping_sub(a, b);
        let down: int = if a - b > i64::MAX {
            1
        } else if a - b < i64::MIN {
            -1
        } else {
            0
        };
        assert(a - b == difference + down * 0x1_0000_0000_0000_0000);
        lemma_reduce_unique(
            a - b,
            difference as int,
            down,
            i64::MIN as int,
            0x1_0000_0000_0000_0000,
        );
    }
}

impl NativeType for i128 {
    open spec fn is_float_spec() -> bool {
        false
    }

    open spec fn is_finite_spec(self) -> bool {
        true
    }

    open spec fn zeroed_spec() -> Self {
        0
    }

    open spec fn add_spec(self, rhs: Self) -> Self {
        i128_specs::wrapping_add(self, rhs)
    }

    open spec fn sub_spec(self, rhs: Self) -> Self {
        i128_specs::wrapping_sub(self, rhs)
    }

    fn is_float() -> (b: bool) {
        false
    }

    fn is_finite(&self) -> (b: bool) {
        true
    }

    fn zeroed() -> (z: Self) {
        0
    }

    fn plus(self, rhs: Self) -> (r: Self) {
        self.wrapping_add(rhs)
    }

    fn minus(self, rhs: Self) -> (r: Self) {
        self.wrapping_sub(rhs)
    }
}

impl NativeInteger for i128 {
    open spec fn as_int(self) -> int {
        self as int
    }

    open spec fn min_int() -> int {
        i128::MIN as int
    }

    open spec fn modulus() -> int {
        0x1_0000_0000_0000_0000_0000_0000_0000_0000int
    }

    proof fn lemma_integer(a: Self, b: Self) {
        let sum = i128_specs::wrapping_add(a, b);
        let up: int = if a + b > i128::MAX {
            1
        } else if a + b < i128::MIN {
            -1
        } else {
            0
        };
        assert(a + b == sum + up * 0x1_0000_0000_0000_0000_0000_0000_0000_0000int);
        lemma_reduce_unique(
            a + b,
            sum as int,
            up,
            i128::MIN as int,
            0x1_0000_0000_0000_0000_0000_0000_0000_0000int,
        );
        let difference = i128_specs::wrapping_sub(a, b);
        let down: int = if a - b > i128::MAX {
            1
        } else if a - b < i128::MIN {
            -1
        } else {
            0
        };
        assert(a - b == difference + down * 0x1_0000_0000_0000_0000_0000_0000_0000_0000int);
        lemma_reduce_unique(
            a - b,
            difference as int,
            down,
            i128::MIN as int,
            0x1_0000_0000_0000_0000_0000_0000_0000_0000int,
        );
    }
}

impl NativeType for u8 {
    open spec fn is_float_spec() -> bool {
        false
    }

    open spec fn is_finite_spec(self) -> bool {
        true
    }

    open spec fn zeroed_spec() -> Self {
        0
    }

    open spec fn add_spec(self, rhs: Self) -> Self {
        u8_specs::wrapping_add(self, rhs)
    }

    open spec fn sub_spec(self, rhs: Self) -> Self {
        u8_specs::wrapping_sub(self, rhs)
    }

    fn is_float() -> (b: bool) {
        false
    }

    fn is_finite(&self) -> (b: bool) {
        true
    }

    fn zeroed() -> (z: Self) {
        0
    }

    fn plus(self, rhs: Self) -> (r: Self) {
        self.wrapping_add(rhs)
    }

    fn minus(self, rhs: Self) -> (r: Self) {
        self.wrapping_sub(rhs)
    }
}

impl NativeInteger for u8 {
    open spec fn as_int(self) -> int {
        self as int
    }

    open spec fn min_int() -> int {
        u8::MIN as int
    }

    open spec fn modulus() -> int {
        0x100
    }

    proof fn lemma_integer(a: Self, b: Self) {
        let sum = u8_specs::wrapping_add(a, b);
        let up: int = if a + b > u8::MAX {
            1
        } else {
            0
        };
        assert(a + b == sum + up * 0x100);
        lemma_reduce_unique(a + b, sum as int, up, 0, 0x100);
        let difference = u8_specs::wrapping_sub(a, b);
        let down: int = if a - b < 0 {
            -1
        } else {
            0
        };
        assert(a - b == difference + down * 0x100);
        lemma_reduce_unique(a - b, difference as int, down, 0, 0x100);
    }
}

impl NativeType for u16 {
    open spec fn is_float_spec() -> bool {
        false
    }

    open spec fn is_finite_spec(self) -> bool {
        true
    }

    open spec fn zeroed_spec() -> Self {
        0
    }

    open spec fn add_spec(self, rhs: Self) -> Self {
        u16_specs::wrapping_add(self, rhs)
    }

    open spec fn sub_spec(self, rhs: Self) -> Self {
        u16_specs::wrapping_sub(self, rhs)
    }

    fn is_float() -> (b: bool) {
        false
    }

    fn is_finite(&self) -> (b: bool) {
        true
    }

    fn zeroed() -> (z: Self) {
        0
    }

    fn plus(self, rhs: Self) -> (r: Self) {
        self.wrapping_add(rhs)
    }

    fn minus(self, rhs: Self) -> (r: Self) {
        self.wrapping_sub(rhs)
    }
}

impl NativeInteger for u16 {
    open spec fn as_int(self) -> int {
        self as int
    }

    open spec fn min_int() -> int {
        u16::MIN as int
    }

    open spec fn modulus() -> int {
        0x1_0000
    }

    proof fn lemma_integer(a: Self, b: Self) {
        let sum = u16_specs::wrapping_add(a, b);
        let up: int = if a + b > u16::MAX {
            1
        } else {
            0
        };
        assert(a + b == sum + up * 0x1_0000);
        lemma_reduce_unique(a + b, sum as int, up, 0, 0x1_0000);
        let difference = u16_specs::wrapping_sub(a, b);
        let down: int = if a - b < 0 {
            -1
        } else {
            0
        };
        assert(a - b == difference + down * 0x1_0000);
        lemma_reduce_unique(a - b, difference as int, down, 0, 0x1_0000);
    }
}

impl NativeType for u32 {
    open spec fn is_float_spec() -> bool {
        false
    }

    open spec fn is_finite_spec(self) -> bool {
        true
    }

    open spec fn zeroed_spec() -> Self {
        0
    }

    open spec fn add_spec(self, rhs: Self) -> Self {
        u32_specs::wrapping_add(self, rhs)
    }

    open spec fn sub_spec(self, rhs: Self) -> Self {
        u32_specs::wrapping_sub(self, rhs)
    }

    fn is_float() -> (b: bool) {
        false
    }

    fn is_finite(&self) -> (b: bool) {
        true
    }

    fn zeroed() -> (z: Self) {
        0
    }

    fn plus(self, rhs: Self) -> (r: Self) {
        self.wrapping_add(rhs)
    }

    fn minus(self, rhs: Self) -> (r: Self) {
        self.wrapping_sub(rhs)
    }
}

impl NativeInteger for u32 {
    open spec fn as_int(self) -> int {
        self as int
    }

    open spec fn min_int() -> int {
        u32::MIN as int
    }

    open spec fn modulus() -> int {
        0x1_0000_0000
    }

    proof fn lemma_integer(a: Self, b: Self) {
        let sum = u32_specs::wrapping_add(a, b);
        let up: int = if a + b > u32::MAX {
            1
        } else {
            0
        };
        assert(a + b == sum + up * 0x1_0000_0000);
        lemma_reduce_unique(a + b, sum as int, up, 0, 0x1_0000_0000);
        let difference = u32_specs::wrapping_sub(a, b);
        let down: int = if a - b < 0 {
            -1
        } else {
            0
        };
        assert(a - b == difference + down * 0x1_0000_0000);
        lemma_reduce_unique(a - b, difference as int, down, 0, 0x1_0000_0000);
    }
}

impl NativeType for u64 {
    open spec fn is_float_spec() -> bool {
        false
    }

    open spec fn is_finite_spec(self) -> bool {
        true
    }

    open spec fn zeroed_spec() -> Self {
        0
    }

    open spec fn add_spec(self, rhs: Self) -> Self {
        u64_specs::wrapping_add(self, rhs)
    }

    open spec fn sub_spec(self, rhs: Self) -> Self {
        u64_specs::wrapping_sub(self, rhs)
    }

    fn is_float() -> (b: bool) {
        false
    }

    fn is_finite(&self) -> (b: bool) {
        true
    }

    fn zeroed() -> (z: Self) {
        0
    }

    fn plus(self, rhs: Self) -> (r: Self) {
        self.wrapping_add(rhs)
    }

    fn minus(self, rhs: Self) -> (r: Self) {
        self.wrapping_sub(rhs)
    }
}

impl NativeInteger for u64 {
    open spec fn as_int(self) -> int {
        self as int
    }

    open spec fn min_int() -> int {
        u64::MIN as int
    }

    open spec fn modulus() -> int {
        0x1_0000_0000_0000_0000
    }

    proof fn lemma_integer(a: Self, b: Self) {
        let sum = u64_specs::wrapping_add(a, b);
        let up: int = if a + b > u64::MAX {
            1
        } else {
            0
        };
        assert(a + b == sum + up * 0x1_0000_0000_0000_0000);
        lemma_reduce_unique(a + b, sum as int, up, 0, 0x1_0000_0000_0000_0000);
        let difference = u64_specs::wrapping_sub(a, b);
        let down: int = if a - b < 0 {
            -1
        } else {
            0
        };
        assert(a - b == difference + down * 0x1_0000_0000_0000_0000);
        lemma_reduce_unique(a - b, difference as int, down, 0, 0x1_0000_0000_0000_0000);
    }
}

impl NativeType for u128 {
    open spec fn is_float_spec() -> bool {
        false
    }

    open spec fn is_finite_spec(self) -> bool {
        true
    }

    open spec fn zeroed_spec() -> Self {
        0
    }

    open spec fn add_spec(self, rhs: Self) -> Self {
        u128_specs::wrapping_add(self, rhs)
    }

    open spec fn sub_spec(self, rhs: Self) -> Self {
        u128_specs::wrapping_sub(self, rhs)
    }

    fn is_float() -> (b: bool) {
        false
    }

    fn is_finite(&self) -> (b: bool) {
        true
    }

    fn zeroed() -> (z: Self) {
        0
    }

    fn plus(self, rhs: Self) -> (r: Self) {
        self.wrapping_add(rhs)
    }

    fn minus(self, rhs: Self) -> (r: Self) {
        self.wrapping_sub(rhs)
    }
}

impl NativeInteger for u128 {
    open spec fn as_int(self) -> int {
        self as int
    }

    open spec fn min_int() -> int {
        u128::MIN as int
    }

    open spec fn modulus() -> int {
        0x1_0000_0000_0000_0000_0000_0000_0000_0000int
    }

    proof fn lemma_integer(a: Self, b: Self) {
        let sum = u128_specs::wrapping_add(a, b);
        let up: int = if a + b > u128::MAX {
            1
        } else {
            0
        };
        assert(a + b == sum + up * 0x1_0000_0000_0000_0000_0000_0000_0000_0000int);
        lemma_reduce_unique(
            a + b,
            sum as int,
            up,
            0,
            0x1_0000_0000_0000_0000_0000_0000_0000_0000int,
        );
        let difference = u128_specs::wrapping_sub(a, b);
        let down: int = if a - b < 0 {
            -1
        } else {
            0
        };
        assert(a - b == difference + down * 0x1_0000_0000_0000_0000_0000_0000_0000_0000int);
        lemma_reduce_unique(
            a - b,
            difference as int,
            down,
            0,
            0x1_0000_0000_0000_0000_0000_0000_0000_0000int,
        );
    }
}

} // verus!
