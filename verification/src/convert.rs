//! Numeric bit-width coercion utilities.
//!
//! Module logic moves values between differently-sized registers through the
//! [`ValueCastTo`] trait.  Every conversion's contract pins the result exactly:
//! integer-to-integer conversions truncate to the target width and reinterpret
//! (two's complement), boolean sources map to 0 or 1, and integer-to-boolean
//! conversions test for non-zero.

use vstd::prelude::*;

verus! {

/// A value that can be coerced to type `T` with defined truncation /
/// sign-extension semantics.
pub trait ValueCastTo<T>: Sized {
    /// The mathematical value of the coercion.
    spec fn cast_spec(&self) -> T;

    fn cast(&self) -> (r: T)
        ensures
            r == self.cast_spec(),
    ;
}

impl ValueCastTo<bool> for bool {
    open spec fn cast_spec(&self) -> bool {
        *self
    }

    fn cast(&self) -> bool {
        *self
    }
}

impl ValueCastTo<u8> for bool {
    open spec fn cast_spec(&self) -> u8 {
        if *self { 1u8 } else { 0u8 }
    }

    fn cast(&self) -> u8 {
        if *self { 1u8 } else { 0u8 }
    }
}

impl ValueCastTo<u16> for bool {
    open spec fn cast_spec(&self) -> u16 {
        if *self { 1u16 } else { 0u16 }
    }

    fn cast(&self) -> u16 {
        if *self { 1u16 } else { 0u16 }
    }
}

impl ValueCastTo<u32> for bool {
    open spec fn cast_spec(&self) -> u32 {
        if *self { 1u32 } else { 0u32 }
    }

    fn cast(&self) -> u32 {
        if *self { 1u32 } else { 0u32 }
    }
}

impl ValueCastTo<u64> for bool {
    open spec fn cast_spec(&self) -> u64 {
        if *self { 1u64 } else { 0u64 }
    }

    fn cast(&self) -> u64 {
        if *self { 1u64 } else { 0u64 }
    }
}

impl ValueCastTo<i8> for bool {
    open spec fn cast_spec(&self) -> i8 {
        if *self { 1i8 } else { 0i8 }
    }

    fn cast(&self) -> i8 {
        if *self { 1i8 } else { 0i8 }
    }
}

impl ValueCastTo<i16> for bool {
    open spec fn cast_spec(&self) -> i16 {
        if *self { 1i16 } else { 0i16 }
    }

    fn cast(&self) -> i16 {
        if *self { 1i16 } else { 0i16 }
    }
}

impl ValueCastTo<i32> for bool {
    open spec fn cast_spec(&self) -> i32 {
        if *self { 1i32 } else { 0i32 }
    }

    fn cast(&self) -> i32 {
        if *self { 1i32 } else { 0i32 }
    }
}

impl ValueCastTo<i64> for bool {
    open spec fn cast_spec(&self) -> i64 {
        if *self { 1i64 } else { 0i64 }
    }

    fn cast(&self) -> i64 {
        if *self { 1i64 } else { 0i64 }
    }
}

impl ValueCastTo<bool> for u8 {
    open spec fn cast_spec(&self) -> bool {
        *self != 0
    }

    fn cast(&self) -> bool {
        *self != 0
    }
}

impl ValueCastTo<u8> for u8 {
    open spec fn cast_spec(&self) -> u8 {
        *self
    }

    fn cast(&self) -> u8 {
        *self
    }
}

impl ValueCastTo<u16> for u8 {
    open spec fn cast_spec(&self) -> u16 {
        *self as u16
    }

    fn cast(&self) -> u16 {
        *self as u16
    }
}

impl ValueCastTo<u32> for u8 {
    open spec fn cast_spec(&self) -> u32 {
        *self as u32
    }

    fn cast(&self) -> u32 {
        *self as u32
    }
}

impl ValueCastTo<u64> for u8 {
    open spec fn cast_spec(&self) -> u64 {
        *self as u64
    }

    fn cast(&self) -> u64 {
        *self as u64
    }
}

impl ValueCastTo<i8> for u8 {
    open spec fn cast_spec(&self) -> i8 {
        *self as i8
    }

    fn cast(&self) -> i8 {
        #[verifier::truncate] (*self as i8)
    }
}

impl ValueCastTo<i16> for u8 {
    open spec fn cast_spec(&self) -> i16 {
        *self as i16
    }

    fn cast(&self) -> i16 {
        *self as i16
    }
}

impl ValueCastTo<i32> for u8 {
    open spec fn cast_spec(&self) -> i32 {
        *self as i32
    }

    fn cast(&self) -> i32 {
        *self as i32
    }
}

impl ValueCastTo<i64> for u8 {
    open spec fn cast_spec(&self) -> i64 {
        *self as i64
    }

    fn cast(&self) -> i64 {
        *self as i64
    }
}

impl ValueCastTo<bool> for u16 {
    open spec fn cast_spec(&self) -> bool {
        *self != 0
    }

    fn cast(&self) -> bool {
        *self != 0
    }
}

impl ValueCastTo<u8> for u16 {
    open spec fn cast_spec(&self) -> u8 {
        *self as u8
    }

    fn cast(&self) -> u8 {
        #[verifier::truncate] (*self as u8)
    }
}

impl ValueCastTo<u16> for u16 {
    open spec fn cast_spec(&self) -> u16 {
        *self
    }

    fn cast(&self) -> u16 {
        *self
    }
}

impl ValueCastTo<u32> for u16 {
    open spec fn cast_spec(&self) -> u32 {
        *self as u32
    }

    fn cast(&self) -> u32 {
        *self as u32
    }
}

impl ValueCastTo<u64> for u16 {
    open spec fn cast_spec(&self) -> u64 {
        *self as u64
    }

    fn cast(&self) -> u64 {
        *self as u64
    }
}

impl ValueCastTo<i8> for u16 {
    open spec fn cast_spec(&self) -> i8 {
        *self as i8
    }

    fn cast(&self) -> i8 {
        #[verifier::truncate] (*self as i8)
    }
}

impl ValueCastTo<i16> for u16 {
    open spec fn cast_spec(&self) -> i16 {
        *self as i16
    }

    fn cast(&self) -> i16 {
        #[verifier::truncate] (*self as i16)
    }
}

impl ValueCastTo<i32> for u16 {
    open spec fn cast_spec(&self) -> i32 {
        *self as i32
    }

    fn cast(&self) -> i32 {
        *self as i32
    }
}

impl ValueCastTo<i64> for u16 {
    open spec fn cast_spec(&self) -> i64 {
        *self as i64
    }

    fn cast(&self) -> i64 {
        *self as i64
    }
}

impl ValueCastTo<bool> for u32 {
    open spec fn cast_spec(&self) -> bool {
        *self != 0
    }

    fn cast(&self) -> bool {
        *self != 0
    }
}

impl ValueCastTo<u8> for u32 {
    open spec fn cast_spec(&self) -> u8 {
        *self as u8
    }

    fn cast(&self) -> u8 {
        #[verifier::truncate] (*self as u8)
    }
}

impl ValueCastTo<u16> for u32 {
    open spec fn cast_spec(&self) -> u16 {
        *self as u16
    }

    fn cast(&self) -> u16 {
        #[verifier::truncate] (*self as u16)
    }
}

impl ValueCastTo<u32> for u32 {
    open spec fn cast_spec(&self) -> u32 {
        *self
    }

    fn cast(&self) -> u32 {
        *self
    }
}

impl ValueCastTo<u64> for u32 {
    open spec fn cast_spec(&self) -> u64 {
        *self as u64
    }

    fn cast(&self) -> u64 {
        *self as u64
    }
}

impl ValueCastTo<i8> for u32 {
    open spec fn cast_spec(&self) -> i8 {
        *self as i8
    }

    fn cast(&self) -> i8 {
        #[verifier::truncate] (*self as i8)
    }
}

impl ValueCastTo<i16> for u32 {
    open spec fn cast_spec(&self) -> i16 {
        *self as i16
    }

    fn cast(&self) -> i16 {
        #[verifier::truncate] (*self as i16)
    }
}

impl ValueCastTo<i32> for u32 {
    open spec fn cast_spec(&self) -> i32 {
        *self as i32
    }

    fn cast(&self) -> i32 {
        #[verifier::truncate] (*self as i32)
    }
}

impl ValueCastTo<i64> for u32 {
    open spec fn cast_spec(&self) -> i64 {
        *self as i64
    }

    fn cast(&self) -> i64 {
        *self as i64
    }
}

impl ValueCastTo<bool> for u64 {
    open spec fn cast_spec(&self) -> bool {
        *self != 0
    }

    fn cast(&self) -> bool {
        *self != 0
    }
}

impl ValueCastTo<u8> for u64 {
    open spec fn cast_spec(&self) -> u8 {
        *self as u8
    }

    fn cast(&self) -> u8 {
        #[verifier::truncate] (*self as u8)
    }
}

impl ValueCastTo<u16> for u64 {
    open spec fn cast_spec(&self) -> u16 {
        *self as u16
    }

    fn cast(&self) -> u16 {
        #[verifier::truncate] (*self as u16)
    }
}

impl ValueCastTo<u32> for u64 {
    open spec fn cast_spec(&self) -> u32 {
        *self as u32
    }

    fn cast(&self) -> u32 {
        #[verifier::truncate] (*self as u32)
    }
}

impl ValueCastTo<u64> for u64 {
    open spec fn cast_spec(&self) -> u64 {
        *self
    }

    fn cast(&self) -> u64 {
        *self
    }
}

impl ValueCastTo<i8> for u64 {
    open spec fn cast_spec(&self) -> i8 {
        *self as i8
    }

    fn cast(&self) -> i8 {
        #[verifier::truncate] (*self as i8)
    }
}

impl ValueCastTo<i16> for u64 {
    open spec fn cast_spec(&self) -> i16 {
        *self as i16
    }

    fn cast(&self) -> i16 {
        #[verifier::truncate] (*self as i16)
    }
}

impl ValueCastTo<i32> for u64 {
    open spec fn cast_spec(&self) -> i32 {
        *self as i32
    }

    fn cast(&self) -> i32 {
        #[verifier::truncate] (*self as i32)
    }
}

impl ValueCastTo<i64> for u64 {
    open spec fn cast_spec(&self) -> i64 {
        *self as i64
    }

    fn cast(&self) -> i64 {
        #[verifier::truncate] (*self as i64)
    }
}

impl ValueCastTo<bool> for i8 {
    open spec fn cast_spec(&self) -> bool {
        *self != 0
    }

    fn cast(&self) -> bool {
        *self != 0
    }
}

impl ValueCastTo<u8> for i8 {
    open spec fn cast_spec(&self) -> u8 {
        *self as u8
    }

    fn cast(&self) -> u8 {
        #[verifier::truncate] (*self as u8)
    }
}

impl ValueCastTo<u16> for i8 {
    open spec fn cast_spec(&self) -> u16 {
        *self as u16
    }

    fn cast(&self) -> u16 {
        #[verifier::truncate] (*self as u16)
    }
}

impl ValueCastTo<u32> for i8 {
    open spec fn cast_spec(&self) -> u32 {
        *self as u32
    }

    fn cast(&self) -> u32 {
        #[verifier::truncate] (*self as u32)
    }
}

impl ValueCastTo<u64> for i8 {
    open spec fn cast_spec(&self) -> u64 {
        *self as u64
    }

    fn cast(&self) -> u64 {
        #[verifier::truncate] (*self as u64)
    }
}

impl ValueCastTo<i8> for i8 {
    open spec fn cast_spec(&self) -> i8 {
        *self
    }

    fn cast(&self) -> i8 {
        *self
    }
}

impl ValueCastTo<i16> for i8 {
    open spec fn cast_spec(&self) -> i16 {
        *self as i16
    }

    fn cast(&self) -> i16 {
        *self as i16
    }
}

impl ValueCastTo<i32> for i8 {
    open spec fn cast_spec(&self) -> i32 {
        *self as i32
    }

    fn cast(&self) -> i32 {
        *self as i32
    }
}

impl ValueCastTo<i64> for i8 {
    open spec fn cast_spec(&self) -> i64 {
        *self as i64
    }

    fn cast(&self) -> i64 {
        *self as i64
    }
}

impl ValueCastTo<bool> for i16 {
    open spec fn cast_spec(&self) -> bool {
        *self != 0
    }

    fn cast(&self) -> bool {
        *self != 0
    }
}

impl ValueCastTo<u8> for i16 {
    open spec fn cast_spec(&self) -> u8 {
        *self as u8
    }

    fn cast(&self) -> u8 {
        #[verifier::truncate] (*self as u8)
    }
}

impl ValueCastTo<u16> for i16 {
    open spec fn cast_spec(&self) -> u16 {
        *self as u16
    }

    fn cast(&self) -> u16 {
        #[verifier::truncate] (*self as u16)
    }
}

impl ValueCastTo<u32> for i16 {
    open spec fn cast_spec(&self) -> u32 {
        *self as u32
    }

    fn cast(&self) -> u32 {
        #[verifier::truncate] (*self as u32)
    }
}

impl ValueCastTo<u64> for i16 {
    open spec fn cast_spec(&self) -> u64 {
        *self as u64
    }

    fn cast(&self) -> u64 {
        #[verifier::truncate] (*self as u64)
    }
}

impl ValueCastTo<i8> for i16 {
    open spec fn cast_spec(&self) -> i8 {
        *self as i8
    }

    fn cast(&self) -> i8 {
        #[verifier::truncate] (*self as i8)
    }
}

impl ValueCastTo<i16> for i16 {
    open spec fn cast_spec(&self) -> i16 {
        *self
    }

    fn cast(&self) -> i16 {
        *self
    }
}

impl ValueCastTo<i32> for i16 {
    open spec fn cast_spec(&self) -> i32 {
        *self as i32
    }

    fn cast(&self) -> i32 {
        *self as i32
    }
}

impl ValueCastTo<i64> for i16 {
    open spec fn cast_spec(&self) -> i64 {
        *self as i64
    }

    fn cast(&self) -> i64 {
        *self as i64
    }
}

impl ValueCastTo<bool> for i32 {
    open spec fn cast_spec(&self) -> bool {
        *self != 0
    }

    fn cast(&self) -> bool {
        *self != 0
    }
}

impl ValueCastTo<u8> for i32 {
    open spec fn cast_spec(&self) -> u8 {
        *self as u8
    }

    fn cast(&self) -> u8 {
        #[verifier::truncate] (*self as u8)
    }
}

impl ValueCastTo<u16> for i32 {
    open spec fn cast_spec(&self) -> u16 {
        *self as u16
    }

    fn cast(&self) -> u16 {
        #[verifier::truncate] (*self as u16)
    }
}

impl ValueCastTo<u32> for i32 {
    open spec fn cast_spec(&self) -> u32 {
        *self as u32
    }

    fn cast(&self) -> u32 {
        #[verifier::truncate] (*self as u32)
    }
}

impl ValueCastTo<u64> for i32 {
    open spec fn cast_spec(&self) -> u64 {
        *self as u64
    }

    fn cast(&self) -> u64 {
        #[verifier::truncate] (*self as u64)
    }
}

impl ValueCastTo<i8> for i32 {
    open spec fn cast_spec(&self) -> i8 {
        *self as i8
    }

    fn cast(&self) -> i8 {
        #[verifier::truncate] (*self as i8)
    }
}

impl ValueCastTo<i16> for i32 {
    open spec fn cast_spec(&self) -> i16 {
        *self as i16
    }

    fn cast(&self) -> i16 {
        #[verifier::truncate] (*self as i16)
    }
}

impl ValueCastTo<i32> for i32 {
    open spec fn cast_spec(&self) -> i32 {
        *self
    }

    fn cast(&self) -> i32 {
        *self
    }
}

impl ValueCastTo<i64> for i32 {
    open spec fn cast_spec(&self) -> i64 {
        *self as i64
    }

    fn cast(&self) -> i64 {
        *self as i64
    }
}

impl ValueCastTo<bool> for i64 {
    open spec fn cast_spec(&self) -> bool {
        *self != 0
    }

    fn cast(&self) -> bool {
        *self != 0
    }
}

impl ValueCastTo<u8> for i64 {
    open spec fn cast_spec(&self) -> u8 {
        *self as u8
    }

    fn cast(&self) -> u8 {
        #[verifier::truncate] (*self as u8)
    }
}

impl ValueCastTo<u16> for i64 {
    open spec fn cast_spec(&self) -> u16 {
        *self as u16
    }

    fn cast(&self) -> u16 {
        #[verifier::truncate] (*self as u16)
    }
}

impl ValueCastTo<u32> for i64 {
    open spec fn cast_spec(&self) -> u32 {
        *self as u32
    }

    fn cast(&self) -> u32 {
        #[verifier::truncate] (*self as u32)
    }
}

impl ValueCastTo<u64> for i64 {
    open spec fn cast_spec(&self) -> u64 {
        *self as u64
    }

    fn cast(&self) -> u64 {
        #[verifier::truncate] (*self as u64)
    }
}

impl ValueCastTo<i8> for i64 {
    open spec fn cast_spec(&self) -> i8 {
        *self as i8
    }

    fn cast(&self) -> i8 {
        #[verifier::truncate] (*self as i8)
    }
}

impl ValueCastTo<i16> for i64 {
    open spec fn cast_spec(&self) -> i16 {
        *self as i16
    }

    fn cast(&self) -> i16 {
        #[verifier::truncate] (*self as i16)
    }
}

impl ValueCastTo<i32> for i64 {
    open spec fn cast_spec(&self) -> i32 {
        *self as i32
    }

    fn cast(&self) -> i32 {
        #[verifier::truncate] (*self as i32)
    }
}

impl ValueCastTo<i64> for i64 {
    open spec fn cast_spec(&self) -> i64 {
        *self
    }

    fn cast(&self) -> i64 {
        *self
    }
}

} // verus!