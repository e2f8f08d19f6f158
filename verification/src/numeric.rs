//! Generic integer coercion: converting an integer literal's exact value
//! into a caller-chosen representation, reporting range failure.
//!
//! An integer literal is never negative (a leading minus sign is a
//! separate token), so its value is carried as a `u128`, and fitting a
//! representation means not exceeding that representation's largest
//! value.

use vstd::prelude::*;

verus! {

/// A numeric representation an integer literal can be decoded into.
///
/// `from_literal_value` is the single capability the decoder needs: an
/// exact conversion from the literal's value, succeeding precisely when
/// the value is within range, and then representing it losslessly.
pub trait FromIntegerLiteral: Sized {
    /// The largest literal value this representation can hold.
    spec fn max_spec() -> u128;

    /// The value this representation holds, read back exactly.
    spec fn value_spec(self) -> u128;

    /// Convert an integer literal's value, or report that it is out of
    /// range.
    fn from_literal_value(v: u128) -> (r: Option<Self>)
        ensures
            r is Some <==> v <= Self::max_spec(),
            r matches Some(x) ==> x.value_spec() == v;
}

impl FromIntegerLiteral for u8 {
    open spec fn max_spec() -> u128 {
        u8::MAX as u128
    }

    open spec fn value_spec(self) -> u128 {
        self as u128
    }

    fn from_literal_value(v: u128) -> (r: Option<u8>) {
        if v <= u8::MAX as u128 {
            Some(v as u8)
        } else {
            None
        }
    }
}

impl FromIntegerLiteral for u16 {
    open spec fn max_spec() -> u128 {
        u16::MAX as u128
    }

    open spec fn value_spec(self) -> u128 {
        self as u128
    }

    fn from_literal_value(v: u128) -> (r: Option<u16>) {
        if v <= u16::MAX as u128 {
            Some(v as u16)
        } else {
            None
        }
    }
}

impl FromIntegerLiteral for u32 {
    open spec fn max_spec() -> u128 {
        u32::MAX as u128
    }

    open spec fn value_spec(self) -> u128 {
        self as u128
    }

    fn from_literal_value(v: u128) -> (r: Option<u32>) {
        if v <= u32::MAX as u128 {
            Some(v as u32)
        } else {
            None
        }
    }
}

impl FromIntegerLiteral for u64 {
    open spec fn max_spec() -> u128 {
        u64::MAX as u128
    }

    open spec fn value_spec(self) -> u128 {
        self as u128
    }

    fn from_literal_value(v: u128) -> (r: Option<u64>) {
        if v <= u64::MAX as u128 {
            Some(v as u64)
        } else {
            None
        }
    }
}

impl FromIntegerLiteral for u128 {
    open spec fn max_spec() -> u128 {
        u128::MAX
    }

    open spec fn value_spec(self) -> u128 {
        self
    }

    fn from_literal_value(v: u128) -> (r: Option<u128>) {
        Some(v)
    }
}

impl FromIntegerLiteral for i8 {
    open spec fn max_spec() -> u128 {
        i8::MAX as u128
    }

    open spec fn value_spec(self) -> u128 {
        self as u128
    }

    fn from_literal_value(v: u128) -> (r: Option<i8>) {
        if v <= i8::MAX as u128 {
            Some(v as i8)
        } else {
            None
        }
    }
}

impl FromIntegerLiteral for i16 {
    open spec fn max_spec() -> u128 {
        i16::MAX as u128
    }

    open spec fn value_spec(self) -> u128 {
        self as u128
    }

    fn from_literal_value(v: u128) -> (r: Option<i16>) {
        if v <= i16::MAX as u128 {
            Some(v as i16)
        } else {
            None
        }
    }
}

impl FromIntegerLiteral for i32 {
    open spec fn max_spec() -> u128 {
        i32::MAX as u128
    }

    open spec fn value_spec(self) -> u128 {
        self as u128
    }

    fn from_literal_value(v: u128) -> (r: Option<i32>) {
        if v <= i32::MAX as u128 {
            Some(v as i32)
        } else {
            None
        }
    }
}

impl FromIntegerLiteral for i64 {
    open spec fn max_spec() -> u128 {
        i64::MAX as u128
    }

    open spec fn value_spec(self) -> u128 {
        self as u128
    }

    fn from_literal_value(v: u128) -> (r: Option<i64>) {
        if v <= i64::MAX as u128 {
            Some(v as i64)
        } else {
            None
        }
    }
}

impl FromIntegerLiteral for i128 {
    open spec fn max_spec() -> u128 {
        i128::MAX as u128
    }

    open spec fn value_spec(self) -> u128 {
        self as u128
    }

    fn from_literal_value(v: u128) -> (r: Option<i128>) {
        if v <= i128::MAX as u128 {
            Some(v as i128)
        } else {
            None
        }
    }
}

} // verus!
