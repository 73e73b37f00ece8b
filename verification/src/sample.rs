//! Sample types and their format tags.

use num_complex::{Complex, Complex32, Complex64};
use vstd::prelude::*;

verus! {

/// The complex number type of `num_complex`, carried as an opaque value.
#[verifier::external_type_specification]
#[verifier::external_body]
#[verifier::reject_recursive_types(T)]
pub struct ExComplex<T>(Complex<T>);

/// A type that can stand for one sample in memory.
///
/// Sending or receiving samples with a type whose memory layout differs
/// from the format that its tag names is not defined by the driver, so the
/// tag of an implementation must match the layout of the type.
pub trait Sample {
    /// The tag that `name` returns.
    spec fn spec_name() -> Seq<char>;

    /// The name of this type's data format, such as `"sc16"` for a complex
    /// sample of two 16-bit integers.
    fn name() -> (tag: &'static str)
        ensures
            tag@ == Self::spec_name(),
            !tag@.contains('\0'),
    ;
}

impl Sample for Complex32 {
    open spec fn spec_name() -> Seq<char> {
        "fc32"@
    }

    fn name() -> (tag: &'static str) {
        proof {
            reveal_strlit("fc32");
        }
        "fc32"
    }
}

impl Sample for Complex64 {
    open spec fn spec_name() -> Seq<char> {
        "fc64"@
    }

    fn name() -> (tag: &'static str) {
        proof {
            reveal_strlit("fc64");
        }
        "fc64"
    }
}

impl Sample for Complex<i8> {
    open spec fn spec_name() -> Seq<char> {
        "sc8"@
    }

    fn name() -> (tag: &'static str) {
        proof {
            reveal_strlit("sc8");
        }
        "sc8"
    }
}

impl Sample for Complex<i16> {
    open spec fn spec_name() -> Seq<char> {
        "sc16"@
    }

    fn name() -> (tag: &'static str) {
        proof {
            reveal_strlit("sc16");
        }
        "sc16"
    }
}

impl Sample for i8 {
    open spec fn spec_name() -> Seq<char> {
        "s8"@
    }

    fn name() -> (tag: &'static str) {
        proof {
            reveal_strlit("s8");
        }
        "s8"
    }
}

impl Sample for i16 {
    open spec fn spec_name() -> Seq<char> {
        "s16"@
    }

    fn name() -> (tag: &'static str) {
        proof {
            reveal_strlit("s16");
        }
        "s16"
    }
}

impl Sample for [i8; 2] {
    open spec fn spec_name() -> Seq<char> {
        "sc8"@
    }

    fn name() -> (tag: &'static str) {
        proof {
            reveal_strlit("sc8");
        }
        "sc8"
    }
}

impl Sample for [i16; 2] {
    open spec fn spec_name() -> Seq<char> {
        "sc16"@
    }

    fn name() -> (tag: &'static str) {
        proof {
            reveal_strlit("sc16");
        }
        "sc16"
    }
}

} // verus!
