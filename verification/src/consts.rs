//! The conventional register names used as the calling convention between
//! macro expansion and library dispatch.

use vstd::prelude::*;

verus! {

/// The register name constants `r0` … `r10`.
pub struct Registers;

impl Registers {
    pub const R0: &'static str = "r0";

    pub const R1: &'static str = "r1";

    pub const R2: &'static str = "r2";

    pub const R3: &'static str = "r3";

    pub const R4: &'static str = "r4";

    pub const R5: &'static str = "r5";

    pub const R6: &'static str = "r6";

    pub const R7: &'static str = "r7";

    pub const R8: &'static str = "r8";

    pub const R9: &'static str = "r9";

    pub const R10: &'static str = "r10";
}

} // verus!
