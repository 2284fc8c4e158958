//! Architectural names of the registers that a context stores.

use vstd::prelude::*;
use crate::register::{is_general, is_valid_register};

verus! {

/// The decimal digit `d` as a character.
pub open spec fn digit(d: int) -> char
    recommends
        0 <= d <= 9,
{
    ('0' as int + d) as char
}

/// A number below one hundred in decimal, without a leading zero.
pub open spec fn decimal(n: int) -> Seq<char>
    recommends
        0 <= n <= 99,
{
    if n < 10 {
        seq![digit(n)]
    } else {
        seq![digit(n / 10), digit(n % 10)]
    }
}

/// The architectural name of register number `id`: `R0` to `R15` for the
/// general-purpose registers, `D0` to `D31` for the floating-point registers.
pub open spec fn register_name(id: int) -> Seq<char>
    recommends
        is_valid_register(id),
{
    if is_general(id) {
        seq!['R'] + decimal(id)
    } else {
        seq!['D'] + decimal(id - 256)
    }
}

/// Looks a register number up in gimli's table of 32-bit ARM registers
/// (`gimli::Arm::register_name`).
///
/// Trusted: for the sixteen general-purpose and the thirty-two floating-point
/// numbers the table holds the names `R0` to `R15` and `D0` to `D31`. Nothing
/// is claimed of any other number.
#[verifier::external_body]
pub(crate) fn arm_register_name(id: u16) -> (name: Option<&'static str>)
    ensures
        is_valid_register(id as int) ==> name.is_some() && name.unwrap()@ == register_name(
            id as int,
        ),
{
    gimli::Arm::register_name(gimli::Register(id))
}

} // verus!
