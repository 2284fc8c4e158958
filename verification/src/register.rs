//! DWARF register numbers of 32-bit ARM and the storage slots they stand for.

use vstd::prelude::*;
use vstd::set_lib::{lemma_int_range, lemma_set_disjoint_lens, set_int_range};

verus! {

/// Number of general-purpose registers.
pub const GP_REGS: u16 = 16;

/// Largest register number of a general-purpose register.
pub const GP_LAST_REG_NUM: u16 = 15;

/// Number of floating-point registers.
pub const FP_REGS: u16 = 32;

/// Register number of the first floating-point register.
pub const FP_REG_NUM_OFFSET: u16 = 256;

/// Largest register number of a floating-point register.
pub const FP_LAST_REG_NUM: u16 = 287;

/// Number of register rules that one row of an unwind table may hold
/// (`DWARF_FRAME_REGISTERS` of libgcc).
pub const MAX_REG_RULES: usize = 107;

/// `id` numbers a general-purpose register.
pub open spec fn is_general(id: int) -> bool {
    0 <= id <= 15
}

/// `id` numbers a floating-point register.
pub open spec fn is_float(id: int) -> bool {
    256 <= id <= 287
}

/// `id` numbers a register that a context stores.
pub open spec fn is_valid_register(id: int) -> bool {
    is_general(id) || is_float(id)
}

/// The register numbers that a context stores.
pub open spec fn valid_registers() -> Set<int> {
    set_int_range(0, 16) + set_int_range(256, 288)
}

/// Where the word of a register lies in a context.
#[derive(Clone, Copy, Debug, PartialEq, Eq, Structural)]
pub enum Slot {
    /// Index into the general-purpose bank.
    General(usize),
    /// Index into the floating-point bank.
    Float(usize),
    /// The number names no register that a context stores.
    Invalid,
}

/// The slot that register number `id` stands for.
pub open spec fn slot_of(id: int) -> Slot {
    if is_general(id) {
        Slot::General(id as usize)
    } else if is_float(id) {
        Slot::Float((id - 256) as usize)
    } else {
        Slot::Invalid
    }
}

/// Resolves a register number to its slot by testing the two ranges.
pub fn resolve(id: u16) -> (slot: Slot)
    ensures
        slot == slot_of(id as int),
{
    if id <= GP_LAST_REG_NUM {
        Slot::General(id as usize)
    } else if FP_REG_NUM_OFFSET <= id && id <= FP_LAST_REG_NUM {
        Slot::Float((id - FP_REG_NUM_OFFSET) as usize)
    } else {
        Slot::Invalid
    }
}

/// The two ranges of register numbers share no member and hold 48 numbers
/// together; a number inside a range resolves to the slot of its bank, and
/// every number outside both resolves to no slot.
pub proof fn lemma_register_numbers()
    ensures
        forall|id: int| !(is_general(id) && is_float(id)),
        forall|id: int| is_general(id) ==> slot_of(id) == Slot::General(id as usize),
        forall|id: int| is_float(id) ==> slot_of(id) == Slot::Float((id - 256) as usize),
        forall|id: int| !is_valid_register(id) <==> slot_of(id) == Slot::Invalid,
        forall|id: int| valid_registers().contains(id) <==> is_valid_register(id),
        valid_registers().finite(),
        valid_registers().len() == 48,
{
    lemma_int_range(0, 16);
    lemma_int_range(256, 288);
    lemma_set_disjoint_lens(set_int_range(0, 16), set_int_range(256, 288));
}

} // verus!
