//! The register storage and its lookup by register number.

use vstd::prelude::*;
use crate::names::{arm_register_name, register_name};
use crate::register::{
    is_float, is_general, is_valid_register, resolve, Slot, FP_REGS, FP_REG_NUM_OFFSET, GP_REGS,
};

verus! {

/// One machine word for each general-purpose and each floating-point
/// register.
pub struct Context {
    /// Words of `R0` to `R15`. Slot 13 is the stack pointer, slot 14 the link
    /// register, slot 15 the program counter.
    pub gp: [usize; 16],
    /// Words of the floating-point bank, first register first.
    pub fp: [usize; 32],
}

impl Context {
    /// The word stored for register number `id`.
    pub open spec fn register(&self, id: int) -> usize
        recommends
            is_valid_register(id),
    {
        if is_general(id) {
            self.gp@[id]
        } else {
            self.fp@[id - 256]
        }
    }
}

impl View for Context {
    type V = Map<int, usize>;

    /// A context as the map from each register number it stores to the word
    /// stored for it.
    open spec fn view(&self) -> Map<int, usize> {
        Map::new(|id: int| is_valid_register(id), |id: int| self.register(id))
    }
}

/// The order in which a context lists its registers: position `k` holds this
/// register number. The general-purpose registers come first; the
/// floating-point registers follow in a build that has them.
pub open spec fn listed_register(k: int) -> int
    recommends
        0 <= k < 48,
{
    if k < 16 {
        k
    } else {
        256 + (k - 16)
    }
}

impl Default for Context {
    /// A context with every word zero.
    fn default() -> (ctx: Context)
        ensures
            forall|id: int| is_valid_register(id) ==> #[trigger] ctx@[id] == 0,
    {
        Context::new()
    }
}

impl Clone for Context {
    /// A copy that shares no storage with `self`.
    fn clone(&self) -> (ctx: Context)
        ensures
            ctx == *self,
    {
        Context { gp: self.gp, fp: self.fp }
    }
}

/// Two contexts that store the same word for every register are equal.
pub proof fn lemma_view_determines_context(a: Context, b: Context)
    requires
        a@ == b@,
    ensures
        a == b,
{
    assert forall|i: int| 0 <= i < 16 implies a.gp@[i] == b.gp@[i] by {
        assert(a@[i] == a.gp@[i] && b@[i] == b.gp@[i]);
    }
    assert forall|i: int| 0 <= i < 32 implies a.fp@[i] == b.fp@[i] by {
        assert(a@[256 + i] == a.fp@[i] && b@[256 + i] == b.fp@[i]);
    }
    assert(a.gp =~= b.gp);
    assert(a.fp =~= b.fp);
}

impl Context {
    /// A context with every word zero.
    pub fn new() -> (ctx: Context)
        ensures
            forall|id: int| is_valid_register(id) ==> #[trigger] ctx@[id] == 0,
    {
        Context { gp: [0usize; 16], fp: [0usize; 32] }
    }

    /// The word of register number `id`: general-purpose slot `id` for the
    /// numbers 0 to 15, floating-point slot `id - 256` for 256 to 287. No other
    /// number is accepted; [`Context::get`] takes every number.
    pub fn index(&self, id: u16) -> (word: &usize)
        requires
            is_valid_register(id as int),
        ensures
            *word == self@[id as int],
            is_general(id as int) ==> *word == self.gp@[id as int],
            is_float(id as int) ==> *word == self.fp@[id - 256],
    {
        match resolve(id) {
            Slot::General(i) => &self.gp[i],
            Slot::Float(i) => &self.fp[i],
            Slot::Invalid => unreached(),
        }
    }

    /// The word of register number `id`, to be written through: what is
    /// written there becomes the word of that register, and no other word
    /// changes. The numbers are those of [`Context::index`].
    pub fn index_mut(&mut self, id: u16) -> (word: &mut usize)
        requires
            is_valid_register(id as int),
        ensures
            *word == old(self)@[id as int],
            final(self)@ == old(self)@.insert(id as int, *final(word)),
            is_general(id as int) ==> final(self).gp@ == old(self).gp@.update(
                id as int,
                *final(word),
            ) && final(self).fp@ == old(self).fp@,
            is_float(id as int) ==> final(self).fp@ == old(self).fp@.update(
                id - 256,
                *final(word),
            ) && final(self).gp@ == old(self).gp@,
    {
        match resolve(id) {
            Slot::General(i) => &mut self.gp[i],
            Slot::Float(i) => &mut self.fp[i],
            Slot::Invalid => unreached(),
        }
    }

    /// The word of register number `id`, or `None` where the number names no
    /// register that a context stores: no word is made up for such a number.
    pub fn get(&self, id: u16) -> (word: Option<&usize>)
        ensures
            word is None <==> !is_valid_register(id as int),
            word matches Some(w) ==> *w == self@[id as int],
    {
        match resolve(id) {
            Slot::General(i) => Some(&self.gp[i]),
            Slot::Float(i) => Some(&self.fp[i]),
            Slot::Invalid => None,
        }
    }

    /// The word of register number `id`, to be written through as with
    /// [`Context::index_mut`], or `None` where the number names no register
    /// that a context stores: the context then stays as it is, and nothing of
    /// it can be written.
    pub fn get_mut(&mut self, id: u16) -> (word: Option<&mut usize>)
        ensures
            word is None <==> !is_valid_register(id as int),
            word is None ==> *final(self) == *old(self),
            word matches Some(w) ==> *w == old(self)@[id as int] && final(self)@ == old(
                self,
            )@.insert(id as int, *final(w)),
    {
        match resolve(id) {
            Slot::General(i) => Some(&mut self.gp[i]),
            Slot::Float(i) => Some(&mut self.fp[i]),
            Slot::Invalid => None,
        }
    }

    /// Every register of the build by name with its word, for diagnostics:
    /// the sixteen general-purpose registers in ascending order and, where
    /// the build has the floating-point bank (`VFP`), the thirty-two
    /// floating-point registers after them. A build without the bank lists
    /// no floating-point register.
    pub fn describe<const VFP: bool>(&self) -> (pairs: Vec<(&'static str, usize)>)
        ensures
            pairs@.len() == if VFP { 48int } else { 16int },
            forall|k: int|
                0 <= k < pairs@.len() ==> (#[trigger] pairs@[k]).0@ == register_name(
                    listed_register(k),
                ) && pairs@[k].1 == self@[listed_register(k)],
    {
        let mut pairs: Vec<(&'static str, usize)> = Vec::new();
        let mut i: u16 = 0;
        while i < GP_REGS
            invariant
                i <= 16,
                pairs@.len() == i,
                forall|k: int|
                    0 <= k < i ==> (#[trigger] pairs@[k]).0@ == register_name(listed_register(k))
                        && pairs@[k].1 == self@[listed_register(k)],
            decreases 16 - i,
        {
            let name = arm_register_name(i).unwrap();
            pairs.push((name, self.gp[i as usize]));
            i = i + 1;
        }
        if VFP {
            let mut j: u16 = 0;
            while j < FP_REGS
                invariant
                    j <= 32,
                    pairs@.len() == 16 + j,
                    forall|k: int|
                        0 <= k < 16 + j ==> (#[trigger] pairs@[k]).0@ == register_name(
                            listed_register(k),
                        ) && pairs@[k].1 == self@[listed_register(k)],
                decreases 32 - j,
            {
                let name = arm_register_name(FP_REG_NUM_OFFSET + j).unwrap();
                pairs.push((name, self.fp[j as usize]));
                j = j + 1;
            }
        }
        pairs
    }
}

} // verus!
