//! What capturing and restoring a context do to the registers.
//!
//! The two routines that touch the machine are a few instructions of
//! assembly. This module fixes, on plain register values, which registers
//! each of them moves. Whether the floating-point bank takes part is a
//! property of the build, so it is a constant parameter and not a value.

use vstd::prelude::*;
use crate::context::Context;
use crate::register::{is_float, is_general, is_valid_register};

verus! {

/// Capture records register number `id`: `R4` to `R11`, the stack pointer,
/// the link register and, in a build with the floating-point bank, `D16` to
/// `D31`.
pub open spec fn is_captured(id: int, vfp: bool) -> bool {
    4 <= id <= 11 || id == 13 || id == 14 || (vfp && 272 <= id <= 287)
}

/// Restore installs register number `id`: every general-purpose register
/// and, in a build with the floating-point bank, every floating-point
/// register.
pub open spec fn is_installed(id: int, vfp: bool) -> bool {
    is_general(id) || (vfp && is_float(id))
}

/// The context captured while the registers hold `live`: every recorded
/// register with its word, every other register zero.
pub open spec fn captured(live: Map<int, usize>, vfp: bool) -> Map<int, usize> {
    Map::new(
        |id: int| is_valid_register(id),
        |id: int|
            if is_captured(id, vfp) {
                live[id]
            } else {
                0usize
            },
    )
}

/// The registers after `ctx` was restored over `live`: every installed
/// register holds the word of `ctx`, every other register keeps its own.
pub open spec fn installed(ctx: Map<int, usize>, live: Map<int, usize>, vfp: bool) -> Map<
    int,
    usize,
> {
    Map::new(
        |id: int| is_valid_register(id),
        |id: int|
            if is_installed(id, vfp) {
                ctx[id]
            } else {
                live[id]
            },
    )
}

/// Captures the registers `live` into a fresh context. `VFP` says whether
/// the build has the floating-point bank.
pub fn save_context<const VFP: bool>(live: &Context) -> (ctx: Context)
    ensures
        ctx@ == captured(live@, VFP),
{
    let mut ctx = Context::new();
    assert forall|k: int| 0 <= k < 16 implies ctx.gp@[k] == 0 by {
        assert(ctx@[k] == 0);
    }
    assert forall|k: int| 0 <= k < 32 implies ctx.fp@[k] == 0 by {
        assert(ctx@[256 + k] == 0);
    }
    let mut i: usize = 4;
    while i < 12
        invariant
            4 <= i <= 12,
            forall|k: int| 0 <= k < 16 ==> ctx.gp@[k] == if 4 <= k < i { live.gp@[k] } else { 0 },
            forall|k: int| 0 <= k < 32 ==> ctx.fp@[k] == 0,
        decreases 12 - i,
    {
        ctx.gp[i] = live.gp[i];
        i = i + 1;
    }
    ctx.gp[13] = live.gp[13];
    ctx.gp[14] = live.gp[14];
    if VFP {
        let ghost gp = ctx.gp@;
        let mut j: usize = 16;
        while j < 32
            invariant
                16 <= j <= 32,
                ctx.gp@ == gp,
                forall|k: int|
                    0 <= k < 32 ==> ctx.fp@[k] == if 16 <= k < j { live.fp@[k] } else { 0 },
            decreases 32 - j,
        {
            ctx.fp[j] = live.fp[j];
            j = j + 1;
        }
    }
    ctx
}

/// Installs `ctx` into the registers `live` and gives the address at which
/// execution goes on: the word of the program counter. `VFP` says whether
/// the build has the floating-point bank.
pub fn restore_context<const VFP: bool>(ctx: &Context, live: &mut Context) -> (target: usize)
    ensures
        final(live)@ == installed(ctx@, old(live)@, VFP),
        target == ctx@[15],
{
    live.gp = ctx.gp;
    if VFP {
        live.fp = ctx.fp;
    }
    ctx.gp[15]
}

/// Round trip: after `ctx` was restored over any registers, a capture made
/// before a register changes records again the word of `ctx` for every
/// register that capture records.
pub proof fn lemma_restore_then_save(ctx: Context, live: Context, vfp: bool)
    ensures
        forall|id: int|
            is_captured(id, vfp) ==> #[trigger] captured(installed(ctx@, live@, vfp), vfp)[id]
                == ctx@[id],
{
    assert forall|id: int| is_captured(id, vfp) implies #[trigger] captured(
        installed(ctx@, live@, vfp),
        vfp,
    )[id] == ctx@[id] by {
        assert(is_valid_register(id) && is_installed(id, vfp));
        assert(installed(ctx@, live@, vfp)[id] == ctx@[id]);
    }
}

/// A build without the floating-point bank moves no floating-point
/// register: capture leaves every floating-point word zero whatever the
/// registers hold, restore leaves every floating-point register as it was
/// whatever the context holds, and the general-purpose registers fare as
/// they do in a build with the bank.
pub proof fn lemma_without_float_bank(ctx: Context, live: Context)
    ensures
        forall|id: int| is_float(id) ==> #[trigger] captured(live@, false)[id] == 0,
        forall|id: int|
            is_float(id) ==> #[trigger] installed(ctx@, live@, false)[id] == live@[id],
        forall|id: int|
            is_general(id) ==> #[trigger] captured(live@, false)[id] == captured(live@, true)[id],
        forall|id: int|
            is_general(id) ==> #[trigger] installed(ctx@, live@, false)[id] == installed(
                ctx@,
                live@,
                true,
            )[id],
        forall|id: int|
            is_general(id) && is_captured(id, false) ==> #[trigger] captured(
                installed(ctx@, live@, false),
                false,
            )[id] == ctx@[id],
{
    assert forall|id: int| is_general(id) && is_captured(id, false) implies #[trigger] captured(
        installed(ctx@, live@, false),
        false,
    )[id] == ctx@[id] by {
        assert(installed(ctx@, live@, false)[id] == ctx@[id]);
    }
}

} // verus!
