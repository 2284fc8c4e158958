use arm_unwind::{save_context, Context};

#[test]
fn describe_lists_forty_eight_registers_with_the_float_bank() {
    let ctx = Context::new();
    assert_eq!(ctx.describe::<true>().len(), 48);
}

#[test]
fn describe_lists_sixteen_registers_without_the_float_bank() {
    let ctx = Context::new();
    assert_eq!(ctx.describe::<false>().len(), 16);
}

#[test]
fn describe_without_the_float_bank_lists_the_general_registers_in_order() {
    let mut ctx = Context::new();
    for i in 0..16 {
        ctx.gp[i] = 0x1000 + i;
    }
    for i in 0..32 {
        ctx.fp[i] = 0x2000 + i;
    }
    let pairs = ctx.describe::<false>();
    assert_eq!(pairs.len(), 16);
    for i in 0..16 {
        assert_eq!(pairs[i].0, format!("R{}", i));
        assert_eq!(pairs[i].1, 0x1000 + i);
    }
    assert!(pairs.iter().all(|pair| !pair.0.starts_with('D')));
}

#[test]
fn describe_of_a_capture_without_the_float_bank_has_no_float_pair() {
    let mut live = Context::new();
    for i in 0..16 {
        live.gp[i] = 0x5000 + i;
    }
    for i in 0..32 {
        live.fp[i] = 0x6000 + i;
    }
    let ctx = save_context::<false>(&live);
    let pairs = ctx.describe::<false>();
    assert_eq!(pairs.len(), 16);
    assert_eq!(pairs[4], ("R4", 0x5004));
    assert_eq!(pairs[13], ("R13", 0x500D));
    assert_eq!(pairs[14], ("R14", 0x500E));
    assert_eq!(pairs[15], ("R15", 0));
}

#[test]
fn describe_agrees_on_the_general_registers_in_both_builds() {
    let mut ctx = Context::new();
    for i in 0..16 {
        ctx.gp[i] = 0x1000 + i;
    }
    let with_bank = ctx.describe::<true>();
    let without_bank = ctx.describe::<false>();
    assert_eq!(&with_bank[..16], &without_bank[..]);
}

#[test]
fn describe_names_every_register() {
    let ctx = Context::new();
    let pairs = ctx.describe::<true>();
    for i in 0..16 {
        assert_eq!(pairs[i].0, format!("R{}", i));
    }
    for i in 0..32 {
        assert_eq!(pairs[16 + i].0, format!("D{}", i));
    }
}

#[test]
fn describe_names_the_borders() {
    let pairs = Context::new().describe::<true>();
    assert_eq!(pairs[0].0, "R0");
    assert_eq!(pairs[9].0, "R9");
    assert_eq!(pairs[10].0, "R10");
    assert_eq!(pairs[13].0, "R13");
    assert_eq!(pairs[15].0, "R15");
    assert_eq!(pairs[16].0, "D0");
    assert_eq!(pairs[25].0, "D9");
    assert_eq!(pairs[26].0, "D10");
    assert_eq!(pairs[47].0, "D31");
}

#[test]
fn describe_pairs_each_name_with_its_word() {
    let mut ctx = Context::new();
    for i in 0..16 {
        ctx.gp[i] = 0x1000 + i;
    }
    for i in 0..32 {
        ctx.fp[i] = 0x2000 + i;
    }
    let pairs = ctx.describe::<true>();
    for i in 0..16 {
        assert_eq!(pairs[i].1, 0x1000 + i);
    }
    for i in 0..32 {
        assert_eq!(pairs[16 + i].1, 0x2000 + i);
    }
    assert_eq!(pairs[13], ("R13", 0x100D));
    assert_eq!(pairs[16 + 31], ("D31", 0x201F));
}

#[test]
fn describe_leaves_the_context_alone() {
    let mut ctx = Context::new();
    *ctx.index_mut(14) = 0x2000;
    let before = ctx.clone();
    let _ = ctx.describe::<true>();
    assert_eq!(ctx.gp, before.gp);
    assert_eq!(ctx.fp, before.fp);
}
