use noelv::plic::{Context, EnableBitsModify, Plic, ENABLE_WORDS_PER_CONTEXT};

#[test]
fn context_indices() {
    assert_eq!(Context::Hart0MachineExternal.index(), 0);
    assert_eq!(Context::Hart0SupervisorExternal.index(), 1);
    assert_eq!(Context::Hart1MachineExternal.index(), 4);
    assert_eq!(Context::Hart1SupervisorExternal.index(), 5);
}

#[test]
fn enable_location() {
    let plic = Plic::new();
    let m = plic.enable_interrupt(Context::Hart1MachineExternal, 33);
    assert_eq!(
        m,
        EnableBitsModify { context_index: 4, word_index: 1, bit_index: 1, enable: true }
    );
    let m = plic.disable_interrupt(Context::Hart0MachineExternal, 1023);
    assert_eq!(
        m,
        EnableBitsModify { context_index: 0, word_index: 31, bit_index: 31, enable: false }
    );
    assert!(m.word_index < ENABLE_WORDS_PER_CONTEXT);
}

#[test]
fn enable_then_disable_restores_word() {
    let plic = Plic::new();
    let word = 0x8000_0001u32;
    let on = plic.enable_interrupt(Context::Hart0MachineExternal, 2);
    let off = plic.disable_interrupt(Context::Hart0MachineExternal, 2);
    let enabled = on.apply(word);
    assert_eq!(enabled, 0x8000_0005);
    assert_eq!(off.apply(enabled), word);
    // idempotent, and other bits untouched
    assert_eq!(on.apply(enabled), enabled);
    assert_eq!(plic.set_interrupt_enable(Context::Hart0MachineExternal, 0, false).apply(word), 0x8000_0000);
}

#[test]
fn claim_and_complete() {
    let plic = Plic::new();
    assert!(plic.claim(Context::Hart0MachineExternal, 0).is_none());
    let claimed = plic.claim(Context::Hart1SupervisorExternal, 2).unwrap();
    assert_eq!(claimed.interrupt(), 2);
    assert_eq!(claimed.context(), Context::Hart1SupervisorExternal);
    assert_eq!(claimed.complete(), (5, 2));
}

#[test]
fn raw_claim_and_complete() {
    let plic = Plic::new();
    assert_eq!(plic.claim_raw(Context::Hart0MachineExternal, 0), None);
    assert_eq!(plic.claim_raw(Context::Hart0MachineExternal, 17), Some(17));
    assert_eq!(plic.complete_raw(Context::Hart0SupervisorExternal, 17), (1, 17));
}

#[test]
fn priority_and_threshold_writes() {
    let plic = Plic::new();
    assert_eq!(plic.set_interrupt_priority(2, 1), (1, 1));
    assert_eq!(plic.set_interrupt_priority(1023, 7), (1022, 7));
    assert_eq!(plic.set_priority_threshold(Context::Hart1MachineExternal, 0), (4, 0));
    assert_eq!(plic.set_priority_threshold(Context::Hart0MachineExternal, 7), (0, 7));
}
