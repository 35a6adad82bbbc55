use vcpu_types::cpu_sig;

#[test]
fn worked_examples_from_the_cpuid_packing() {
    assert_eq!(cpu_sig(23, 1, 2), 0x00800F12);
    assert_eq!(cpu_sig(23, 49, 0), 0x00830F10);
    assert_eq!(cpu_sig(25, 1, 1), 0x00A00F11);
}

#[test]
fn small_families_stay_in_the_base_field() {
    // Family 0xF is the largest that fits the base field unchanged.
    assert_eq!(cpu_sig(15, 0, 0), 0x00000F00);
    // One past it moves the excess into the extended family byte.
    assert_eq!(cpu_sig(16, 0, 0), 0x00100F00);
    assert_eq!(cpu_sig(0, 0, 0), 0x00000000);
}

#[test]
fn model_splits_into_high_and_low_nibbles() {
    assert_eq!(cpu_sig(6, 0xAB, 3), 0x000A06B3);
    assert_eq!(cpu_sig(6, 0x100, 0), 0x00000600);
}

#[test]
fn out_of_range_inputs_are_masked_not_rejected() {
    // Stepping keeps only its low nibble.
    assert_eq!(cpu_sig(25, 1, 0x31), 0x00A00F11);
    // Extended family keeps only its low byte.
    assert_eq!(cpu_sig(0xF + 0x100, 0, 0), 0x00000F00);
}

#[test]
fn negative_and_extreme_inputs_never_fail() {
    assert_eq!(cpu_sig(-1, -1, -1), 0xFFFFFFFF);
    assert_eq!(cpu_sig(i32::MIN, i32::MIN, i32::MIN), 0x00000000);
    assert_eq!(cpu_sig(i32::MAX, i32::MAX, i32::MAX), 0x0F0F0FFF);
    assert_eq!(cpu_sig(-1, 0, 0), 0xFFFFFF00);
}
