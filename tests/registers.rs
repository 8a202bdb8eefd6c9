use chirp8::registers::{Registers, StackDiagnostic, PROGRAM_START};

#[test]
fn fresh_register_file_starts_at_program_start() {
    let r = Registers::new();
    assert_eq!(r.pc(), 0x200);
    assert_eq!(PROGRAM_START, 0x200);
    for x in 0..16u8 {
        assert_eq!(r.v(x), 0);
    }
    assert_eq!(r.vf(), 0);
    assert_eq!(r.i(), 0);
}

#[test]
fn fresh_register_file_has_empty_stack() {
    let mut r = Registers::new();
    assert_eq!(r.pop_stack(), (0, Some(StackDiagnostic::Underflow)));
}

#[test]
fn register_round_trip_leaves_others_unchanged() {
    for x in 0..16u8 {
        for value in [0u8, 1, 0x7F, 0x80, 0xAB, 0xFF] {
            let mut r = Registers::new();
            r.set_v(x, value);
            assert_eq!(r.v(x), value);
            for y in 0..16u8 {
                if y != x {
                    assert_eq!(r.v(y), 0);
                }
            }
        }
    }
}

#[test]
fn set_v_overwrites_earlier_value() {
    let mut r = Registers::new();
    r.set_v(2, 10);
    r.set_v(2, 20);
    assert_eq!(r.v(2), 20);
}

#[test]
fn set_vf_is_seen_through_v15() {
    let mut r = Registers::new();
    r.set_vf(0x5A);
    assert_eq!(r.v(15), 0x5A);
    assert_eq!(r.v(14), 0);
}

#[test]
fn set_v15_is_seen_through_vf() {
    let mut r = Registers::new();
    r.set_v(15, 0xC3);
    assert_eq!(r.vf(), 0xC3);
}

#[test]
fn increment_pc_advances_by_two() {
    let mut r = Registers::new();
    r.set_pc(0x3FE);
    r.increment_pc();
    assert_eq!(r.pc(), 0x400);
}

#[test]
fn two_increments_from_program_start() {
    let mut r = Registers::new();
    r.increment_pc();
    r.increment_pc();
    assert_eq!(r.pc(), 0x204);
}

#[test]
fn set_pc_is_verbatim() {
    let mut r = Registers::new();
    r.set_pc(0xABCD);
    assert_eq!(r.pc(), 0xABCD);
}

#[test]
fn address_register_is_not_masked() {
    let mut r = Registers::new();
    r.set_i(0xFFFF);
    assert_eq!(r.i(), 0xFFFF);
}

#[test]
fn setters_leave_other_state_alone() {
    let mut r = Registers::new();
    r.set_v(1, 9);
    r.set_i(0x123);
    r.push_stack(0x456);
    r.set_pc(0x300);
    assert_eq!(r.v(1), 9);
    assert_eq!(r.i(), 0x123);
    assert_eq!(r.pop_stack(), (0x456, None));
    assert_eq!(r.pc(), 0x300);
}

#[test]
fn stack_pops_in_reverse_push_order() {
    let mut r = Registers::new();
    r.push_stack(0x0A);
    r.push_stack(0x0B);
    r.push_stack(0x0C);
    assert_eq!(r.pop_stack(), (0x0C, None));
    assert_eq!(r.pop_stack(), (0x0B, None));
    assert_eq!(r.pop_stack(), (0x0A, None));
}

#[test]
fn pop_on_empty_stack_returns_zero_and_recovers() {
    let mut r = Registers::new();
    assert_eq!(r.pop_stack(), (0, Some(StackDiagnostic::Underflow)));
    assert_eq!(r.pop_stack(), (0, Some(StackDiagnostic::Underflow)));
    assert_eq!(r.push_stack(0x222), None);
    assert_eq!(r.push_stack(0x333), None);
    assert_eq!(r.pop_stack(), (0x333, None));
    assert_eq!(r.pop_stack(), (0x222, None));
    assert_eq!(r.pop_stack(), (0, Some(StackDiagnostic::Underflow)));
}

#[test]
fn twenty_pushes_are_tolerated_and_popped_in_reverse() {
    let mut r = Registers::new();
    for k in 0..20u16 {
        let d = r.push_stack(0x200 + 2 * k);
        let depth = k as usize;
        if depth > 16 {
            assert_eq!(d, Some(StackDiagnostic::Overflow(depth)));
        } else {
            assert_eq!(d, None);
        }
    }
    for k in (0..20u16).rev() {
        assert_eq!(r.pop_stack(), (0x200 + 2 * k, None));
    }
    assert_eq!(r.pop_stack(), (0, Some(StackDiagnostic::Underflow)));
}

#[test]
fn overflow_diagnostic_starts_past_nominal_depth() {
    let mut r = Registers::new();
    for k in 0..16u16 {
        assert_eq!(r.push_stack(k), None);
    }
    assert_eq!(r.push_stack(16), None);
    assert_eq!(r.push_stack(17), Some(StackDiagnostic::Overflow(17)));
    assert_eq!(r.push_stack(18), Some(StackDiagnostic::Overflow(18)));
}
