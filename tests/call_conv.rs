use bumpalo::collections::Vec as BumpVec;
use bumpalo::Bump;
use roc_codegen::x86_64::{X86_64FPReg, X86_64GPReg, X86_64SystemV, X86_64WindowsFastcall};

#[test]
fn system_v_register_lists() {
    assert_eq!(
        X86_64SystemV::gp_param_regs(),
        vec![
            X86_64GPReg::RDI,
            X86_64GPReg::RSI,
            X86_64GPReg::RDX,
            X86_64GPReg::RCX,
            X86_64GPReg::R8,
            X86_64GPReg::R9
        ]
    );
    assert_eq!(
        X86_64SystemV::gp_return_regs(),
        vec![X86_64GPReg::RAX, X86_64GPReg::RDX]
    );
    assert_eq!(X86_64SystemV::fp_param_regs().len(), 8);
    assert_eq!(
        X86_64SystemV::fp_return_regs(),
        vec![X86_64FPReg::XMM0, X86_64FPReg::XMM1]
    );
    assert_eq!(X86_64SystemV::shadow_space_size(), 0);
    let free = X86_64SystemV::gp_default_free_regs();
    assert!(!free.contains(&X86_64GPReg::RSP));
    assert!(!free.contains(&X86_64GPReg::RBP));
    assert_eq!(free.last(), Some(&X86_64GPReg::R11));
}

#[test]
fn windows_register_lists() {
    assert_eq!(
        X86_64WindowsFastcall::gp_param_regs(),
        vec![
            X86_64GPReg::RCX,
            X86_64GPReg::RDX,
            X86_64GPReg::R8,
            X86_64GPReg::R9
        ]
    );
    assert_eq!(X86_64WindowsFastcall::gp_return_regs(), vec![X86_64GPReg::RAX]);
    assert_eq!(X86_64WindowsFastcall::fp_return_regs(), vec![X86_64FPReg::XMM0]);
    assert_eq!(X86_64WindowsFastcall::shadow_space_size(), 32);
    let mut fp_free = X86_64WindowsFastcall::fp_default_free_regs();
    assert_eq!(fp_free.len(), 16);
    fp_free.sort();
    fp_free.dedup();
    assert_eq!(fp_free.len(), 16);
}

#[test]
fn callee_saved_registers() {
    assert!(X86_64SystemV::gp_callee_saved(&X86_64GPReg::RBX));
    assert!(X86_64SystemV::gp_callee_saved(&X86_64GPReg::R15));
    assert!(!X86_64SystemV::gp_callee_saved(&X86_64GPReg::RSI));
    assert!(!X86_64SystemV::fp_callee_saved(&X86_64FPReg::XMM0));
    assert!(X86_64WindowsFastcall::gp_callee_saved(&X86_64GPReg::RSI));
    assert!(!X86_64WindowsFastcall::gp_callee_saved(&X86_64GPReg::R10));
    assert!(X86_64WindowsFastcall::fp_callee_saved(&X86_64FPReg::XMM5));
    assert!(!X86_64WindowsFastcall::fp_callee_saved(&X86_64FPReg::XMM6));
}

#[test]
fn setup_stack_non_leaf_with_saved_register() {
    let arena = Bump::new();
    let mut buf = BumpVec::new_in(&arena);
    let r = X86_64SystemV::setup_stack(&mut buf, false, &[X86_64GPReg::RBX], 4);
    assert_eq!(r, Ok(8));
    assert_eq!(
        &buf[..],
        &[
            0x55, // push rbp
            0x48, 0x89, 0xE5, // mov rbp, rsp
            0x53, // push rbx
            0x48, 0x81, 0xEC, 0x08, 0x00, 0x00, 0x00, // sub rsp, 8
        ]
    );
}

#[test]
fn setup_stack_leaf_without_locals_emits_nothing() {
    let arena = Bump::new();
    let mut buf = BumpVec::new_in(&arena);
    let r = X86_64WindowsFastcall::setup_stack(&mut buf, true, &[], 0);
    assert_eq!(r, Ok(0));
    assert!(buf.is_empty());
}

#[test]
fn setup_stack_keeps_alignment() {
    let regs = [
        X86_64GPReg::RBX,
        X86_64GPReg::R12,
        X86_64GPReg::R13,
        X86_64GPReg::R14,
        X86_64GPReg::R15,
        X86_64GPReg::RBX,
        X86_64GPReg::R12,
        X86_64GPReg::R13,
    ];
    for leaf in [false, true] {
        for n in 0..=8usize {
            for requested in [0i32, 1, 7, 8, 15, 16] {
                let arena = Bump::new();
                let mut buf = BumpVec::new_in(&arena);
                let aligned = X86_64SystemV::setup_stack(&mut buf, leaf, &regs[..n], requested)
                    .unwrap();
                let frame = if leaf { 0 } else { 16 };
                assert_eq!((8 * n as i32 + aligned + frame) % 16, 0);
                assert!(aligned >= requested);
                assert!(aligned - requested < 16);
            }
        }
    }
}

#[test]
fn setup_stack_runs_out_of_space() {
    let arena = Bump::new();
    let mut buf = BumpVec::new_in(&arena);
    let r = X86_64SystemV::setup_stack(&mut buf, true, &[X86_64GPReg::RBX], i32::MAX);
    assert_eq!(r, Err("Ran out of stack space".to_string()));
    assert_eq!(&buf[..], &[0x53]);
}

#[test]
fn cleanup_stack_reverses_setup() {
    let arena = Bump::new();
    let mut buf = BumpVec::new_in(&arena);
    let r = X86_64SystemV::cleanup_stack(
        &mut buf,
        false,
        &[X86_64GPReg::RBX, X86_64GPReg::R12],
        16,
    );
    assert_eq!(r, Ok(()));
    assert_eq!(
        &buf[..],
        &[
            0x48, 0x81, 0xC4, 0x10, 0x00, 0x00, 0x00, // add rsp, 16
            0x41, 0x5C, // pop r12
            0x5B, // pop rbx
            0x48, 0x89, 0xEC, // mov rsp, rbp
            0x5D, // pop rbp
        ]
    );
}

#[test]
fn cleanup_stack_leaf_without_locals() {
    let arena = Bump::new();
    let mut buf = BumpVec::new_in(&arena);
    let r = X86_64WindowsFastcall::cleanup_stack(&mut buf, true, &[X86_64GPReg::RSI], 0);
    assert_eq!(r, Ok(()));
    assert_eq!(&buf[..], &[0x5E]);
}
