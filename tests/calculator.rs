use jit_core::calculator::{ADD_TEMPLATE_LEN, LEFT_OPERAND_OFFSET, RIGHT_OPERAND_OFFSET};
use jit_core::JITCalculator;

fn expected_template(left: u64, right: u64) -> Vec<u8> {
    let mut v = vec![0x48, 0xb8];
    v.extend_from_slice(&left.to_le_bytes());
    v.extend_from_slice(&[0x48, 0xbb]);
    v.extend_from_slice(&right.to_le_bytes());
    v.extend_from_slice(&[
        0x48, 0x8b, 0x08, 0x48, 0x8b, 0x13, 0x48, 0x01, 0xd1, 0x48, 0x89, 0xc8, 0xc3,
    ]);
    v
}

#[test]
fn first_prepare_emits_template() {
    let mut calc = JITCalculator::new();
    assert!(calc.code().is_empty());
    assert_eq!(calc.prepare_add(0x1000, 0x2000), Ok(()));
    let code = calc.code();
    assert_eq!(code.len(), ADD_TEMPLATE_LEN);
    assert_eq!(code.as_bytes(), &expected_template(0x1000, 0x2000)[..]);
    assert_eq!(&code.executable_region().unwrap()[..], code.as_bytes());
}

#[test]
fn later_prepare_patches_operands_only() {
    let mut calc = JITCalculator::new();
    let first: (u64, u64) = (0x7ffd_1234_5670, 0x7ffd_1234_5678);
    assert_eq!(calc.prepare_add(first.0, first.1), Ok(()));
    let second: (u64, u64) = (0x5555_0000_a000, 0x0102_0304_0506_0708);
    assert_eq!(calc.prepare_add(second.0, second.1), Ok(()));
    let code = calc.code();
    assert_eq!(code.len(), ADD_TEMPLATE_LEN);
    assert_eq!(code.as_bytes(), &expected_template(second.0, second.1)[..]);
    let left_slot = &code.as_bytes()[LEFT_OPERAND_OFFSET..LEFT_OPERAND_OFFSET + 8];
    let right_slot = &code.as_bytes()[RIGHT_OPERAND_OFFSET..RIGHT_OPERAND_OFFSET + 8];
    assert_eq!(left_slot, &second.0.to_le_bytes());
    assert_eq!(right_slot, &second.1.to_le_bytes());
    assert!(code.is_materialized());
    assert_eq!(&code.executable_region().unwrap()[..], code.as_bytes());
}

#[test]
fn clear_mem_forgets_template() {
    let mut calc = JITCalculator::new();
    assert_eq!(calc.prepare_add(1, 2), Ok(()));
    calc.clear_mem();
    assert!(calc.code().is_empty());
    assert!(!calc.code().is_materialized());
    assert_eq!(calc.prepare_add(3, 4), Ok(()));
    assert_eq!(calc.code().as_bytes(), &expected_template(3, 4)[..]);
}
