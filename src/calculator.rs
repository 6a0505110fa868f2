//! A two-operand "add" routine kept as a machine-code template (x86-64).
//!
//! The routine loads two addresses into registers, reads the 64-bit words
//! stored there, adds them and returns the sum. It is emitted once; later
//! calls only patch the two address immediates in place.
use vstd::prelude::*;

use crate::code_buffer::{patch_le, CodeState, ExecutableMemory, JitError};
use crate::encoding::le_bytes;

verus! {

/// Offset of the left operand's address immediate in the template.
pub const LEFT_OPERAND_OFFSET: usize = 2;

/// Offset of the right operand's address immediate in the template.
pub const RIGHT_OPERAND_OFFSET: usize = 12;

/// Length of the whole template.
pub const ADD_TEMPLATE_LEN: usize = 33;

/// `mov rcx,[rax]; mov rdx,[rbx]; add rcx,rdx; mov rax,rcx; ret`
pub open spec fn add_epilogue() -> Seq<u8> {
    seq![
        0x48u8, 0x8b, 0x08,
        0x48, 0x8b, 0x13,
        0x48, 0x01, 0xd1,
        0x48, 0x89, 0xc8,
        0xc3,
    ]
}

/// The add routine reading its operands from `left` and `right`:
/// `mov rax,left; mov rbx,right`, then the epilogue.
pub open spec fn add_template(left: u64, right: u64) -> Seq<u8> {
    seq![0x48u8, 0xb8] + le_bytes(left) + seq![0x48u8, 0xbb] + le_bytes(right) + add_epilogue()
}

/// Patching both operand slots of an emitted template gives the template
/// that a fresh emission with the new operands would give.
pub proof fn lemma_patch_template(left: u64, right: u64, new_left: u64, new_right: u64)
    ensures
        add_template(left, right).len() == ADD_TEMPLATE_LEN,
        patch_le(
            patch_le(add_template(left, right), LEFT_OPERAND_OFFSET as int, new_left),
            RIGHT_OPERAND_OFFSET as int,
            new_right,
        ) == add_template(new_left, new_right),
{
    let once = patch_le(add_template(left, right), LEFT_OPERAND_OFFSET as int, new_left);
    assert(once =~= add_template(new_left, right));
    assert(patch_le(once, RIGHT_OPERAND_OFFSET as int, new_right) =~= add_template(
        new_left,
        new_right,
    ));
}

/// An add routine that is compiled once and re-run with new operands.
pub struct JITCalculator {
    add_code: ExecutableMemory,
}

impl View for JITCalculator {
    type V = CodeState;

    closed spec fn view(&self) -> CodeState {
        self.add_code@
    }
}

impl JITCalculator {
    /// The buffer is coherent, and holds nothing or one emitted template.
    pub closed spec fn wf(&self) -> bool {
        &&& self.add_code.wf()
        &&& self@.bytes.len() == 0 || exists|l: u64, r: u64|
            self@.bytes == #[trigger] add_template(l, r)
    }

    /// A routine with nothing emitted yet.
    pub fn new() -> (r: JITCalculator)
        ensures
            r.wf(),
            r@.bytes == Seq::<u8>::empty(),
            r@.region is None,
    {
        JITCalculator { add_code: ExecutableMemory::new() }
    }

    /// Discards the emitted code and its region.
    pub fn clear_mem(&mut self)
        ensures
            final(self).wf(),
            final(self)@.bytes == Seq::<u8>::empty(),
            final(self)@.region is None,
    {
        self.add_code.clear_mem();
    }

    /// Readies the routine to add the words stored at `left_addr` and
    /// `right_addr`: the template is emitted on first use and only its two
    /// operand slots are patched afterwards; then it is materialized. When the
    /// platform refuses the region, the code is still in place but has no
    /// region.
    pub fn prepare_add(&mut self, left_addr: u64, right_addr: u64) -> (r: Result<(), JitError>)
        requires
            old(self).wf(),
        ensures
            final(self).wf(),
            final(self)@.bytes == add_template(left_addr, right_addr),
            r is Ok ==> final(self)@.region == Some(add_template(left_addr, right_addr)),
            r is Err ==> r == Err::<(), JitError>(JitError::Resource) && final(self)@.region is None,
    {
        if self.add_code.is_empty() {
            self.add_code.write_code(&[0x48, 0xb8]);
            self.add_code.write_u64(left_addr);
            self.add_code.write_code(&[0x48, 0xbb]);
            self.add_code.write_u64(right_addr);
            self.add_code.write_code(&[0x48, 0x8b, 0x08]);
            self.add_code.write_code(&[0x48, 0x8b, 0x13]);
            self.add_code.write_code(&[0x48, 0x01, 0xd1]);
            self.add_code.write_code(&[0x48, 0x89, 0xc8]);
            self.add_code.write_code(&[0xc3]);
            assert(self.add_code@.bytes =~= add_template(left_addr, right_addr));
        } else {
            let ghost (l, r) = choose|l: u64, r: u64| self@.bytes == add_template(l, r);
            proof {
                lemma_patch_template(l, r, left_addr, right_addr);
            }
            let _left = self.add_code.write_u64_at(left_addr, LEFT_OPERAND_OFFSET);
            let _right = self.add_code.write_u64_at(right_addr, RIGHT_OPERAND_OFFSET);
        }
        self.add_code.materialize()
    }

    /// The routine's code buffer.
    pub fn code(&self) -> (r: &ExecutableMemory)
        requires
            self.wf(),
        ensures
            r.wf(),
            r@ == self@,
    {
        &self.add_code
    }
}

} // verus!
