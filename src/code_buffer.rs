//! The code buffer: machine code as a growable byte sequence, and the
//! executable region that is made from it.
//!
//! Coherence policy: the byte sequence is the source of truth. A region, once
//! made, is never written again (it is never switched back to writable); any
//! change to the bytes releases the region, and the next materialization
//! copies the current bytes into a fresh one. So a live region always holds
//! exactly the current bytes.
use vstd::prelude::*;

use crate::encoding::{le_bytes, le_value, lemma_le_round_trip, u64_to_le, IMM64_LEN};
use crate::region::{copy_into_region, executable_bytes};

verus! {

/// The ways an operation on a code buffer can fail.
#[derive(Debug, Clone, Copy, PartialEq, Eq, Structural)]
pub enum JitError {
    /// The platform could not map the region or change its protection.
    Resource,
    /// A patch would reach past the end of the code.
    OutOfBounds,
    /// The code was asked for its executable region before it had one.
    NotMaterialized,
    /// The code already has a live executable region.
    AlreadyMaterialized,
}

/// The abstract state of a code buffer.
pub ghost struct CodeState {
    /// The machine code, in instruction order.
    pub bytes: Seq<u8>,
    /// The contents of the live executable region, if there is one.
    pub region: Option<Seq<u8>>,
}

/// `s` with the eight bytes at `k` replaced by the little-endian bytes of `v`.
pub open spec fn patch_le(s: Seq<u8>, k: int, v: u64) -> Seq<u8> {
    s.subrange(0, k) + le_bytes(v) + s.subrange(k + 8, s.len() as int)
}

/// Whether an eight-byte slot starting at `k` lies inside `s`.
pub open spec fn slot_fits(s: Seq<u8>, k: int) -> bool {
    0 <= k && k + 8 <= s.len()
}

/// A patch changes the eight bytes of its slot and no others.
pub proof fn lemma_patch_locality(s: Seq<u8>, k: int, v: u64)
    requires
        slot_fits(s, k),
    ensures
        patch_le(s, k, v).len() == s.len(),
        patch_le(s, k, v).subrange(k, k + 8) == le_bytes(v),
        forall|j: int|
            0 <= j < s.len() && !(k <= j < k + 8) ==> #[trigger] patch_le(s, k, v)[j] == s[j],
{
    assert(patch_le(s, k, v).subrange(k, k + 8) =~= le_bytes(v));
}

/// Reading back the eight bytes that a patch wrote gives the patched value.
pub proof fn lemma_patch_read_back(s: Seq<u8>, k: int, v: u64)
    requires
        slot_fits(s, k),
    ensures
        le_value(patch_le(s, k, v).subrange(k, k + 8)) == v,
{
    lemma_patch_locality(s, k, v);
    lemma_le_round_trip(v);
}

/// Reading back the eight bytes that an append of `v` added gives `v`.
pub proof fn lemma_append_read_back(s: Seq<u8>, v: u64)
    ensures
        le_value((s + le_bytes(v)).subrange(s.len() as int, s.len() + 8int)) == v,
{
    lemma_le_round_trip(v);
    assert((s + le_bytes(v)).subrange(s.len() as int, s.len() + 8int) =~= le_bytes(v));
}

/// Machine code being assembled, and the executable region made from it.
pub struct ExecutableMemory {
    code: Vec<u8>,
    memory_map: Option<memmap::Mmap>,
}

impl View for ExecutableMemory {
    type V = CodeState;

    closed spec fn view(&self) -> CodeState {
        CodeState {
            bytes: self.code@,
            region: match self.memory_map {
                Some(m) => Some(executable_bytes(m)),
                None => None,
            },
        }
    }
}

impl ExecutableMemory {
    /// A live region holds exactly the current bytes.
    pub open spec fn wf(&self) -> bool {
        self@.region is Some ==> self@.region == Some(self@.bytes)
    }

    /// An empty buffer with no region.
    pub fn new() -> (r: ExecutableMemory)
        ensures
            r.wf(),
            r@.bytes == Seq::<u8>::empty(),
            r@.region is None,
    {
        ExecutableMemory { code: Vec::new(), memory_map: None }
    }

    /// Removes all code and releases the region.
    pub fn clear_mem(&mut self)
        ensures
            final(self).wf(),
            final(self)@.bytes == Seq::<u8>::empty(),
            final(self)@.region is None,
    {
        self.code.clear();
        self.memory_map = None;
    }

    /// Appends `code`; a live region, now stale, is released.
    pub fn write_code(&mut self, code: &[u8])
        ensures
            final(self).wf(),
            final(self)@.bytes == old(self)@.bytes + code@,
            final(self)@.region is None,
    {
        self.memory_map = None;
        let ghost start = self.code@;
        let mut i: usize = 0;
        while i < code.len()
            invariant
                i <= code@.len(),
                self.code@ == start + code@.subrange(0, i as int),
                self.memory_map is None,
            decreases code@.len() - i,
        {
            self.code.push(code[i]);
            i += 1;
            assert(self.code@ =~= start + code@.subrange(0, i as int));
        }
        assert(code@.subrange(0, code@.len() as int) =~= code@);
    }

    /// Overwrites the bytes from `position` on with `code`; a live region,
    /// now stale, is released.
    fn write_code_at(&mut self, code: &[u8], position: usize)
        requires
            position + code@.len() <= old(self)@.bytes.len(),
        ensures
            final(self).wf(),
            final(self)@.bytes == old(self)@.bytes.subrange(0, position as int) + code@
                + old(self)@.bytes.subrange(position + code@.len(), old(self)@.bytes.len() as int),
            final(self)@.region is None,
    {
        self.memory_map = None;
        let ghost start = self.code@;
        let code_len: usize = self.code.len();
        let mut i: usize = 0;
        while i < code.len()
            invariant
                i <= code@.len(),
                start.len() == code_len,
                position + code@.len() <= code_len,
                self.code@.len() == start.len(),
                forall|j: int|
                    0 <= j < self.code@.len() ==> #[trigger] self.code@[j] == if position <= j
                        < position + i {
                        code@[j - position]
                    } else {
                        start[j]
                    },
                self.memory_map is None,
            decreases code@.len() - i,
        {
            self.code[position + i] = code[i];
            i += 1;
        }
        assert(self.code@ =~= start.subrange(0, position as int) + code@ + start.subrange(
            position + code@.len(),
            start.len() as int,
        ));
    }

    /// Appends the eight little-endian bytes of `num`; a live region, now
    /// stale, is released.
    pub fn write_u64(&mut self, num: u64)
        ensures
            final(self).wf(),
            final(self)@.bytes == old(self)@.bytes + le_bytes(num),
            final(self)@.region is None,
    {
        let b = u64_to_le(num);
        self.write_code(&b);
    }

    /// Overwrites the eight bytes at `position` with the little-endian bytes
    /// of `num`, releasing a live region. A slot that does not fit is refused
    /// and nothing changes.
    pub fn write_u64_at(&mut self, num: u64, position: usize) -> (r: Result<(), JitError>)
        requires
            old(self).wf(),
        ensures
            final(self).wf(),
            r is Ok <==> slot_fits(old(self)@.bytes, position as int),
            r is Ok ==> final(self)@.bytes == patch_le(old(self)@.bytes, position as int, num)
                && final(self)@.region is None,
            r is Err ==> r == Err::<(), JitError>(JitError::OutOfBounds) && *final(self) == *old(
                self,
            ),
    {
        if self.code.len() < IMM64_LEN || position > self.code.len() - IMM64_LEN {
            return Err(JitError::OutOfBounds);
        }
        let b = u64_to_le(num);
        self.write_code_at(&b, position);
        Ok(())
    }

    /// Copies the current bytes into a fresh anonymous region and makes it
    /// executable. Refused when a region is already live; when the platform
    /// cannot map or protect the region (an empty buffer is never mapped),
    /// nothing changes.
    pub fn materialize(&mut self) -> (r: Result<(), JitError>)
        requires
            old(self).wf(),
        ensures
            final(self).wf(),
            final(self)@.bytes == old(self)@.bytes,
            old(self)@.region is Some ==> r == Err::<(), JitError>(JitError::AlreadyMaterialized),
            old(self)@.region is None && old(self)@.bytes.len() == 0 ==> r == Err::<(), JitError>(
                JitError::Resource,
            ),
            old(self)@.region is None ==> (r is Ok || r == Err::<(), JitError>(JitError::Resource)),
            r is Ok ==> final(self)@.region == Some(old(self)@.bytes),
            r is Err ==> *final(self) == *old(self),
    {
        if self.memory_map.is_some() {
            return Err(JitError::AlreadyMaterialized);
        }
        let mut writable = match memmap::MmapMut::map_anon(self.code.len()) {
            Ok(m) => m,
            Err(_) => {
                return Err(JitError::Resource);
            },
        };
        copy_into_region(&mut writable, self.code.as_slice());
        match writable.make_exec() {
            Ok(m) => {
                self.memory_map = Some(m);
                Ok(())
            },
            Err(_) => Err(JitError::Resource),
        }
    }

    /// The live executable region, whose first byte is the entry point of the
    /// code. Refused before the code has been materialized.
    pub fn executable_region(&self) -> (r: Result<&memmap::Mmap, JitError>)
        requires
            self.wf(),
        ensures
            r is Err <==> self@.region is None,
            r is Err ==> r == Err::<&memmap::Mmap, JitError>(JitError::NotMaterialized),
            r is Ok ==> executable_bytes(*r->Ok_0) == self@.bytes,
    {
        match &self.memory_map {
            Some(m) => Ok(m),
            None => Err(JitError::NotMaterialized),
        }
    }

    /// Whether a live executable region exists.
    pub fn is_materialized(&self) -> (r: bool)
        ensures
            r == (self@.region is Some),
    {
        self.memory_map.is_some()
    }

    /// The current machine code.
    pub fn as_bytes(&self) -> (r: &[u8])
        ensures
            r@ == self@.bytes,
    {
        self.code.as_slice()
    }

    /// The number of bytes of machine code.
    pub fn len(&self) -> (r: usize)
        ensures
            r == self@.bytes.len(),
    {
        self.code.len()
    }

    /// Whether there is no machine code yet.
    pub fn is_empty(&self) -> (r: bool)
        ensures
            r == (self@.bytes.len() == 0),
    {
        self.code.len() == 0
    }
}

} // verus!
