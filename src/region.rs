//! Anonymous memory regions, as provided by the `memmap` crate.
//!
//! A region is first mapped readable and writable, filled with code, and
//! then switched to readable and executable. It is never made writable again.
use vstd::prelude::*;

verus! {

#[verifier::external_type_specification]
#[verifier::external_body]
pub struct ExMmap(memmap::Mmap);

#[verifier::external_type_specification]
#[verifier::external_body]
pub struct ExMmapMut(memmap::MmapMut);

#[verifier::external_type_specification]
#[verifier::external_body]
pub struct ExIoError(std::io::Error);

/// What a writable region holds, byte by byte.
pub uninterp spec fn writable_bytes(m: memmap::MmapMut) -> Seq<u8>;

/// What an executable region holds, byte by byte.
pub uninterp spec fn executable_bytes(m: memmap::Mmap) -> Seq<u8>;

/// Relies on `memmap::MmapMut::map_anon`: a zero length is refused (the Unix
/// path checks it before calling `mmap`; on Windows the anonymous file
/// mapping of size zero is refused by the system), and a region that is
/// handed out has exactly the length asked for.
pub assume_specification[ memmap::MmapMut::map_anon ](length: usize) -> (r: std::io::Result<
    memmap::MmapMut,
>)
    ensures
        length == 0 ==> r is Err,
        r is Ok ==> writable_bytes(r->Ok_0).len() == length,
;

/// Relies on `memmap::MmapMut::make_exec`: the same mapping is switched to
/// readable and executable, so its contents are kept.
pub assume_specification[ memmap::MmapMut::make_exec ](m: memmap::MmapMut) -> (r:
    std::io::Result<memmap::Mmap>)
    ensures
        r is Ok ==> executable_bytes(r->Ok_0) == writable_bytes(m),
;

/// Relies on `DerefMut for memmap::MmapMut`, which lends out the whole region
/// as one slice: the region then holds exactly `src`.
#[verifier::external_body]
pub(crate) fn copy_into_region(dst: &mut memmap::MmapMut, src: &[u8])
    requires
        writable_bytes(*old(dst)).len() == src@.len(),
    ensures
        writable_bytes(*final(dst)) == src@,
{
    dst.copy_from_slice(src);
}

} // verus!
