use vstd::prelude::*;

use bumpalo::collections::Vec as BumpVec;

verus! {

/// bumpalo's arena-backed `Vec`, opaque here. What a code buffer or a
/// relocation list holds is named by `code_bytes` and `reloc_entries`.
#[verifier::external_type_specification]
#[verifier::external_body]
#[verifier::reject_recursive_types(T)]
pub struct ExBumpVec<'bump, T>(BumpVec<'bump, T>);

/// The bytes held by an arena-backed code buffer, in order.
pub uninterp spec fn code_bytes(v: BumpVec<u8>) -> Seq<u8>;

/// Relies on bumpalo's `Vec::extend_from_slice`: the slice is appended in order.
/// It panics with "capacity overflow" only when the buffer would pass
/// `isize::MAX` bytes, which `requires` rules out.
#[verifier::external_body]
pub(crate) fn emit_bytes(buf: &mut BumpVec<'_, u8>, bytes: &[u8])
    requires
        code_bytes(*old(buf)).len() + bytes@.len() <= isize::MAX,
    ensures
        code_bytes(*final(buf)) == code_bytes(*old(buf)) + bytes@,
{
    buf.extend_from_slice(bytes)
}

/// A deferred patch: the 32-bit displacement at `offset` in the code buffer
/// refers to the literal bytes `data`, which the linking layer places nearby.
#[derive(Debug, PartialEq, Eq)]
pub enum Relocation {
    LocalData { offset: u64, data: Vec<u8> },
}

/// The entries held by an arena-backed relocation list, in order.
pub uninterp spec fn reloc_entries(v: BumpVec<Relocation>) -> Seq<Relocation>;

/// A bound on the number of relocations that keeps the list's allocation far
/// below `isize::MAX` bytes.
pub open spec fn reloc_room(n: nat) -> bool {
    n < 0x0100_0000_0000_0000
}

/// Relies on bumpalo's `Vec::len`: the number of bytes held.
#[verifier::external_body]
pub(crate) fn code_len(buf: &BumpVec<'_, u8>) -> (r: usize)
    ensures
        r == code_bytes(*buf).len(),
{
    buf.len()
}

/// Relies on bumpalo's `Vec::push`: the entry is appended at the end. It panics
/// only when the list's allocation would pass `isize::MAX` bytes, which the
/// bound on the number of entries rules out.
#[verifier::external_body]
pub(crate) fn record(relocs: &mut BumpVec<'_, Relocation>, r: Relocation)
    requires
        reloc_room(reloc_entries(*old(relocs)).len() + 1),
    ensures
        reloc_entries(*final(relocs)) == reloc_entries(*old(relocs)).push(r),
{
    relocs.push(r)
}

} // verus!
