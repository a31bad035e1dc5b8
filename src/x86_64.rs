use vstd::prelude::*;

use bumpalo::collections::Vec as BumpVec;

use crate::code_buf::{code_bytes, code_len, emit_bytes, record, reloc_entries, reloc_room, Relocation};

verus! {

/// General-purpose registers of x86-64, in architectural encoding order.
#[derive(Copy, Clone, PartialEq, Eq, Structural, Hash, PartialOrd, Ord, Debug)]
pub enum X86_64GPReg {
    RAX,
    RCX,
    RDX,
    RBX,
    RSP,
    RBP,
    RSI,
    RDI,
    R8,
    R9,
    R10,
    R11,
    R12,
    R13,
    R14,
    R15,
}

/// SSE registers of x86-64, in architectural encoding order.
#[derive(Copy, Clone, PartialEq, Eq, Structural, Hash, PartialOrd, Ord, Debug)]
pub enum X86_64FPReg {
    XMM0,
    XMM1,
    XMM2,
    XMM3,
    XMM4,
    XMM5,
    XMM6,
    XMM7,
    XMM8,
    XMM9,
    XMM10,
    XMM11,
    XMM12,
    XMM13,
    XMM14,
    XMM15,
}

impl X86_64GPReg {
    /// The architectural register number.
    pub open spec fn ord(self) -> u8 {
        match self {
            X86_64GPReg::RAX => 0,
            X86_64GPReg::RCX => 1,
            X86_64GPReg::RDX => 2,
            X86_64GPReg::RBX => 3,
            X86_64GPReg::RSP => 4,
            X86_64GPReg::RBP => 5,
            X86_64GPReg::RSI => 6,
            X86_64GPReg::RDI => 7,
            X86_64GPReg::R8 => 8,
            X86_64GPReg::R9 => 9,
            X86_64GPReg::R10 => 10,
            X86_64GPReg::R11 => 11,
            X86_64GPReg::R12 => 12,
            X86_64GPReg::R13 => 13,
            X86_64GPReg::R14 => 14,
            X86_64GPReg::R15 => 15,
        }
    }

    pub fn value(self) -> (r: u8)
        ensures
            r == self.ord(),
            r < 16,
    {
        match self {
            X86_64GPReg::RAX => 0,
            X86_64GPReg::RCX => 1,
            X86_64GPReg::RDX => 2,
            X86_64GPReg::RBX => 3,
            X86_64GPReg::RSP => 4,
            X86_64GPReg::RBP => 5,
            X86_64GPReg::RSI => 6,
            X86_64GPReg::RDI => 7,
            X86_64GPReg::R8 => 8,
            X86_64GPReg::R9 => 9,
            X86_64GPReg::R10 => 10,
            X86_64GPReg::R11 => 11,
            X86_64GPReg::R12 => 12,
            X86_64GPReg::R13 => 13,
            X86_64GPReg::R14 => 14,
            X86_64GPReg::R15 => 15,
        }
    }
}

impl X86_64FPReg {
    /// The architectural register number.
    pub open spec fn ord(self) -> u8 {
        match self {
            X86_64FPReg::XMM0 => 0,
            X86_64FPReg::XMM1 => 1,
            X86_64FPReg::XMM2 => 2,
            X86_64FPReg::XMM3 => 3,
            X86_64FPReg::XMM4 => 4,
            X86_64FPReg::XMM5 => 5,
            X86_64FPReg::XMM6 => 6,
            X86_64FPReg::XMM7 => 7,
            X86_64FPReg::XMM8 => 8,
            X86_64FPReg::XMM9 => 9,
            X86_64FPReg::XMM10 => 10,
            X86_64FPReg::XMM11 => 11,
            X86_64FPReg::XMM12 => 12,
            X86_64FPReg::XMM13 => 13,
            X86_64FPReg::XMM14 => 14,
            X86_64FPReg::XMM15 => 15,
        }
    }

    pub fn value(self) -> (r: u8)
        ensures
            r == self.ord(),
            r < 16,
    {
        match self {
            X86_64FPReg::XMM0 => 0,
            X86_64FPReg::XMM1 => 1,
            X86_64FPReg::XMM2 => 2,
            X86_64FPReg::XMM3 => 3,
            X86_64FPReg::XMM4 => 4,
            X86_64FPReg::XMM5 => 5,
            X86_64FPReg::XMM6 => 6,
            X86_64FPReg::XMM7 => 7,
            X86_64FPReg::XMM8 => 8,
            X86_64FPReg::XMM9 => 9,
            X86_64FPReg::XMM10 => 10,
            X86_64FPReg::XMM11 => 11,
            X86_64FPReg::XMM12 => 12,
            X86_64FPReg::XMM13 => 13,
            X86_64FPReg::XMM14 => 14,
            X86_64FPReg::XMM15 => 15,
        }
    }
}

pub const REX: u8 = 0x40;

pub const REX_W: u8 = 0x48;

/// Sets REX.B when `reg` is one of R8..R15.
pub open spec fn rm_ext(reg: X86_64GPReg, byte: u8) -> u8 {
    if reg.ord() > 7 {
        (byte + 1) as u8
    } else {
        byte
    }
}

/// Sets REX.R when `reg` is one of R8..R15.
pub open spec fn reg_ext(reg: X86_64GPReg, byte: u8) -> u8 {
    if reg.ord() > 7 {
        (byte + 4) as u8
    } else {
        byte
    }
}

/// A register-direct ModR/M byte with `rm` in the low bits and `reg` in bits 3..5.
pub open spec fn modrm(base: u8, rm: u8, reg: u8) -> u8 {
    (base + rm % 8 + (reg % 8) * 8) as u8
}

/// The four little-endian bytes of a 32-bit two's complement value.
pub open spec fn le32(v: int) -> Seq<u8> {
    let u = if v < 0 { v + 0x1_0000_0000 } else { v };
    seq![
        (u % 0x100) as u8,
        (u / 0x100 % 0x100) as u8,
        (u / 0x1_0000 % 0x100) as u8,
        (u / 0x100_0000 % 0x100) as u8,
    ]
}

/// The eight little-endian bytes of a 64-bit two's complement value.
pub open spec fn le64(v: int) -> Seq<u8> {
    let u = if v < 0 { v + 0x1_0000_0000_0000_0000 } else { v };
    le32(u % 0x1_0000_0000) + le32(u / 0x1_0000_0000)
}

pub fn add_rm_extension(reg: X86_64GPReg, byte: u8) -> (r: u8)
    requires
        byte < 255,
    ensures
        r == rm_ext(reg, byte),
{
    if reg.value() > 7 {
        byte + 1
    } else {
        byte
    }
}

pub fn add_opcode_extension(reg: X86_64GPReg, byte: u8) -> (r: u8)
    requires
        byte < 255,
    ensures
        r == rm_ext(reg, byte),
{
    add_rm_extension(reg, byte)
}

pub fn add_reg_extension(reg: X86_64GPReg, byte: u8) -> (r: u8)
    requires
        byte < 252,
    ensures
        r == reg_ext(reg, byte),
{
    if reg.value() > 7 {
        byte + 4
    } else {
        byte
    }
}

/// There is room in a buffer holding `code` for `n` more bytes.
pub open spec fn has_room(code: Seq<u8>, n: int) -> bool {
    code.len() + n <= isize::MAX
}

/// Appends the little-endian bytes of a 32-bit value.
fn emit_u32(buf: &mut BumpVec<'_, u8>, u: u32)
    requires
        has_room(code_bytes(*old(buf)), 4),
    ensures
        code_bytes(*final(buf)) == code_bytes(*old(buf)) + le32(u as int),
{
    let b0 = (u % 0x100) as u8;
    let b1 = (u / 0x100 % 0x100) as u8;
    let b2 = (u / 0x1_0000 % 0x100) as u8;
    let b3 = (u / 0x100_0000 % 0x100) as u8;
    emit_bytes(buf, &[b0, b1, b2, b3]);
    proof {
        assert(seq![b0, b1, b2, b3] =~= le32(u as int));
    }
}

/// Appends the little-endian bytes of a 32-bit signed value.
fn emit_i32(buf: &mut BumpVec<'_, u8>, v: i32)
    requires
        has_room(code_bytes(*old(buf)), 4),
    ensures
        code_bytes(*final(buf)) == code_bytes(*old(buf)) + le32(v as int),
{
    let u: u32 = if v < 0 {
        (v as i64 + 0x1_0000_0000) as u32
    } else {
        v as u32
    };
    emit_u32(buf, u);
}

/// Appends the little-endian bytes of a 64-bit unsigned value.
fn emit_u64(buf: &mut BumpVec<'_, u8>, u: u64)
    requires
        has_room(code_bytes(*old(buf)), 8),
    ensures
        code_bytes(*final(buf)) == code_bytes(*old(buf)) + le64(u as int),
{
    emit_u32(buf, (u % 0x1_0000_0000) as u32);
    emit_u32(buf, (u / 0x1_0000_0000) as u32);
    proof {
        assert(code_bytes(*final(buf)) =~= code_bytes(*old(buf)) + le64(u as int));
    }
}

/// Appends the little-endian bytes of a 64-bit signed value.
fn emit_i64(buf: &mut BumpVec<'_, u8>, v: i64)
    requires
        has_room(code_bytes(*old(buf)), 8),
    ensures
        code_bytes(*final(buf)) == code_bytes(*old(buf)) + le64(v as int),
{
    let u: u64 = if v < 0 {
        (v as i128 + 0x1_0000_0000_0000_0000) as u64
    } else {
        v as u64
    };
    emit_u64(buf, u);
}

/// `ADD r/m64, imm32`.
pub open spec fn add_reg64_imm32_code(dst: X86_64GPReg, imm: i32) -> Seq<u8> {
    seq![rm_ext(dst, REX_W), 0x81u8, modrm(0xC0, dst.ord(), 0)] + le32(imm as int)
}

/// `ADD r/m64, r64`.
pub open spec fn add_reg64_reg64_code(dst: X86_64GPReg, src: X86_64GPReg) -> Seq<u8> {
    seq![reg_ext(src, rm_ext(dst, REX_W)), 0x01u8, modrm(0xC0, dst.ord(), src.ord())]
}

/// `SUB r/m64, r64`.
pub open spec fn sub_reg64_reg64_code(dst: X86_64GPReg, src: X86_64GPReg) -> Seq<u8> {
    seq![reg_ext(src, rm_ext(dst, REX_W)), 0x29u8, modrm(0xC0, dst.ord(), src.ord())]
}

/// `CMOVL r64, r/m64`.
pub open spec fn cmovl_reg64_reg64_code(dst: X86_64GPReg, src: X86_64GPReg) -> Seq<u8> {
    seq![rm_ext(src, reg_ext(dst, REX_W)), 0x0Fu8, 0x4Cu8, modrm(0xC0, src.ord(), dst.ord())]
}

/// `MOV r/m64, imm32`, sign-extended.
pub open spec fn mov_reg64_imm32_code(dst: X86_64GPReg, imm: i32) -> Seq<u8> {
    seq![rm_ext(dst, REX_W), 0xC7u8, modrm(0xC0, dst.ord(), 0)] + le32(imm as int)
}

/// `MOV r64, imm64`, shortened to the sign-extended imm32 form when the value fits.
pub open spec fn mov_reg64_imm64_code(dst: X86_64GPReg, imm: i64) -> Seq<u8> {
    if i32::MIN <= imm <= i32::MAX {
        mov_reg64_imm32_code(dst, imm as i32)
    } else {
        seq![rm_ext(dst, REX_W), modrm(0xB8, dst.ord(), 0)] + le64(imm as int)
    }
}

/// `MOV r/m64, r64`.
pub open spec fn mov_reg64_reg64_code(dst: X86_64GPReg, src: X86_64GPReg) -> Seq<u8> {
    seq![reg_ext(src, rm_ext(dst, REX_W)), 0x89u8, modrm(0xC0, dst.ord(), src.ord())]
}

/// `MOV r64, [RSP + disp32]`.
pub open spec fn mov_reg64_stack32_code(dst: X86_64GPReg, offset: i32) -> Seq<u8> {
    seq![reg_ext(dst, REX_W), 0x8Bu8, modrm(0x84, 0, dst.ord()), 0x24u8] + le32(offset as int)
}

/// `MOV [RSP + disp32], r64`.
pub open spec fn mov_stack32_reg64_code(offset: i32, src: X86_64GPReg) -> Seq<u8> {
    seq![reg_ext(src, REX_W), 0x89u8, modrm(0x84, 0, src.ord()), 0x24u8] + le32(offset as int)
}

/// `MOVSD xmm1, xmm2`.
pub open spec fn movsd_freg64_freg64_code(dst: X86_64FPReg, src: X86_64FPReg) -> Seq<u8> {
    if dst.ord() > 7 || src.ord() > 7 {
        seq![
            0xF2u8,
            (0x40 + (if dst.ord() > 7 { 4int } else { 0 }) + (if src.ord() > 7 { 1int } else { 0 })) as u8,
            0x0Fu8,
            0x10u8,
            modrm(0xC0, src.ord(), dst.ord()),
        ]
    } else {
        seq![0xF2u8, 0x0Fu8, 0x10u8, modrm(0xC0, src.ord(), dst.ord())]
    }
}

/// `MOVSD xmm, [RIP + disp32]`.
pub open spec fn movsd_freg64_rip_offset32_code(dst: X86_64FPReg, offset: u32) -> Seq<u8> {
    if dst.ord() > 7 {
        seq![0xF2u8, 0x44u8, 0x0Fu8, 0x10u8, modrm(0x05, 0, dst.ord())] + le32(offset as int)
    } else {
        seq![0xF2u8, 0x0Fu8, 0x10u8, modrm(0x05, 0, dst.ord())] + le32(offset as int)
    }
}

/// `NEG r/m64`.
pub open spec fn neg_reg64_code(reg: X86_64GPReg) -> Seq<u8> {
    seq![rm_ext(reg, REX_W), 0xF7u8, modrm(0xD8, reg.ord(), 0)]
}

/// `RET`.
pub open spec fn ret_code() -> Seq<u8> {
    seq![0xC3u8]
}

/// `SUB r/m64, imm32`.
pub open spec fn sub_reg64_imm32_code(dst: X86_64GPReg, imm: i32) -> Seq<u8> {
    seq![rm_ext(dst, REX_W), 0x81u8, modrm(0xE8, dst.ord(), 0)] + le32(imm as int)
}

/// `POP r64`.
pub open spec fn pop_reg64_code(reg: X86_64GPReg) -> Seq<u8> {
    if reg.ord() > 7 {
        seq![rm_ext(reg, REX), modrm(0x58, reg.ord(), 0)]
    } else {
        seq![modrm(0x58, reg.ord(), 0)]
    }
}

/// `PUSH r64`.
pub open spec fn push_reg64_code(reg: X86_64GPReg) -> Seq<u8> {
    if reg.ord() > 7 {
        seq![rm_ext(reg, REX), modrm(0x50, reg.ord(), 0)]
    } else {
        seq![modrm(0x50, reg.ord(), 0)]
    }
}

/// Appends the little-endian bytes of a 32-bit value to a vector.
fn push_le32(v: &mut Vec<u8>, u: u32)
    ensures
        final(v)@ == old(v)@ + le32(u as int),
{
    v.push((u % 0x100) as u8);
    v.push((u / 0x100 % 0x100) as u8);
    v.push((u / 0x1_0000 % 0x100) as u8);
    v.push((u / 0x100_0000 % 0x100) as u8);
    proof {
        assert(final(v)@ =~= old(v)@ + le32(u as int));
    }
}

/// The little-endian bytes of a 64-bit value.
fn le64_vec(u: u64) -> (r: Vec<u8>)
    ensures
        r@ == le64(u as int),
{
    let mut v: Vec<u8> = Vec::new();
    push_le32(&mut v, (u % 0x1_0000_0000) as u32);
    push_le32(&mut v, (u / 0x1_0000_0000) as u32);
    proof {
        assert(v@ =~= le64(u as int));
    }
    v
}

/// `ADD r/m64, imm32` -> Add imm32 sign-extended to 64-bits to r/m64.
pub fn add_reg64_imm32(buf: &mut BumpVec<'_, u8>, dst: X86_64GPReg, imm: i32)
    requires
        has_room(code_bytes(*old(buf)), 7),
    ensures
        code_bytes(*final(buf)) == code_bytes(*old(buf)) + add_reg64_imm32_code(dst, imm),
{
    let rex = add_rm_extension(dst, REX_W);
    let dst_mod = dst.value() % 8;
    emit_bytes(buf, &[rex, 0x81, 0xC0 + dst_mod]);
    emit_i32(buf, imm);
    proof {
        assert(code_bytes(*final(buf)) =~= code_bytes(*old(buf)) + add_reg64_imm32_code(dst, imm));
    }
}

/// `ADD r/m64, r64` -> Add r64 to r/m64.
pub fn add_reg64_reg64(buf: &mut BumpVec<'_, u8>, dst: X86_64GPReg, src: X86_64GPReg)
    requires
        has_room(code_bytes(*old(buf)), 3),
    ensures
        code_bytes(*final(buf)) == code_bytes(*old(buf)) + add_reg64_reg64_code(dst, src),
{
    let rex = add_rm_extension(dst, REX_W);
    let rex = add_reg_extension(src, rex);
    let dst_mod = dst.value() % 8;
    let src_mod = (src.value() % 8) * 8;
    emit_bytes(buf, &[rex, 0x01, 0xC0 + dst_mod + src_mod]);
}

/// `SUB r/m64, r64` -> Subtract r64 from r/m64.
pub fn sub_reg64_reg64(buf: &mut BumpVec<'_, u8>, dst: X86_64GPReg, src: X86_64GPReg)
    requires
        has_room(code_bytes(*old(buf)), 3),
    ensures
        code_bytes(*final(buf)) == code_bytes(*old(buf)) + sub_reg64_reg64_code(dst, src),
{
    let rex = add_rm_extension(dst, REX_W);
    let rex = add_reg_extension(src, rex);
    let dst_mod = dst.value() % 8;
    let src_mod = (src.value() % 8) * 8;
    emit_bytes(buf, &[rex, 0x29, 0xC0 + dst_mod + src_mod]);
}

/// `CMOVL r64, r/m64` -> Move if less (SF != OF).
pub fn cmovl_reg64_reg64(buf: &mut BumpVec<'_, u8>, dst: X86_64GPReg, src: X86_64GPReg)
    requires
        has_room(code_bytes(*old(buf)), 4),
    ensures
        code_bytes(*final(buf)) == code_bytes(*old(buf)) + cmovl_reg64_reg64_code(dst, src),
{
    let rex = add_reg_extension(dst, REX_W);
    let rex = add_rm_extension(src, rex);
    let dst_mod = (dst.value() % 8) * 8;
    let src_mod = src.value() % 8;
    emit_bytes(buf, &[rex, 0x0F, 0x4C, 0xC0 + dst_mod + src_mod]);
}

/// `MOV r/m64, imm32` -> Move imm32 sign-extended to 64-bits to r/m64.
pub fn mov_reg64_imm32(buf: &mut BumpVec<'_, u8>, dst: X86_64GPReg, imm: i32)
    requires
        has_room(code_bytes(*old(buf)), 7),
    ensures
        code_bytes(*final(buf)) == code_bytes(*old(buf)) + mov_reg64_imm32_code(dst, imm),
{
    let rex = add_rm_extension(dst, REX_W);
    let dst_mod = dst.value() % 8;
    emit_bytes(buf, &[rex, 0xC7, 0xC0 + dst_mod]);
    emit_i32(buf, imm);
    proof {
        assert(code_bytes(*final(buf)) =~= code_bytes(*old(buf)) + mov_reg64_imm32_code(dst, imm));
    }
}

/// `MOV r64, imm64` -> Move imm64 to r64, in the short form when it fits in 32 bits.
pub fn mov_reg64_imm64(buf: &mut BumpVec<'_, u8>, dst: X86_64GPReg, imm: i64)
    requires
        has_room(code_bytes(*old(buf)), 10),
    ensures
        code_bytes(*final(buf)) == code_bytes(*old(buf)) + mov_reg64_imm64_code(dst, imm),
{
    if imm <= i32::MAX as i64 && imm >= i32::MIN as i64 {
        mov_reg64_imm32(buf, dst, imm as i32);
    } else {
        let rex = add_opcode_extension(dst, REX_W);
        let dst_mod = dst.value() % 8;
        emit_bytes(buf, &[rex, 0xB8 + dst_mod]);
        emit_i64(buf, imm);
        proof {
            assert(code_bytes(*final(buf)) =~= code_bytes(*old(buf)) + mov_reg64_imm64_code(dst, imm));
        }
    }
}

/// `MOV r/m64, r64` -> Move r64 to r/m64.
pub fn mov_reg64_reg64(buf: &mut BumpVec<'_, u8>, dst: X86_64GPReg, src: X86_64GPReg)
    requires
        has_room(code_bytes(*old(buf)), 3),
    ensures
        code_bytes(*final(buf)) == code_bytes(*old(buf)) + mov_reg64_reg64_code(dst, src),
{
    let rex = add_rm_extension(dst, REX_W);
    let rex = add_reg_extension(src, rex);
    let dst_mod = dst.value() % 8;
    let src_mod = (src.value() % 8) * 8;
    emit_bytes(buf, &[rex, 0x89, 0xC0 + dst_mod + src_mod]);
}

/// `MOV r64, r/m64` -> Load r64 from the stack at `RSP + offset`.
pub fn mov_reg64_stack32(buf: &mut BumpVec<'_, u8>, dst: X86_64GPReg, offset: i32)
    requires
        has_room(code_bytes(*old(buf)), 8),
    ensures
        code_bytes(*final(buf)) == code_bytes(*old(buf)) + mov_reg64_stack32_code(dst, offset),
{
    let rex = add_reg_extension(dst, REX_W);
    let dst_mod = (dst.value() % 8) * 8;
    emit_bytes(buf, &[rex, 0x8B, 0x84 + dst_mod, 0x24]);
    emit_i32(buf, offset);
    proof {
        assert(code_bytes(*final(buf)) =~= code_bytes(*old(buf)) + mov_reg64_stack32_code(dst, offset));
    }
}

/// `MOV r/m64, r64` -> Store r64 to the stack at `RSP + offset`.
pub fn mov_stack32_reg64(buf: &mut BumpVec<'_, u8>, offset: i32, src: X86_64GPReg)
    requires
        has_room(code_bytes(*old(buf)), 8),
    ensures
        code_bytes(*final(buf)) == code_bytes(*old(buf)) + mov_stack32_reg64_code(offset, src),
{
    let rex = add_reg_extension(src, REX_W);
    let src_mod = (src.value() % 8) * 8;
    emit_bytes(buf, &[rex, 0x89, 0x84 + src_mod, 0x24]);
    emit_i32(buf, offset);
    proof {
        assert(code_bytes(*final(buf)) =~= code_bytes(*old(buf)) + mov_stack32_reg64_code(offset, src));
    }
}

/// `MOVSD xmm1, xmm2` -> Move the scalar double from xmm2 to xmm1.
pub fn movsd_freg64_freg64(buf: &mut BumpVec<'_, u8>, dst: X86_64FPReg, src: X86_64FPReg)
    requires
        has_room(code_bytes(*old(buf)), 5),
    ensures
        code_bytes(*final(buf)) == code_bytes(*old(buf)) + movsd_freg64_freg64_code(dst, src),
{
    let dst_high = dst.value() > 7;
    let dst_mod = dst.value() % 8;
    let src_high = src.value() > 7;
    let src_mod = src.value() % 8;
    if dst_high || src_high {
        let r: u8 = if dst_high { 4 } else { 0 };
        let b: u8 = if src_high { 1 } else { 0 };
        emit_bytes(buf, &[0xF2, 0x40 + r + b, 0x0F, 0x10, 0xC0 + dst_mod * 8 + src_mod]);
    } else {
        emit_bytes(buf, &[0xF2, 0x0F, 0x10, 0xC0 + dst_mod * 8 + src_mod]);
    }
}

/// `MOVSD xmm, m64` -> Load the scalar double at `RIP + offset` into xmm.
pub fn movsd_freg64_rip_offset32(buf: &mut BumpVec<'_, u8>, dst: X86_64FPReg, offset: u32)
    requires
        has_room(code_bytes(*old(buf)), 9),
    ensures
        code_bytes(*final(buf)) == code_bytes(*old(buf)) + movsd_freg64_rip_offset32_code(dst, offset),
{
    let dst_mod = dst.value() % 8;
    if dst.value() > 7 {
        emit_bytes(buf, &[0xF2, 0x44, 0x0F, 0x10, 0x05 + dst_mod * 8]);
    } else {
        emit_bytes(buf, &[0xF2, 0x0F, 0x10, 0x05 + dst_mod * 8]);
    }
    emit_u32(buf, offset);
    proof {
        assert(code_bytes(*final(buf)) =~= code_bytes(*old(buf)) + movsd_freg64_rip_offset32_code(dst, offset));
    }
}

/// `NEG r/m64` -> Two's complement negate r/m64.
pub fn neg_reg64(buf: &mut BumpVec<'_, u8>, reg: X86_64GPReg)
    requires
        has_room(code_bytes(*old(buf)), 3),
    ensures
        code_bytes(*final(buf)) == code_bytes(*old(buf)) + neg_reg64_code(reg),
{
    let rex = add_rm_extension(reg, REX_W);
    let reg_mod = reg.value() % 8;
    emit_bytes(buf, &[rex, 0xF7, 0xD8 + reg_mod]);
}

/// `RET` -> Near return to the calling procedure.
pub fn ret(buf: &mut BumpVec<'_, u8>)
    requires
        has_room(code_bytes(*old(buf)), 1),
    ensures
        code_bytes(*final(buf)) == code_bytes(*old(buf)) + ret_code(),
{
    emit_bytes(buf, &[0xC3]);
}

/// `SUB r/m64, imm32` -> Subtract imm32 sign-extended to 64-bits from r/m64.
pub fn sub_reg64_imm32(buf: &mut BumpVec<'_, u8>, dst: X86_64GPReg, imm: i32)
    requires
        has_room(code_bytes(*old(buf)), 7),
    ensures
        code_bytes(*final(buf)) == code_bytes(*old(buf)) + sub_reg64_imm32_code(dst, imm),
{
    let rex = add_rm_extension(dst, REX_W);
    let dst_mod = dst.value() % 8;
    emit_bytes(buf, &[rex, 0x81, 0xE8 + dst_mod]);
    emit_i32(buf, imm);
    proof {
        assert(code_bytes(*final(buf)) =~= code_bytes(*old(buf)) + sub_reg64_imm32_code(dst, imm));
    }
}

/// `POP r64` -> Pop the top of the stack into r64.
pub fn pop_reg64(buf: &mut BumpVec<'_, u8>, reg: X86_64GPReg)
    requires
        has_room(code_bytes(*old(buf)), 2),
    ensures
        code_bytes(*final(buf)) == code_bytes(*old(buf)) + pop_reg64_code(reg),
{
    let reg_mod = reg.value() % 8;
    if reg.value() > 7 {
        let rex = add_opcode_extension(reg, REX);
        emit_bytes(buf, &[rex, 0x58 + reg_mod]);
    } else {
        emit_bytes(buf, &[0x58 + reg_mod]);
    }
}

/// `PUSH r64` -> Push r64 onto the stack.
pub fn push_reg64(buf: &mut BumpVec<'_, u8>, reg: X86_64GPReg)
    requires
        has_room(code_bytes(*old(buf)), 2),
    ensures
        code_bytes(*final(buf)) == code_bytes(*old(buf)) + push_reg64_code(reg),
{
    let reg_mod = reg.value() % 8;
    if reg.value() > 7 {
        let rex = add_opcode_extension(reg, REX);
        emit_bytes(buf, &[rex, 0x50 + reg_mod]);
    } else {
        emit_bytes(buf, &[0x50 + reg_mod]);
    }
}

/// The assembler for x86-64: three-address operations built from the instructions above.
pub struct X86_64Assembler {}

/// The Windows x64 calling convention.
pub struct X86_64WindowsFastcall {}

/// The System V AMD64 calling convention.
pub struct X86_64SystemV {}

pub open spec fn abs_reg64_reg64_code(dst: X86_64GPReg, src: X86_64GPReg) -> Seq<u8> {
    mov_reg64_reg64_code(dst, src) + neg_reg64_code(dst) + cmovl_reg64_reg64_code(dst, src)
}

pub open spec fn add_reg64_reg64_imm32_code(dst: X86_64GPReg, src1: X86_64GPReg, imm: i32) -> Seq<u8> {
    if dst == src1 {
        add_reg64_imm32_code(dst, imm)
    } else {
        mov_reg64_reg64_code(dst, src1) + add_reg64_imm32_code(dst, imm)
    }
}

pub open spec fn add_reg64_reg64_reg64_code(
    dst: X86_64GPReg,
    src1: X86_64GPReg,
    src2: X86_64GPReg,
) -> Seq<u8> {
    if dst == src1 {
        add_reg64_reg64_code(dst, src2)
    } else if dst == src2 {
        add_reg64_reg64_code(dst, src1)
    } else {
        mov_reg64_reg64_code(dst, src1) + add_reg64_reg64_code(dst, src2)
    }
}

pub open spec fn sub_reg64_reg64_imm32_code(dst: X86_64GPReg, src1: X86_64GPReg, imm: i32) -> Seq<u8> {
    if dst == src1 {
        sub_reg64_imm32_code(dst, imm)
    } else {
        mov_reg64_reg64_code(dst, src1) + sub_reg64_imm32_code(dst, imm)
    }
}

pub open spec fn sub_reg64_reg64_reg64_code(
    dst: X86_64GPReg,
    src1: X86_64GPReg,
    src2: X86_64GPReg,
) -> Seq<u8> {
    if dst == src1 {
        sub_reg64_reg64_code(dst, src2)
    } else {
        mov_reg64_reg64_code(dst, src1) + sub_reg64_reg64_code(dst, src2)
    }
}

/// Adding into the second source register reuses the commutativity of addition:
/// the code is a single `ADD dst, src1`.
pub proof fn lemma_add_into_second_source(dst: X86_64GPReg, src1: X86_64GPReg, src2: X86_64GPReg)
    requires
        dst == src2,
        src1 != src2,
    ensures
        add_reg64_reg64_reg64_code(dst, src1, src2) == add_reg64_reg64_code(dst, src1),
{
}

/// Subtraction does not commute: subtracting into the second source register
/// moves the first source into place and then subtracts.
pub proof fn lemma_sub_into_second_source(dst: X86_64GPReg, src1: X86_64GPReg, src2: X86_64GPReg)
    requires
        dst == src2,
        src1 != src2,
    ensures
        sub_reg64_reg64_reg64_code(dst, src1, src2)
            == mov_reg64_reg64_code(dst, src1) + sub_reg64_reg64_code(dst, src2),
{
}

impl X86_64Assembler {
    /// `dst = |src|`: copy, negate, and take the source back when the negation is negative.
    pub fn abs_reg64_reg64(buf: &mut BumpVec<'_, u8>, dst: X86_64GPReg, src: X86_64GPReg)
        requires
            has_room(code_bytes(*old(buf)), 10),
        ensures
            code_bytes(*final(buf)) == code_bytes(*old(buf)) + abs_reg64_reg64_code(dst, src),
    {
        mov_reg64_reg64(buf, dst, src);
        neg_reg64(buf, dst);
        cmovl_reg64_reg64(buf, dst, src);
        proof {
            assert(code_bytes(*final(buf)) =~= code_bytes(*old(buf)) + abs_reg64_reg64_code(dst, src));
        }
    }

    /// `dst = src1 + imm32`.
    pub fn add_reg64_reg64_imm32(buf: &mut BumpVec<'_, u8>, dst: X86_64GPReg, src1: X86_64GPReg, imm32: i32)
        requires
            has_room(code_bytes(*old(buf)), 10),
        ensures
            code_bytes(*final(buf)) == code_bytes(*old(buf)) + add_reg64_reg64_imm32_code(dst, src1, imm32),
    {
        if dst == src1 {
            add_reg64_imm32(buf, dst, imm32);
        } else {
            mov_reg64_reg64(buf, dst, src1);
            add_reg64_imm32(buf, dst, imm32);
            proof {
                assert(code_bytes(*final(buf)) =~= code_bytes(*old(buf)) + add_reg64_reg64_imm32_code(dst, src1, imm32));
            }
        }
    }

    /// `dst = src1 + src2`.
    pub fn add_reg64_reg64_reg64(
        buf: &mut BumpVec<'_, u8>,
        dst: X86_64GPReg,
        src1: X86_64GPReg,
        src2: X86_64GPReg,
    )
        requires
            has_room(code_bytes(*old(buf)), 6),
        ensures
            code_bytes(*final(buf)) == code_bytes(*old(buf)) + add_reg64_reg64_reg64_code(dst, src1, src2),
    {
        if dst == src1 {
            add_reg64_reg64(buf, dst, src2);
        } else if dst == src2 {
            add_reg64_reg64(buf, dst, src1);
        } else {
            mov_reg64_reg64(buf, dst, src1);
            add_reg64_reg64(buf, dst, src2);
            proof {
                assert(code_bytes(*final(buf)) =~= code_bytes(*old(buf)) + add_reg64_reg64_reg64_code(dst, src1, src2));
            }
        }
    }

    /// Loads the double whose bits are `imm_bits` into `dst`: a RIP-relative `MOVSD`
    /// whose displacement is recorded as a relocation to the eight literal bytes.
    pub fn mov_freg64_imm64(
        buf: &mut BumpVec<'_, u8>,
        relocs: &mut BumpVec<'_, Relocation>,
        dst: X86_64FPReg,
        imm_bits: u64,
    )
        requires
            has_room(code_bytes(*old(buf)), 9),
            reloc_room(reloc_entries(*old(relocs)).len() + 1),
        ensures
            code_bytes(*final(buf)) == code_bytes(*old(buf)) + movsd_freg64_rip_offset32_code(dst, 0),
            reloc_entries(*final(relocs)).len() == reloc_entries(*old(relocs)).len() + 1,
            reloc_entries(*final(relocs)).drop_last() == reloc_entries(*old(relocs)),
            ({
                let Relocation::LocalData { offset, data } = reloc_entries(*final(relocs)).last();
                &&& offset == code_bytes(*final(buf)).len() - 4
                &&& data@ == le64(imm_bits as int)
            }),
    {
        movsd_freg64_rip_offset32(buf, dst, 0);
        let len = code_len(buf);
        let data = le64_vec(imm_bits);
        record(relocs, Relocation::LocalData { offset: len as u64 - 4, data });
        proof {
            assert(reloc_entries(*final(relocs)).drop_last() =~= reloc_entries(*old(relocs)));
        }
    }

    pub fn mov_reg64_imm64(buf: &mut BumpVec<'_, u8>, dst: X86_64GPReg, imm: i64)
        requires
            has_room(code_bytes(*old(buf)), 10),
        ensures
            code_bytes(*final(buf)) == code_bytes(*old(buf)) + mov_reg64_imm64_code(dst, imm),
    {
        mov_reg64_imm64(buf, dst, imm);
    }

    pub fn mov_freg64_freg64(buf: &mut BumpVec<'_, u8>, dst: X86_64FPReg, src: X86_64FPReg)
        requires
            has_room(code_bytes(*old(buf)), 5),
        ensures
            code_bytes(*final(buf)) == code_bytes(*old(buf)) + movsd_freg64_freg64_code(dst, src),
    {
        movsd_freg64_freg64(buf, dst, src);
    }

    pub fn mov_reg64_reg64(buf: &mut BumpVec<'_, u8>, dst: X86_64GPReg, src: X86_64GPReg)
        requires
            has_room(code_bytes(*old(buf)), 3),
        ensures
            code_bytes(*final(buf)) == code_bytes(*old(buf)) + mov_reg64_reg64_code(dst, src),
    {
        mov_reg64_reg64(buf, dst, src);
    }

    pub fn mov_reg64_stack32(buf: &mut BumpVec<'_, u8>, dst: X86_64GPReg, offset: i32)
        requires
            has_room(code_bytes(*old(buf)), 8),
        ensures
            code_bytes(*final(buf)) == code_bytes(*old(buf)) + mov_reg64_stack32_code(dst, offset),
    {
        mov_reg64_stack32(buf, dst, offset);
    }

    /// Spilling a floating-point register to the stack is not supported on this
    /// target: the call fails and the buffer is left as it was.
    pub fn mov_stack32_freg64(buf: &mut BumpVec<'_, u8>, offset: i32, src: X86_64FPReg) -> (r: Result<(), String>)
        ensures
            code_bytes(*final(buf)) == code_bytes(*old(buf)),
            r matches Err(e) && e@ == "saving floating point reg to stack not yet implemented for X86_64"@,
    {
        Err("saving floating point reg to stack not yet implemented for X86_64".to_owned())
    }

    pub fn mov_stack32_reg64(buf: &mut BumpVec<'_, u8>, offset: i32, src: X86_64GPReg)
        requires
            has_room(code_bytes(*old(buf)), 8),
        ensures
            code_bytes(*final(buf)) == code_bytes(*old(buf)) + mov_stack32_reg64_code(offset, src),
    {
        mov_stack32_reg64(buf, offset, src);
    }

    /// `dst = src1 - imm32`.
    pub fn sub_reg64_reg64_imm32(buf: &mut BumpVec<'_, u8>, dst: X86_64GPReg, src1: X86_64GPReg, imm32: i32)
        requires
            has_room(code_bytes(*old(buf)), 10),
        ensures
            code_bytes(*final(buf)) == code_bytes(*old(buf)) + sub_reg64_reg64_imm32_code(dst, src1, imm32),
    {
        if dst == src1 {
            sub_reg64_imm32(buf, dst, imm32);
        } else {
            mov_reg64_reg64(buf, dst, src1);
            sub_reg64_imm32(buf, dst, imm32);
            proof {
                assert(code_bytes(*final(buf)) =~= code_bytes(*old(buf)) + sub_reg64_reg64_imm32_code(dst, src1, imm32));
            }
        }
    }

    /// `dst = src1 - src2`.
    pub fn sub_reg64_reg64_reg64(
        buf: &mut BumpVec<'_, u8>,
        dst: X86_64GPReg,
        src1: X86_64GPReg,
        src2: X86_64GPReg,
    )
        requires
            has_room(code_bytes(*old(buf)), 6),
        ensures
            code_bytes(*final(buf)) == code_bytes(*old(buf)) + sub_reg64_reg64_reg64_code(dst, src1, src2),
    {
        if dst == src1 {
            sub_reg64_reg64(buf, dst, src2);
        } else {
            mov_reg64_reg64(buf, dst, src1);
            sub_reg64_reg64(buf, dst, src2);
            proof {
                assert(code_bytes(*final(buf)) =~= code_bytes(*old(buf)) + sub_reg64_reg64_reg64_code(dst, src1, src2));
            }
        }
    }

    pub fn ret(buf: &mut BumpVec<'_, u8>)
        requires
            has_room(code_bytes(*old(buf)), 1),
        ensures
            code_bytes(*final(buf)) == code_bytes(*old(buf)) + ret_code(),
    {
        ret(buf);
    }

    pub fn pop_reg64(buf: &mut BumpVec<'_, u8>, reg: X86_64GPReg)
        requires
            has_room(code_bytes(*old(buf)), 2),
        ensures
            code_bytes(*final(buf)) == code_bytes(*old(buf)) + pop_reg64_code(reg),
    {
        pop_reg64(buf, reg);
    }

    pub fn push_reg64(buf: &mut BumpVec<'_, u8>, reg: X86_64GPReg)
        requires
            has_room(code_bytes(*old(buf)), 2),
        ensures
            code_bytes(*final(buf)) == code_bytes(*old(buf)) + push_reg64_code(reg),
    {
        push_reg64(buf, reg);
    }
}

pub const STACK_ALIGNMENT: u8 = 16;

/// `PUSH` of each register, in order.
pub open spec fn push_all_code(regs: Seq<X86_64GPReg>) -> Seq<u8>
    decreases regs.len(),
{
    if regs.len() == 0 {
        Seq::empty()
    } else {
        push_all_code(regs.drop_last()) + push_reg64_code(regs.last())
    }
}

/// `POP` of each register, last one first.
pub open spec fn pop_all_rev_code(regs: Seq<X86_64GPReg>) -> Seq<u8>
    decreases regs.len(),
{
    if regs.len() == 0 {
        Seq::empty()
    } else {
        pop_reg64_code(regs.last()) + pop_all_rev_code(regs.drop_last())
    }
}

/// The frame-pointer setup of a non-leaf function followed by the pushes of the saved registers.
pub open spec fn frame_entry_code(leaf_function: bool, saved: Seq<X86_64GPReg>) -> Seq<u8> {
    (if leaf_function {
        Seq::empty()
    } else {
        push_reg64_code(X86_64GPReg::RBP) + mov_reg64_reg64_code(X86_64GPReg::RBP, X86_64GPReg::RSP)
    }) + push_all_code(saved)
}

/// The pops of the saved registers followed by the frame-pointer teardown of a non-leaf function.
pub open spec fn frame_exit_code(leaf_function: bool, saved: Seq<X86_64GPReg>) -> Seq<u8> {
    pop_all_rev_code(saved) + (if leaf_function {
        Seq::empty()
    } else {
        mov_reg64_reg64_code(X86_64GPReg::RSP, X86_64GPReg::RBP) + pop_reg64_code(X86_64GPReg::RBP)
    })
}

/// The padding added to the requested stack size so that the saved registers and
/// the locals together fill whole 16-byte units.
pub open spec fn stack_padding(n_saved: int, requested: int) -> int {
    let full = 8 * n_saved + requested;
    let alignment = if full <= 0 { 0 } else { full % 16 };
    if alignment == 0 { 0 } else { 16 - alignment }
}

/// The stack size that a prolog reserves, or `None` when it does not fit in an `i32`.
pub open spec fn aligned_stack_size(n_saved: int, requested: int) -> Option<int> {
    let aligned = requested + stack_padding(n_saved, requested);
    if aligned > i32::MAX {
        None
    } else if aligned > 0 {
        Some(aligned)
    } else {
        Some(0)
    }
}

/// The code of a prolog that reserves `aligned` bytes.
pub open spec fn prolog_code(leaf_function: bool, saved: Seq<X86_64GPReg>, aligned: int) -> Seq<u8> {
    frame_entry_code(leaf_function, saved) + (if aligned > 0 {
        sub_reg64_imm32_code(X86_64GPReg::RSP, aligned as i32)
    } else {
        Seq::empty()
    })
}

/// The code of an epilog that releases `aligned` bytes.
pub open spec fn epilog_code(leaf_function: bool, saved: Seq<X86_64GPReg>, aligned: int) -> Seq<u8> {
    (if aligned > 0 {
        add_reg64_imm32_code(X86_64GPReg::RSP, aligned as i32)
    } else {
        Seq::empty()
    }) + frame_exit_code(leaf_function, saved)
}

/// For a non-negative request, the reserved size keeps the stack 16-byte aligned,
/// never falls short of the request and exceeds it by less than 16 bytes.
pub proof fn lemma_stack_stays_aligned(leaf_function: bool, n_saved: nat, requested: int)
    requires
        requested >= 0,
        aligned_stack_size(n_saved as int, requested) is Some,
    ensures
        ({
            let a = aligned_stack_size(n_saved as int, requested)->0;
            &&& (8 * n_saved + a + (if leaf_function { 0int } else { 16 })) % 16 == 0
            &&& requested <= a < requested + 16
        }),
{
}

fn x86_64_generic_setup_stack(
    buf: &mut BumpVec<'_, u8>,
    leaf_function: bool,
    saved_regs: &[X86_64GPReg],
    requested_stack_size: i32,
) -> (r: Result<i32, String>)
    requires
        has_room(code_bytes(*old(buf)), 2 * saved_regs@.len() as int + 20),
    ensures
        match r {
            Ok(a) => {
                &&& aligned_stack_size(saved_regs@.len() as int, requested_stack_size as int) == Some(a as int)
                &&& code_bytes(*final(buf)) == code_bytes(*old(buf)) + prolog_code(leaf_function, saved_regs@, a as int)
            },
            Err(e) => {
                &&& aligned_stack_size(saved_regs@.len() as int, requested_stack_size as int) is None
                &&& e@ == "Ran out of stack space"@
                &&& code_bytes(*final(buf)) == code_bytes(*old(buf)) + frame_entry_code(leaf_function, saved_regs@)
            },
        },
{
    if !leaf_function {
        push_reg64(buf, X86_64GPReg::RBP);
        mov_reg64_reg64(buf, X86_64GPReg::RBP, X86_64GPReg::RSP);
    }
    let ghost entry = code_bytes(*buf);
    let mut i: usize = 0;
    while i < saved_regs.len()
        invariant
            0 <= i <= saved_regs@.len(),
            entry.len() <= code_bytes(*old(buf)).len() + 4,
            entry == code_bytes(*old(buf)) + (if leaf_function {
                Seq::empty()
            } else {
                push_reg64_code(X86_64GPReg::RBP) + mov_reg64_reg64_code(X86_64GPReg::RBP, X86_64GPReg::RSP)
            }),
            code_bytes(*buf) == entry + push_all_code(saved_regs@.subrange(0, i as int)),
            code_bytes(*buf).len() <= entry.len() + 2 * i,
            has_room(code_bytes(*old(buf)), 2 * saved_regs@.len() as int + 20),
        decreases saved_regs@.len() - i,
    {
        let reg = saved_regs[i];
        push_reg64(buf, reg);
        proof {
            assert(saved_regs@.subrange(0, i + 1).drop_last() =~= saved_regs@.subrange(0, i as int));
        }
        i = i + 1;
    }
    proof {
        assert(saved_regs@.subrange(0, saved_regs@.len() as int) =~= saved_regs@);
        assert(code_bytes(*buf) =~= code_bytes(*old(buf)) + frame_entry_code(leaf_function, saved_regs@));
    }

    // Computed in 128 bits so that no count of saved registers can overflow.
    let full_size: i128 = 8 * saved_regs.len() as i128 + requested_stack_size as i128;
    let alignment: i128 = if full_size <= 0 {
        0
    } else {
        full_size % STACK_ALIGNMENT as i128
    };
    let offset: i128 = if alignment == 0 {
        0
    } else {
        STACK_ALIGNMENT as i128 - alignment
    };
    let aligned: i128 = requested_stack_size as i128 + offset;
    if aligned <= i32::MAX as i128 {
        let aligned_stack_size = aligned as i32;
        if aligned_stack_size > 0 {
            X86_64Assembler::sub_reg64_reg64_imm32(
                buf,
                X86_64GPReg::RSP,
                X86_64GPReg::RSP,
                aligned_stack_size,
            );
            proof {
                assert(code_bytes(*final(buf)) =~= code_bytes(*old(buf)) + prolog_code(leaf_function, saved_regs@, aligned_stack_size as int));
            }
            Ok(aligned_stack_size)
        } else {
            proof {
                assert(code_bytes(*final(buf)) =~= code_bytes(*old(buf)) + prolog_code(leaf_function, saved_regs@, 0));
            }
            Ok(0)
        }
    } else {
        Err("Ran out of stack space".to_owned())
    }
}

fn x86_64_generic_cleanup_stack(
    buf: &mut BumpVec<'_, u8>,
    leaf_function: bool,
    saved_regs: &[X86_64GPReg],
    aligned_stack_size: i32,
) -> (r: Result<(), String>)
    requires
        has_room(code_bytes(*old(buf)), 2 * saved_regs@.len() as int + 20),
    ensures
        r is Ok,
        code_bytes(*final(buf)) == code_bytes(*old(buf)) + epilog_code(leaf_function, saved_regs@, aligned_stack_size as int),
{
    if aligned_stack_size > 0 {
        X86_64Assembler::add_reg64_reg64_imm32(
            buf,
            X86_64GPReg::RSP,
            X86_64GPReg::RSP,
            aligned_stack_size,
        );
    }
    let ghost start = code_bytes(*buf);
    let ghost regs = saved_regs@;
    let mut i: usize = saved_regs.len();
    proof {
        assert(regs.subrange(0, i as int) =~= regs);
    }
    while i > 0
        invariant
            0 <= i <= regs.len(),
            regs == saved_regs@,
            start.len() <= code_bytes(*old(buf)).len() + 10,
            start == code_bytes(*old(buf)) + (if aligned_stack_size > 0 {
                add_reg64_imm32_code(X86_64GPReg::RSP, aligned_stack_size)
            } else {
                Seq::empty()
            }),
            code_bytes(*buf) + pop_all_rev_code(regs.subrange(0, i as int)) == start + pop_all_rev_code(regs),
            code_bytes(*buf).len() <= start.len() + 2 * (regs.len() - i),
            has_room(code_bytes(*old(buf)), 2 * saved_regs@.len() as int + 20),
        decreases i,
    {
        let reg = saved_regs[i - 1];
        let ghost before = code_bytes(*buf);
        pop_reg64(buf, reg);
        proof {
            let s = regs.subrange(0, i as int);
            assert(s.drop_last() =~= regs.subrange(0, i - 1));
            assert(pop_all_rev_code(s) == pop_reg64_code(reg) + pop_all_rev_code(regs.subrange(0, i - 1)));
            assert(code_bytes(*buf) + pop_all_rev_code(regs.subrange(0, i - 1))
                =~= before + pop_all_rev_code(s));
        }
        i = i - 1;
    }
    proof {
        assert(regs.subrange(0, 0) =~= Seq::<X86_64GPReg>::empty());
        assert(code_bytes(*buf) =~= start + pop_all_rev_code(regs));
    }
    if !leaf_function {
        mov_reg64_reg64(buf, X86_64GPReg::RSP, X86_64GPReg::RBP);
        pop_reg64(buf, X86_64GPReg::RBP);
    }
    proof {
        assert(code_bytes(*final(buf)) =~= code_bytes(*old(buf)) + epilog_code(leaf_function, saved_regs@, aligned_stack_size as int));
    }
    Ok(())
}

impl X86_64SystemV {
    /// General-purpose registers that carry parameters, in order.
    pub fn gp_param_regs() -> (r: Vec<X86_64GPReg>)
        ensures
            r@ == seq![X86_64GPReg::RDI, X86_64GPReg::RSI, X86_64GPReg::RDX, X86_64GPReg::RCX, X86_64GPReg::R8, X86_64GPReg::R9],
    {
        vec![X86_64GPReg::RDI, X86_64GPReg::RSI, X86_64GPReg::RDX, X86_64GPReg::RCX, X86_64GPReg::R8, X86_64GPReg::R9]
    }

    /// General-purpose registers that carry results, in order.
    pub fn gp_return_regs() -> (r: Vec<X86_64GPReg>)
        ensures
            r@ == seq![X86_64GPReg::RAX, X86_64GPReg::RDX],
    {
        vec![X86_64GPReg::RAX, X86_64GPReg::RDX]
    }

    /// General-purpose registers free for allocation; the preferred ones are last, to be popped first.
    pub fn gp_default_free_regs() -> (r: Vec<X86_64GPReg>)
        ensures
            r@ == seq![X86_64GPReg::RBX, X86_64GPReg::R12, X86_64GPReg::R13, X86_64GPReg::R14, X86_64GPReg::R15, X86_64GPReg::RAX, X86_64GPReg::RCX, X86_64GPReg::RDX, X86_64GPReg::RSI, X86_64GPReg::RDI, X86_64GPReg::R8, X86_64GPReg::R9, X86_64GPReg::R10, X86_64GPReg::R11],
    {
        vec![X86_64GPReg::RBX, X86_64GPReg::R12, X86_64GPReg::R13, X86_64GPReg::R14, X86_64GPReg::R15, X86_64GPReg::RAX, X86_64GPReg::RCX, X86_64GPReg::RDX, X86_64GPReg::RSI, X86_64GPReg::RDI, X86_64GPReg::R8, X86_64GPReg::R9, X86_64GPReg::R10, X86_64GPReg::R11]
    }

    /// Floating-point registers that carry parameters, in order.
    pub fn fp_param_regs() -> (r: Vec<X86_64FPReg>)
        ensures
            r@ == seq![X86_64FPReg::XMM0, X86_64FPReg::XMM1, X86_64FPReg::XMM2, X86_64FPReg::XMM3, X86_64FPReg::XMM4, X86_64FPReg::XMM5, X86_64FPReg::XMM6, X86_64FPReg::XMM7],
    {
        vec![X86_64FPReg::XMM0, X86_64FPReg::XMM1, X86_64FPReg::XMM2, X86_64FPReg::XMM3, X86_64FPReg::XMM4, X86_64FPReg::XMM5, X86_64FPReg::XMM6, X86_64FPReg::XMM7]
    }

    /// Floating-point registers that carry results, in order.
    pub fn fp_return_regs() -> (r: Vec<X86_64FPReg>)
        ensures
            r@ == seq![X86_64FPReg::XMM0, X86_64FPReg::XMM1],
    {
        vec![X86_64FPReg::XMM0, X86_64FPReg::XMM1]
    }

    /// Floating-point registers free for allocation; the preferred ones are last, to be popped first.
    pub fn fp_default_free_regs() -> (r: Vec<X86_64FPReg>)
        ensures
            r@ == seq![X86_64FPReg::XMM15, X86_64FPReg::XMM14, X86_64FPReg::XMM13, X86_64FPReg::XMM12, X86_64FPReg::XMM11, X86_64FPReg::XMM10, X86_64FPReg::XMM9, X86_64FPReg::XMM8, X86_64FPReg::XMM7, X86_64FPReg::XMM6, X86_64FPReg::XMM5, X86_64FPReg::XMM4, X86_64FPReg::XMM3, X86_64FPReg::XMM2, X86_64FPReg::XMM1, X86_64FPReg::XMM0],
    {
        vec![X86_64FPReg::XMM15, X86_64FPReg::XMM14, X86_64FPReg::XMM13, X86_64FPReg::XMM12, X86_64FPReg::XMM11, X86_64FPReg::XMM10, X86_64FPReg::XMM9, X86_64FPReg::XMM8, X86_64FPReg::XMM7, X86_64FPReg::XMM6, X86_64FPReg::XMM5, X86_64FPReg::XMM4, X86_64FPReg::XMM3, X86_64FPReg::XMM2, X86_64FPReg::XMM1, X86_64FPReg::XMM0]
    }

    /// Bytes that a caller reserves on the stack for the callee's register parameters.
    pub fn shadow_space_size() -> (r: u8)
        ensures
            r == 0,
    {
        0
    }

    pub open spec fn spec_gp_callee_saved(reg: X86_64GPReg) -> bool {
        matches!(reg, X86_64GPReg::RBX | X86_64GPReg::RBP | X86_64GPReg::R12 | X86_64GPReg::R13 | X86_64GPReg::R14 | X86_64GPReg::R15)
    }

    /// Whether a callee must preserve the general-purpose register.
    pub fn gp_callee_saved(reg: &X86_64GPReg) -> (r: bool)
        ensures
            r == Self::spec_gp_callee_saved(*reg),
    {
        matches!(reg, X86_64GPReg::RBX | X86_64GPReg::RBP | X86_64GPReg::R12 | X86_64GPReg::R13 | X86_64GPReg::R14 | X86_64GPReg::R15)
    }

    /// Whether a callee must preserve the floating-point register: none is.
    pub fn fp_callee_saved(reg: &X86_64FPReg) -> (r: bool)
        ensures
            !r,
    {
        false
    }

    /// Emits the prolog and returns the stack size it reserved, or fails when that
    /// size does not fit in an `i32`.
    pub fn setup_stack(
        buf: &mut BumpVec<'_, u8>,
        leaf_function: bool,
        saved_regs: &[X86_64GPReg],
        requested_stack_size: i32,
    ) -> (r: Result<i32, String>)
        requires
            has_room(code_bytes(*old(buf)), 2 * saved_regs@.len() as int + 20),
        ensures
            match r {
                Ok(a) => {
                    &&& aligned_stack_size(saved_regs@.len() as int, requested_stack_size as int) == Some(a as int)
                    &&& code_bytes(*final(buf)) == code_bytes(*old(buf)) + prolog_code(leaf_function, saved_regs@, a as int)
                },
                Err(e) => {
                    &&& aligned_stack_size(saved_regs@.len() as int, requested_stack_size as int) is None
                    &&& e@ == "Ran out of stack space"@
                    &&& code_bytes(*final(buf)) == code_bytes(*old(buf)) + frame_entry_code(leaf_function, saved_regs@)
                },
            },
    {
        x86_64_generic_setup_stack(buf, leaf_function, saved_regs, requested_stack_size)
    }

    /// Emits the epilog matching a prolog that reserved `aligned_stack_size` bytes.
    pub fn cleanup_stack(
        buf: &mut BumpVec<'_, u8>,
        leaf_function: bool,
        saved_regs: &[X86_64GPReg],
        aligned_stack_size: i32,
    ) -> (r: Result<(), String>)
        requires
            has_room(code_bytes(*old(buf)), 2 * saved_regs@.len() as int + 20),
        ensures
            r is Ok,
            code_bytes(*final(buf)) == code_bytes(*old(buf)) + epilog_code(leaf_function, saved_regs@, aligned_stack_size as int),
    {
        x86_64_generic_cleanup_stack(buf, leaf_function, saved_regs, aligned_stack_size)
    }
}

impl X86_64WindowsFastcall {
    /// General-purpose registers that carry parameters, in order.
    pub fn gp_param_regs() -> (r: Vec<X86_64GPReg>)
        ensures
            r@ == seq![X86_64GPReg::RCX, X86_64GPReg::RDX, X86_64GPReg::R8, X86_64GPReg::R9],
    {
        vec![X86_64GPReg::RCX, X86_64GPReg::RDX, X86_64GPReg::R8, X86_64GPReg::R9]
    }

    /// General-purpose registers that carry results, in order.
    pub fn gp_return_regs() -> (r: Vec<X86_64GPReg>)
        ensures
            r@ == seq![X86_64GPReg::RAX],
    {
        vec![X86_64GPReg::RAX]
    }

    /// General-purpose registers free for allocation; the preferred ones are last, to be popped first.
    pub fn gp_default_free_regs() -> (r: Vec<X86_64GPReg>)
        ensures
            r@ == seq![X86_64GPReg::RBX, X86_64GPReg::RSI, X86_64GPReg::RDI, X86_64GPReg::R12, X86_64GPReg::R13, X86_64GPReg::R14, X86_64GPReg::R15, X86_64GPReg::RAX, X86_64GPReg::RCX, X86_64GPReg::RDX, X86_64GPReg::R8, X86_64GPReg::R9, X86_64GPReg::R10, X86_64GPReg::R11],
    {
        vec![X86_64GPReg::RBX, X86_64GPReg::RSI, X86_64GPReg::RDI, X86_64GPReg::R12, X86_64GPReg::R13, X86_64GPReg::R14, X86_64GPReg::R15, X86_64GPReg::RAX, X86_64GPReg::RCX, X86_64GPReg::RDX, X86_64GPReg::R8, X86_64GPReg::R9, X86_64GPReg::R10, X86_64GPReg::R11]
    }

    /// Floating-point registers that carry parameters, in order.
    pub fn fp_param_regs() -> (r: Vec<X86_64FPReg>)
        ensures
            r@ == seq![X86_64FPReg::XMM0, X86_64FPReg::XMM1, X86_64FPReg::XMM2, X86_64FPReg::XMM3],
    {
        vec![X86_64FPReg::XMM0, X86_64FPReg::XMM1, X86_64FPReg::XMM2, X86_64FPReg::XMM3]
    }

    /// Floating-point registers that carry results, in order.
    pub fn fp_return_regs() -> (r: Vec<X86_64FPReg>)
        ensures
            r@ == seq![X86_64FPReg::XMM0],
    {
        vec![X86_64FPReg::XMM0]
    }

    /// Floating-point registers free for allocation; the preferred ones are last, to be popped first.
    pub fn fp_default_free_regs() -> (r: Vec<X86_64FPReg>)
        ensures
            r@ == seq![X86_64FPReg::XMM15, X86_64FPReg::XMM14, X86_64FPReg::XMM13, X86_64FPReg::XMM12, X86_64FPReg::XMM11, X86_64FPReg::XMM10, X86_64FPReg::XMM9, X86_64FPReg::XMM8, X86_64FPReg::XMM7, X86_64FPReg::XMM6, X86_64FPReg::XMM5, X86_64FPReg::XMM4, X86_64FPReg::XMM3, X86_64FPReg::XMM2, X86_64FPReg::XMM1, X86_64FPReg::XMM0],
    {
        vec![X86_64FPReg::XMM15, X86_64FPReg::XMM14, X86_64FPReg::XMM13, X86_64FPReg::XMM12, X86_64FPReg::XMM11, X86_64FPReg::XMM10, X86_64FPReg::XMM9, X86_64FPReg::XMM8, X86_64FPReg::XMM7, X86_64FPReg::XMM6, X86_64FPReg::XMM5, X86_64FPReg::XMM4, X86_64FPReg::XMM3, X86_64FPReg::XMM2, X86_64FPReg::XMM1, X86_64FPReg::XMM0]
    }

    /// Bytes that a caller reserves on the stack for the callee's register parameters.
    pub fn shadow_space_size() -> (r: u8)
        ensures
            r == 32,
    {
        32
    }

    pub open spec fn spec_gp_callee_saved(reg: X86_64GPReg) -> bool {
        matches!(reg, X86_64GPReg::RBX | X86_64GPReg::RBP | X86_64GPReg::RSI | X86_64GPReg::RSP | X86_64GPReg::RDI | X86_64GPReg::R12 | X86_64GPReg::R13 | X86_64GPReg::R14 | X86_64GPReg::R15)
    }

    /// Whether a callee must preserve the general-purpose register.
    pub fn gp_callee_saved(reg: &X86_64GPReg) -> (r: bool)
        ensures
            r == Self::spec_gp_callee_saved(*reg),
    {
        matches!(reg, X86_64GPReg::RBX | X86_64GPReg::RBP | X86_64GPReg::RSI | X86_64GPReg::RSP | X86_64GPReg::RDI | X86_64GPReg::R12 | X86_64GPReg::R13 | X86_64GPReg::R14 | X86_64GPReg::R15)
    }

    pub open spec fn spec_fp_callee_saved(reg: X86_64FPReg) -> bool {
        matches!(reg, X86_64FPReg::XMM0 | X86_64FPReg::XMM1 | X86_64FPReg::XMM2 | X86_64FPReg::XMM3 | X86_64FPReg::XMM4 | X86_64FPReg::XMM5)
    }

    /// Whether a callee must preserve the floating-point register.
    pub fn fp_callee_saved(reg: &X86_64FPReg) -> (r: bool)
        ensures
            r == Self::spec_fp_callee_saved(*reg),
    {
        matches!(reg, X86_64FPReg::XMM0 | X86_64FPReg::XMM1 | X86_64FPReg::XMM2 | X86_64FPReg::XMM3 | X86_64FPReg::XMM4 | X86_64FPReg::XMM5)
    }

    /// Emits the prolog and returns the stack size it reserved, or fails when that
    /// size does not fit in an `i32`.
    pub fn setup_stack(
        buf: &mut BumpVec<'_, u8>,
        leaf_function: bool,
        saved_regs: &[X86_64GPReg],
        requested_stack_size: i32,
    ) -> (r: Result<i32, String>)
        requires
            has_room(code_bytes(*old(buf)), 2 * saved_regs@.len() as int + 20),
        ensures
            match r {
                Ok(a) => {
                    &&& aligned_stack_size(saved_regs@.len() as int, requested_stack_size as int) == Some(a as int)
                    &&& code_bytes(*final(buf)) == code_bytes(*old(buf)) + prolog_code(leaf_function, saved_regs@, a as int)
                },
                Err(e) => {
                    &&& aligned_stack_size(saved_regs@.len() as int, requested_stack_size as int) is None
                    &&& e@ == "Ran out of stack space"@
                    &&& code_bytes(*final(buf)) == code_bytes(*old(buf)) + frame_entry_code(leaf_function, saved_regs@)
                },
            },
    {
        x86_64_generic_setup_stack(buf, leaf_function, saved_regs, requested_stack_size)
    }

    /// Emits the epilog matching a prolog that reserved `aligned_stack_size` bytes.
    pub fn cleanup_stack(
        buf: &mut BumpVec<'_, u8>,
        leaf_function: bool,
        saved_regs: &[X86_64GPReg],
        aligned_stack_size: i32,
    ) -> (r: Result<(), String>)
        requires
            has_room(code_bytes(*old(buf)), 2 * saved_regs@.len() as int + 20),
        ensures
            r is Ok,
            code_bytes(*final(buf)) == code_bytes(*old(buf)) + epilog_code(leaf_function, saved_regs@, aligned_stack_size as int),
    {
        x86_64_generic_cleanup_stack(buf, leaf_function, saved_regs, aligned_stack_size)
    }
}

} // verus!
