//! The binary module format and the instruction set.
use crate::endian::le_value;
use crate::endian::read_u32_le;
use crate::error::ExecuteError;
use crate::error::ExecuteResult;
use vstd::prelude::*;
use vstd::slice::slice_subrange;

verus! {

/// A guest program: the blob of memory initializers and the opcode stream,
/// both borrowed from the buffer the module was loaded from.
#[derive(Copy, Clone, Debug)]
pub struct Module<'a> {
    /// Serialized records `(addr: u32, len: u32, bytes[len])`.
    pub memory_initializers: &'a [u8],
    /// Opcodes interleaved with their little-endian immediates.
    pub code: &'a [u8],
}

impl<'a> Module<'a> {
    /// The length that the four-byte header of `buf` announces for the
    /// initializer blob.
    pub open spec fn announced_len(buf: Seq<u8>) -> nat {
        le_value(buf.subrange(0, 4))
    }

    /// Whether `buf` holds a header and the initializer blob it announces.
    pub open spec fn well_framed(buf: Seq<u8>) -> bool {
        buf.len() >= 4 && 4 + Self::announced_len(buf) <= buf.len()
    }

    /// The initializer blob of a well-framed buffer.
    pub open spec fn initializers_of(buf: Seq<u8>) -> Seq<u8> {
        buf.subrange(4, 4 + Self::announced_len(buf) as int)
    }

    /// The opcode stream of a well-framed buffer: all that follows the
    /// initializer blob.
    pub open spec fn code_of(buf: Seq<u8>) -> Seq<u8> {
        buf.subrange(4 + Self::announced_len(buf) as int, buf.len() as int)
    }

    /// Splits a raw buffer into its parts: a `u32` length `L`, then `L`
    /// bytes of initializers, then the code. A buffer too short for its
    /// header or for the announced blob is rejected.
    pub fn from_raw(s: &'a [u8]) -> (r: ExecuteResult<Module<'a>>)
        ensures
            match r {
                Ok(m) => {
                    &&& Self::well_framed(s@)
                    &&& m.memory_initializers@ == Self::initializers_of(s@)
                    &&& m.code@ == Self::code_of(s@)
                },
                Err(e) => e == ExecuteError::Bounds && !Self::well_framed(s@),
            },
    {
        if s.len() < 4 {
            return Err(ExecuteError::Bounds);
        }
        let initializers_len = read_u32_le(s) as usize;
        if s.len() - 4 < initializers_len {
            return Err(ExecuteError::Bounds);
        }
        let memory_initializers = slice_subrange(s, 4, 4 + initializers_len);
        let code = slice_subrange(s, 4 + initializers_len, s.len());
        Ok(Module { memory_initializers, code })
    }
}

/// The instruction set. The numbering is part of the binary format and
/// starts at 1 with `Drop`; `Never` closes the range and is not an
/// instruction.
#[derive(Copy, Clone, Debug, PartialEq, Eq, Structural)]
pub enum Opcode {
    Drop,
    Dup,
    Swap2,
    Select,
    Call,
    Return,
    Halt,
    GetLocal,
    SetLocal,
    TeeLocal,
    GetSlotIndirect,
    GetSlot,
    SetSlot,
    ResetSlots,
    NativeInvoke,
    CurrentMemory,
    GrowMemory,
    Nop,
    Unreachable,
    NotSupported,
    Jmp,
    JmpIf,
    JmpEither,
    JmpTable,
    I32Load,
    I32Load8U,
    I32Load8S,
    I32Load16U,
    I32Load16S,
    I32Store,
    I32Store8,
    I32Store16,
    I32Const,
    I32Ctz,
    I32Clz,
    I32Popcnt,
    I32Add,
    I32Sub,
    I32Mul,
    I32DivU,
    I32DivS,
    I32RemU,
    I32RemS,
    I32And,
    I32Or,
    I32Xor,
    I32Shl,
    I32ShrU,
    I32ShrS,
    I32Rotl,
    I32Rotr,
    I32Eq,
    I32Ne,
    I32LtU,
    I32LtS,
    I32LeU,
    I32LeS,
    I32GtU,
    I32GtS,
    I32GeU,
    I32GeS,
    I32WrapI64,
    I64Load,
    I64Load8U,
    I64Load8S,
    I64Load16U,
    I64Load16S,
    I64Load32U,
    I64Load32S,
    I64Store,
    I64Store8,
    I64Store16,
    I64Store32,
    I64Const,
    I64Ctz,
    I64Clz,
    I64Popcnt,
    I64Add,
    I64Sub,
    I64Mul,
    I64DivU,
    I64DivS,
    I64RemU,
    I64RemS,
    I64And,
    I64Or,
    I64Xor,
    I64Shl,
    I64ShrU,
    I64ShrS,
    I64Rotl,
    I64Rotr,
    I64Eq,
    I64Ne,
    I64LtU,
    I64LtS,
    I64LeU,
    I64LeS,
    I64GtU,
    I64GtS,
    I64GeU,
    I64GeS,
    I64ExtendI32U,
    I64ExtendI32S,
    Never,
}

impl Opcode {
    /// The byte that encodes this opcode.
    pub open spec fn number(self) -> int {
        match self {
            Opcode::Drop => 1,
            Opcode::Dup => 2,
            Opcode::Swap2 => 3,
            Opcode::Select => 4,
            Opcode::Call => 5,
            Opcode::Return => 6,
            Opcode::Halt => 7,
            Opcode::GetLocal => 8,
            Opcode::SetLocal => 9,
            Opcode::TeeLocal => 10,
            Opcode::GetSlotIndirect => 11,
            Opcode::GetSlot => 12,
            Opcode::SetSlot => 13,
            Opcode::ResetSlots => 14,
            Opcode::NativeInvoke => 15,
            Opcode::CurrentMemory => 16,
            Opcode::GrowMemory => 17,
            Opcode::Nop => 18,
            Opcode::Unreachable => 19,
            Opcode::NotSupported => 20,
            Opcode::Jmp => 21,
            Opcode::JmpIf => 22,
            Opcode::JmpEither => 23,
            Opcode::JmpTable => 24,
            Opcode::I32Load => 25,
            Opcode::I32Load8U => 26,
            Opcode::I32Load8S => 27,
            Opcode::I32Load16U => 28,
            Opcode::I32Load16S => 29,
            Opcode::I32Store => 30,
            Opcode::I32Store8 => 31,
            Opcode::I32Store16 => 32,
            Opcode::I32Const => 33,
            Opcode::I32Ctz => 34,
            Opcode::I32Clz => 35,
            Opcode::I32Popcnt => 36,
            Opcode::I32Add => 37,
            Opcode::I32Sub => 38,
            Opcode::I32Mul => 39,
            Opcode::I32DivU => 40,
            Opcode::I32DivS => 41,
            Opcode::I32RemU => 42,
            Opcode::I32RemS => 43,
            Opcode::I32And => 44,
            Opcode::I32Or => 45,
            Opcode::I32Xor => 46,
            Opcode::I32Shl => 47,
            Opcode::I32ShrU => 48,
            Opcode::I32ShrS => 49,
            Opcode::I32Rotl => 50,
            Opcode::I32Rotr => 51,
            Opcode::I32Eq => 52,
            Opcode::I32Ne => 53,
            Opcode::I32LtU => 54,
            Opcode::I32LtS => 55,
            Opcode::I32LeU => 56,
            Opcode::I32LeS => 57,
            Opcode::I32GtU => 58,
            Opcode::I32GtS => 59,
            Opcode::I32GeU => 60,
            Opcode::I32GeS => 61,
            Opcode::I32WrapI64 => 62,
            Opcode::I64Load => 63,
            Opcode::I64Load8U => 64,
            Opcode::I64Load8S => 65,
            Opcode::I64Load16U => 66,
            Opcode::I64Load16S => 67,
            Opcode::I64Load32U => 68,
            Opcode::I64Load32S => 69,
            Opcode::I64Store => 70,
            Opcode::I64Store8 => 71,
            Opcode::I64Store16 => 72,
            Opcode::I64Store32 => 73,
            Opcode::I64Const => 74,
            Opcode::I64Ctz => 75,
            Opcode::I64Clz => 76,
            Opcode::I64Popcnt => 77,
            Opcode::I64Add => 78,
            Opcode::I64Sub => 79,
            Opcode::I64Mul => 80,
            Opcode::I64DivU => 81,
            Opcode::I64DivS => 82,
            Opcode::I64RemU => 83,
            Opcode::I64RemS => 84,
            Opcode::I64And => 85,
            Opcode::I64Or => 86,
            Opcode::I64Xor => 87,
            Opcode::I64Shl => 88,
            Opcode::I64ShrU => 89,
            Opcode::I64ShrS => 90,
            Opcode::I64Rotl => 91,
            Opcode::I64Rotr => 92,
            Opcode::I64Eq => 93,
            Opcode::I64Ne => 94,
            Opcode::I64LtU => 95,
            Opcode::I64LtS => 96,
            Opcode::I64LeU => 97,
            Opcode::I64LeS => 98,
            Opcode::I64GtU => 99,
            Opcode::I64GtS => 100,
            Opcode::I64GeU => 101,
            Opcode::I64GeS => 102,
            Opcode::I64ExtendI32U => 103,
            Opcode::I64ExtendI32S => 104,
            Opcode::Never => 105,
        }
    }

    /// The opcode that the byte `v` encodes, for `v` in `1..=105`.
    pub open spec fn of_number(v: int) -> Opcode {
        if v == 1 {
            Opcode::Drop
        } else if v == 2 {
            Opcode::Dup
        } else if v == 3 {
            Opcode::Swap2
        } else if v == 4 {
            Opcode::Select
        } else if v == 5 {
            Opcode::Call
        } else if v == 6 {
            Opcode::Return
        } else if v == 7 {
            Opcode::Halt
        } else if v == 8 {
            Opcode::GetLocal
        } else if v == 9 {
            Opcode::SetLocal
        } else if v == 10 {
            Opcode::TeeLocal
        } else if v == 11 {
            Opcode::GetSlotIndirect
        } else if v == 12 {
            Opcode::GetSlot
        } else if v == 13 {
            Opcode::SetSlot
        } else if v == 14 {
            Opcode::ResetSlots
        } else if v == 15 {
            Opcode::NativeInvoke
        } else if v == 16 {
            Opcode::CurrentMemory
        } else if v == 17 {
            Opcode::GrowMemory
        } else if v == 18 {
            Opcode::Nop
        } else if v == 19 {
            Opcode::Unreachable
        } else if v == 20 {
            Opcode::NotSupported
        } else if v == 21 {
            Opcode::Jmp
        } else if v == 22 {
            Opcode::JmpIf
        } else if v == 23 {
            Opcode::JmpEither
        } else if v == 24 {
            Opcode::JmpTable
        } else if v == 25 {
            Opcode::I32Load
        } else if v == 26 {
            Opcode::I32Load8U
        } else if v == 27 {
            Opcode::I32Load8S
        } else if v == 28 {
            Opcode::I32Load16U
        } else if v == 29 {
            Opcode::I32Load16S
        } else if v == 30 {
            Opcode::I32Store
        } else if v == 31 {
            Opcode::I32Store8
        } else if v == 32 {
            Opcode::I32Store16
        } else if v == 33 {
            Opcode::I32Const
        } else if v == 34 {
            Opcode::I32Ctz
        } else if v == 35 {
            Opcode::I32Clz
        } else if v == 36 {
            Opcode::I32Popcnt
        } else if v == 37 {
            Opcode::I32Add
        } else if v == 38 {
            Opcode::I32Sub
        } else if v == 39 {
            Opcode::I32Mul
        } else if v == 40 {
            Opcode::I32DivU
        } else if v == 41 {
            Opcode::I32DivS
        } else if v == 42 {
            Opcode::I32RemU
        } else if v == 43 {
            Opcode::I32RemS
        } else if v == 44 {
            Opcode::I32And
        } else if v == 45 {
            Opcode::I32Or
        } else if v == 46 {
            Opcode::I32Xor
        } else if v == 47 {
            Opcode::I32Shl
        } else if v == 48 {
            Opcode::I32ShrU
        } else if v == 49 {
            Opcode::I32ShrS
        } else if v == 50 {
            Opcode::I32Rotl
        } else if v == 51 {
            Opcode::I32Rotr
        } else if v == 52 {
            Opcode::I32Eq
        } else if v == 53 {
            Opcode::I32Ne
        } else if v == 54 {
            Opcode::I32LtU
        } else if v == 55 {
            Opcode::I32LtS
        } else if v == 56 {
            Opcode::I32LeU
        } else if v == 57 {
            Opcode::I32LeS
        } else if v == 58 {
            Opcode::I32GtU
        } else if v == 59 {
            Opcode::I32GtS
        } else if v == 60 {
            Opcode::I32GeU
        } else if v == 61 {
            Opcode::I32GeS
        } else if v == 62 {
            Opcode::I32WrapI64
        } else if v == 63 {
            Opcode::I64Load
        } else if v == 64 {
            Opcode::I64Load8U
        } else if v == 65 {
            Opcode::I64Load8S
        } else if v == 66 {
            Opcode::I64Load16U
        } else if v == 67 {
            Opcode::I64Load16S
        } else if v == 68 {
            Opcode::I64Load32U
        } else if v == 69 {
            Opcode::I64Load32S
        } else if v == 70 {
            Opcode::I64Store
        } else if v == 71 {
            Opcode::I64Store8
        } else if v == 72 {
            Opcode::I64Store16
        } else if v == 73 {
            Opcode::I64Store32
        } else if v == 74 {
            Opcode::I64Const
        } else if v == 75 {
            Opcode::I64Ctz
        } else if v == 76 {
            Opcode::I64Clz
        } else if v == 77 {
            Opcode::I64Popcnt
        } else if v == 78 {
            Opcode::I64Add
        } else if v == 79 {
            Opcode::I64Sub
        } else if v == 80 {
            Opcode::I64Mul
        } else if v == 81 {
            Opcode::I64DivU
        } else if v == 82 {
            Opcode::I64DivS
        } else if v == 83 {
            Opcode::I64RemU
        } else if v == 84 {
            Opcode::I64RemS
        } else if v == 85 {
            Opcode::I64And
        } else if v == 86 {
            Opcode::I64Or
        } else if v == 87 {
            Opcode::I64Xor
        } else if v == 88 {
            Opcode::I64Shl
        } else if v == 89 {
            Opcode::I64ShrU
        } else if v == 90 {
            Opcode::I64ShrS
        } else if v == 91 {
            Opcode::I64Rotl
        } else if v == 92 {
            Opcode::I64Rotr
        } else if v == 93 {
            Opcode::I64Eq
        } else if v == 94 {
            Opcode::I64Ne
        } else if v == 95 {
            Opcode::I64LtU
        } else if v == 96 {
            Opcode::I64LtS
        } else if v == 97 {
            Opcode::I64LeU
        } else if v == 98 {
            Opcode::I64LeS
        } else if v == 99 {
            Opcode::I64GtU
        } else if v == 100 {
            Opcode::I64GtS
        } else if v == 101 {
            Opcode::I64GeU
        } else if v == 102 {
            Opcode::I64GeS
        } else if v == 103 {
            Opcode::I64ExtendI32U
        } else if v == 104 {
            Opcode::I64ExtendI32S
        } else {
            Opcode::Never
        }
    }

    /// Whether the byte `v` encodes an instruction.
    pub open spec fn is_valid(v: int) -> bool {
        1 <= v < Opcode::Never.number()
    }

    /// `number` and `of_number` are inverse to each other, so distinct
    /// opcodes have distinct encodings.
    pub proof fn lemma_numbering(op: Opcode, v: int)
        ensures
            1 <= op.number() <= 105,
            Opcode::of_number(op.number()) == op,
            1 <= v <= 105 ==> Opcode::of_number(v).number() == v,
    {
    }

    /// The byte that encodes this opcode.
    pub fn to_raw(self) -> (v: u8)
        ensures
            v == self.number(),
    {
        match self {
            Opcode::Drop => 1,
            Opcode::Dup => 2,
            Opcode::Swap2 => 3,
            Opcode::Select => 4,
            Opcode::Call => 5,
            Opcode::Return => 6,
            Opcode::Halt => 7,
            Opcode::GetLocal => 8,
            Opcode::SetLocal => 9,
            Opcode::TeeLocal => 10,
            Opcode::GetSlotIndirect => 11,
            Opcode::GetSlot => 12,
            Opcode::SetSlot => 13,
            Opcode::ResetSlots => 14,
            Opcode::NativeInvoke => 15,
            Opcode::CurrentMemory => 16,
            Opcode::GrowMemory => 17,
            Opcode::Nop => 18,
            Opcode::Unreachable => 19,
            Opcode::NotSupported => 20,
            Opcode::Jmp => 21,
            Opcode::JmpIf => 22,
            Opcode::JmpEither => 23,
            Opcode::JmpTable => 24,
            Opcode::I32Load => 25,
            Opcode::I32Load8U => 26,
            Opcode::I32Load8S => 27,
            Opcode::I32Load16U => 28,
            Opcode::I32Load16S => 29,
            Opcode::I32Store => 30,
            Opcode::I32Store8 => 31,
            Opcode::I32Store16 => 32,
            Opcode::I32Const => 33,
            Opcode::I32Ctz => 34,
            Opcode::I32Clz => 35,
            Opcode::I32Popcnt => 36,
            Opcode::I32Add => 37,
            Opcode::I32Sub => 38,
            Opcode::I32Mul => 39,
            Opcode::I32DivU => 40,
            Opcode::I32DivS => 41,
            Opcode::I32RemU => 42,
            Opcode::I32RemS => 43,
            Opcode::I32And => 44,
            Opcode::I32Or => 45,
            Opcode::I32Xor => 46,
            Opcode::I32Shl => 47,
            Opcode::I32ShrU => 48,
            Opcode::I32ShrS => 49,
            Opcode::I32Rotl => 50,
            Opcode::I32Rotr => 51,
            Opcode::I32Eq => 52,
            Opcode::I32Ne => 53,
            Opcode::I32LtU => 54,
            Opcode::I32LtS => 55,
            Opcode::I32LeU => 56,
            Opcode::I32LeS => 57,
            Opcode::I32GtU => 58,
            Opcode::I32GtS => 59,
            Opcode::I32GeU => 60,
            Opcode::I32GeS => 61,
            Opcode::I32WrapI64 => 62,
            Opcode::I64Load => 63,
            Opcode::I64Load8U => 64,
            Opcode::I64Load8S => 65,
            Opcode::I64Load16U => 66,
            Opcode::I64Load16S => 67,
            Opcode::I64Load32U => 68,
            Opcode::I64Load32S => 69,
            Opcode::I64Store => 70,
            Opcode::I64Store8 => 71,
            Opcode::I64Store16 => 72,
            Opcode::I64Store32 => 73,
            Opcode::I64Const => 74,
            Opcode::I64Ctz => 75,
            Opcode::I64Clz => 76,
            Opcode::I64Popcnt => 77,
            Opcode::I64Add => 78,
            Opcode::I64Sub => 79,
            Opcode::I64Mul => 80,
            Opcode::I64DivU => 81,
            Opcode::I64DivS => 82,
            Opcode::I64RemU => 83,
            Opcode::I64RemS => 84,
            Opcode::I64And => 85,
            Opcode::I64Or => 86,
            Opcode::I64Xor => 87,
            Opcode::I64Shl => 88,
            Opcode::I64ShrU => 89,
            Opcode::I64ShrS => 90,
            Opcode::I64Rotl => 91,
            Opcode::I64Rotr => 92,
            Opcode::I64Eq => 93,
            Opcode::I64Ne => 94,
            Opcode::I64LtU => 95,
            Opcode::I64LtS => 96,
            Opcode::I64LeU => 97,
            Opcode::I64LeS => 98,
            Opcode::I64GtU => 99,
            Opcode::I64GtS => 100,
            Opcode::I64GeU => 101,
            Opcode::I64GeS => 102,
            Opcode::I64ExtendI32U => 103,
            Opcode::I64ExtendI32S => 104,
            Opcode::Never => 105,
        }
    }

    /// Decodes one byte. Zero and every value from `Never` on are rejected.
    pub fn from_raw(v: u8) -> (r: ExecuteResult<Opcode>)
        ensures
            match r {
                Ok(op) => Opcode::is_valid(v as int) && op == Opcode::of_number(v as int),
                Err(e) => e == ExecuteError::IllegalOpcode && !Opcode::is_valid(v as int),
            },
    {
        match v {
            1 => Ok(Opcode::Drop),
            2 => Ok(Opcode::Dup),
            3 => Ok(Opcode::Swap2),
            4 => Ok(Opcode::Select),
            5 => Ok(Opcode::Call),
            6 => Ok(Opcode::Return),
            7 => Ok(Opcode::Halt),
            8 => Ok(Opcode::GetLocal),
            9 => Ok(Opcode::SetLocal),
            10 => Ok(Opcode::TeeLocal),
            11 => Ok(Opcode::GetSlotIndirect),
            12 => Ok(Opcode::GetSlot),
            13 => Ok(Opcode::SetSlot),
            14 => Ok(Opcode::ResetSlots),
            15 => Ok(Opcode::NativeInvoke),
            16 => Ok(Opcode::CurrentMemory),
            17 => Ok(Opcode::GrowMemory),
            18 => Ok(Opcode::Nop),
            19 => Ok(Opcode::Unreachable),
            20 => Ok(Opcode::NotSupported),
            21 => Ok(Opcode::Jmp),
            22 => Ok(Opcode::JmpIf),
            23 => Ok(Opcode::JmpEither),
            24 => Ok(Opcode::JmpTable),
            25 => Ok(Opcode::I32Load),
            26 => Ok(Opcode::I32Load8U),
            27 => Ok(Opcode::I32Load8S),
            28 => Ok(Opcode::I32Load16U),
            29 => Ok(Opcode::I32Load16S),
            30 => Ok(Opcode::I32Store),
            31 => Ok(Opcode::I32Store8),
            32 => Ok(Opcode::I32Store16),
            33 => Ok(Opcode::I32Const),
            34 => Ok(Opcode::I32Ctz),
            35 => Ok(Opcode::I32Clz),
            36 => Ok(Opcode::I32Popcnt),
            37 => Ok(Opcode::I32Add),
            38 => Ok(Opcode::I32Sub),
            39 => Ok(Opcode::I32Mul),
            40 => Ok(Opcode::I32DivU),
            41 => Ok(Opcode::I32DivS),
            42 => Ok(Opcode::I32RemU),
            43 => Ok(Opcode::I32RemS),
            44 => Ok(Opcode::I32And),
            45 => Ok(Opcode::I32Or),
            46 => Ok(Opcode::I32Xor),
            47 => Ok(Opcode::I32Shl),
            48 => Ok(Opcode::I32ShrU),
            49 => Ok(Opcode::I32ShrS),
            50 => Ok(Opcode::I32Rotl),
            51 => Ok(Opcode::I32Rotr),
            52 => Ok(Opcode::I32Eq),
            53 => Ok(Opcode::I32Ne),
            54 => Ok(Opcode::I32LtU),
            55 => Ok(Opcode::I32LtS),
            56 => Ok(Opcode::I32LeU),
            57 => Ok(Opcode::I32LeS),
            58 => Ok(Opcode::I32GtU),
            59 => Ok(Opcode::I32GtS),
            60 => Ok(Opcode::I32GeU),
            61 => Ok(Opcode::I32GeS),
            62 => Ok(Opcode::I32WrapI64),
            63 => Ok(Opcode::I64Load),
            64 => Ok(Opcode::I64Load8U),
            65 => Ok(Opcode::I64Load8S),
            66 => Ok(Opcode::I64Load16U),
            67 => Ok(Opcode::I64Load16S),
            68 => Ok(Opcode::I64Load32U),
            69 => Ok(Opcode::I64Load32S),
            70 => Ok(Opcode::I64Store),
            71 => Ok(Opcode::I64Store8),
            72 => Ok(Opcode::I64Store16),
            73 => Ok(Opcode::I64Store32),
            74 => Ok(Opcode::I64Const),
            75 => Ok(Opcode::I64Ctz),
            76 => Ok(Opcode::I64Clz),
            77 => Ok(Opcode::I64Popcnt),
            78 => Ok(Opcode::I64Add),
            79 => Ok(Opcode::I64Sub),
            80 => Ok(Opcode::I64Mul),
            81 => Ok(Opcode::I64DivU),
            82 => Ok(Opcode::I64DivS),
            83 => Ok(Opcode::I64RemU),
            84 => Ok(Opcode::I64RemS),
            85 => Ok(Opcode::I64And),
            86 => Ok(Opcode::I64Or),
            87 => Ok(Opcode::I64Xor),
            88 => Ok(Opcode::I64Shl),
            89 => Ok(Opcode::I64ShrU),
            90 => Ok(Opcode::I64ShrS),
            91 => Ok(Opcode::I64Rotl),
            92 => Ok(Opcode::I64Rotr),
            93 => Ok(Opcode::I64Eq),
            94 => Ok(Opcode::I64Ne),
            95 => Ok(Opcode::I64LtU),
            96 => Ok(Opcode::I64LtS),
            97 => Ok(Opcode::I64LeU),
            98 => Ok(Opcode::I64LeS),
            99 => Ok(Opcode::I64GtU),
            100 => Ok(Opcode::I64GtS),
            101 => Ok(Opcode::I64GeU),
            102 => Ok(Opcode::I64GeS),
            103 => Ok(Opcode::I64ExtendI32U),
            104 => Ok(Opcode::I64ExtendI32S),
            _ => Err(ExecuteError::IllegalOpcode),
        }
    }
}

} // verus!
