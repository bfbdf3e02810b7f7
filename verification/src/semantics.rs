//! What each instruction does, as a function on machine states.
//!
//! A [`Machine`] is everything a guest can observe: the instruction
//! pointer, the reset-slots fuse and the four resources of the host.
//! [`execute_spec`] says what one decoded instruction makes of a machine,
//! [`step_spec`] adds fetching and decoding. Three instructions consult the
//! host (`GrowMemory`, `ResetSlots`, `NativeInvoke`); for them the
//! functions give the outcome in case the host agrees.
//!
//! A fault names the state that it leaves. An instruction works through
//! its immediates and operands in a fixed order, and one that fails has
//! read the immediates and taken the operands that it got to, and has
//! changed nothing else.
use crate::endian::le_value;
use crate::endian::radix;
use crate::environment::zero_bytes;
use crate::environment::zero_cells;
use crate::environment::Resources;
use crate::error::ExecuteError;
use crate::memory::blit;
use crate::memory::load;
use crate::memory::store;
use crate::module::Opcode;
use crate::numeric::binary_spec;
use crate::numeric::is_binary;
use crate::numeric::is_relational;
use crate::numeric::is_unary;
use crate::numeric::relational_spec;
use crate::numeric::unary_spec;
use crate::numeric::wrap_i64;
use crate::numeric::wrap_u32;
use crate::numeric::wrap_u64;
use crate::tape::TapeView;
use vstd::prelude::*;

verus! {

/// The state of a run between two instructions.
pub struct Machine {
    /// The instruction pointer: the cursor of the code tape.
    pub ip: nat,
    /// Whether `ResetSlots` has been executed.
    pub fuse: bool,
    /// The resources that the host holds.
    pub res: Resources,
}

/// What one instruction leads to.
pub enum Outcome {
    /// Execution goes on from the given state.
    Continue(Machine),
    /// The run ended cleanly in the given state.
    Halt(Machine),
    /// The run was aborted with the given error, in the given state.
    Fault(ExecuteError, Machine),
}

/// The low 64 bits of a cell, read as an unsigned number.
pub open spec fn cell_u64(v: i64) -> nat {
    wrap_u64(v as int) as nat
}

/// The low 32 bits of a cell, read as an unsigned number.
pub open spec fn cell_u32(v: i64) -> nat {
    wrap_u32(v as int) as nat
}

/// The cell that holds the low 64 bits of `x`.
pub open spec fn cell_of(x: int) -> i64 {
    wrap_i64(x) as i64
}

/// Whether `n` bytes of immediates are present at `at`.
pub open spec fn has_bytes(code: Seq<u8>, at: nat, n: nat) -> bool {
    at + n <= code.len()
}

/// The 32-bit immediate at `at`.
pub open spec fn imm_u32(code: Seq<u8>, at: nat) -> nat {
    le_value(code.subrange(at as int, at + 4 as int))
}

/// The 64-bit immediate at `at`.
pub open spec fn imm_u64(code: Seq<u8>, at: nat) -> nat {
    le_value(code.subrange(at as int, at + 8 as int))
}

/// The cells that `Call` appends to the call stack: the arguments, the
/// extra locals (zero), the number of locals and the return address.
pub open spec fn call_frame(args: Seq<i64>, n_locals: nat, return_ip: nat) -> Seq<i64> {
    args + zero_cells(n_locals) + seq![
        cell_of((args.len() + n_locals) as int),
        cell_of(return_ip as int),
    ]
}

impl Machine {
    pub open spec fn stack(self) -> TapeView<i64> {
        self.res.stack
    }

    pub open spec fn call_stack(self) -> TapeView<i64> {
        self.res.call_stack
    }

    pub open spec fn memory(self) -> Seq<u8> {
        self.res.memory
    }

    pub open spec fn slots(self) -> Seq<i64> {
        self.res.slots
    }

    /// The cursors of both stacks lie within their buffers.
    pub open spec fn wf(self) -> bool {
        self.res.stack.wf() && self.res.call_stack.wf()
    }

    pub open spec fn goto(self, ip: nat) -> Machine {
        Machine { ip, ..self }
    }

    pub open spec fn skip(self, n: nat) -> Machine {
        Machine { ip: self.ip + n, ..self }
    }

    pub open spec fn with_stack(self, stack: TapeView<i64>) -> Machine {
        Machine { res: Resources { stack, ..self.res }, ..self }
    }

    pub open spec fn with_call_stack(self, call_stack: TapeView<i64>) -> Machine {
        Machine { res: Resources { call_stack, ..self.res }, ..self }
    }

    pub open spec fn with_memory(self, memory: Seq<u8>) -> Machine {
        Machine { res: Resources { memory, ..self.res }, ..self }
    }

    pub open spec fn with_slots(self, slots: Seq<i64>) -> Machine {
        Machine { res: Resources { slots, ..self.res }, ..self }
    }

    /// The machine after the operand stack was popped until it is empty:
    /// what an instruction leaves that finds fewer operands than it takes.
    pub open spec fn drained(self) -> Machine {
        self.with_stack(self.stack().pop(self.stack().pos))
    }

    /// The machine after `n` cells were popped off the operand stack.
    pub open spec fn popped(self, n: nat) -> Machine {
        self.with_stack(self.stack().pop(n))
    }

    /// The fault `Bounds`, leaving the machine as it is.
    pub open spec fn out_of_bounds(self) -> Outcome {
        Outcome::Fault(ExecuteError::Bounds, self)
    }

    /// Pushes `v` on the operand stack; on a full stack that is a fault
    /// that changes nothing.
    pub open spec fn push(self, v: i64) -> Outcome {
        if self.stack().pos < self.stack().cells.len() {
            Outcome::Continue(self.with_stack(self.stack().push(v)))
        } else {
            self.out_of_bounds()
        }
    }

    /// Moves the instruction pointer to `target`, which may be any position
    /// up to and including the end of the code; any other target is a
    /// fault that changes nothing.
    pub open spec fn jump(self, code: Seq<u8>, target: nat) -> Outcome {
        if target <= code.len() {
            Outcome::Continue(self.goto(target))
        } else {
            self.out_of_bounds()
        }
    }

    /// Whether the call stack ends in a frame that fits on it: the two top
    /// cells are `N` and the return address, with `N` locals below.
    pub open spec fn has_frame(self) -> bool {
        self.call_stack().pos >= 2 && cell_u64(self.call_stack().top(2)) + 2
            <= self.call_stack().pos
    }

    /// The number of locals of the current frame.
    pub open spec fn n_locals(self) -> nat {
        cell_u64(self.call_stack().top(2))
    }

    /// The index on the call stack of local `id` of the current frame.
    pub open spec fn local_at(self, id: nat) -> int {
        self.call_stack().pos - 2 - self.n_locals() + id
    }
}

pub open spec fn is_load(op: Opcode) -> bool {
    matches!(
        op,
        Opcode::I32Load | Opcode::I32Load8U | Opcode::I32Load8S | Opcode::I32Load16U
            | Opcode::I32Load16S | Opcode::I64Load | Opcode::I64Load8U | Opcode::I64Load8S
            | Opcode::I64Load16U | Opcode::I64Load16S | Opcode::I64Load32U | Opcode::I64Load32S
    )
}

pub open spec fn is_store(op: Opcode) -> bool {
    matches!(
        op,
        Opcode::I32Store | Opcode::I32Store8 | Opcode::I32Store16 | Opcode::I64Store
            | Opcode::I64Store8 | Opcode::I64Store16 | Opcode::I64Store32
    )
}

/// The number of bytes that a load or store touches.
pub open spec fn access_width(op: Opcode) -> nat {
    match op {
        Opcode::I32Load8U | Opcode::I32Load8S | Opcode::I64Load8U | Opcode::I64Load8S
        | Opcode::I32Store8 | Opcode::I64Store8 => 1,
        Opcode::I32Load16U | Opcode::I32Load16S | Opcode::I64Load16U | Opcode::I64Load16S
        | Opcode::I32Store16 | Opcode::I64Store16 => 2,
        Opcode::I32Load | Opcode::I64Load32U | Opcode::I64Load32S | Opcode::I32Store
        | Opcode::I64Store32 => 4,
        _ => 8,
    }
}

/// Whether a load widens what it read by its sign.
pub open spec fn load_signed(op: Opcode) -> bool {
    matches!(
        op,
        Opcode::I32Load8S | Opcode::I32Load16S | Opcode::I64Load8S | Opcode::I64Load16S
            | Opcode::I64Load32S
    )
}

/// The cell that a load makes of the `width`-byte number `v`: widened by
/// sign for the signed loads, by zeros for the others.
pub open spec fn loaded_cell(op: Opcode, v: nat) -> i64 {
    if load_signed(op) && 2 * v >= radix(access_width(op)) {
        cell_of(v - radix(access_width(op)))
    } else {
        cell_of(v as int)
    }
}

/// The address that a load or store accesses: the immediate offset plus
/// the low 32 bits of the address cell.
pub open spec fn real_addr(code: Seq<u8>, m: Machine, addr: i64) -> nat {
    imm_u32(code, m.ip) + cell_u32(addr)
}

pub open spec fn load_spec(code: Seq<u8>, op: Opcode, m: Machine) -> Outcome {
    if !has_bytes(code, m.ip, 4) {
        m.out_of_bounds()
    } else if m.stack().pos < 1 {
        m.skip(4).out_of_bounds()
    } else {
        let at = real_addr(code, m, m.stack().top(1));
        let width = access_width(op);
        if at + width > m.memory().len() {
            m.skip(4).popped(1).out_of_bounds()
        } else {
            Outcome::Continue(
                m.skip(4).with_stack(
                    m.stack().pop(1).push(loaded_cell(op, load(m.memory(), at, width))),
                ),
            )
        }
    }
}

pub open spec fn store_spec(code: Seq<u8>, op: Opcode, m: Machine) -> Outcome {
    if !has_bytes(code, m.ip, 4) {
        m.out_of_bounds()
    } else if m.stack().pos < 2 {
        m.skip(4).drained().out_of_bounds()
    } else {
        let at = real_addr(code, m, m.stack().top(2));
        let width = access_width(op);
        if at + width > m.memory().len() {
            m.skip(4).popped(2).out_of_bounds()
        } else {
            Outcome::Continue(
                m.skip(4).with_stack(m.stack().pop(2)).with_memory(
                    store(m.memory(), at, width, cell_u64(m.stack().top(1)) % radix(width)),
                ),
            )
        }
    }
}

pub open spec fn unary_op_spec(op: Opcode, m: Machine) -> Outcome {
    if m.stack().pos < 1 {
        m.out_of_bounds()
    } else {
        Outcome::Continue(
            m.with_stack(m.stack().pop(1).push(unary_spec(op, m.stack().top(1)))),
        )
    }
}

pub open spec fn binary_op_spec(op: Opcode, m: Machine) -> Outcome {
    if m.stack().pos < 2 {
        m.drained().out_of_bounds()
    } else {
        match binary_spec(op, m.stack().top(2), m.stack().top(1)) {
            Ok(v) => Outcome::Continue(m.with_stack(m.stack().pop(2).push(v))),
            Err(e) => Outcome::Fault(e, m.popped(2)),
        }
    }
}

pub open spec fn relational_op_spec(op: Opcode, m: Machine) -> Outcome {
    if m.stack().pos < 2 {
        m.drained().out_of_bounds()
    } else {
        let holds = relational_spec(op, m.stack().top(2), m.stack().top(1));
        Outcome::Continue(
            m.with_stack(
                m.stack().pop(2).push(
                    if holds {
                        1i64
                    } else {
                        0i64
                    },
                ),
            ),
        )
    }
}

pub open spec fn select_spec(m: Machine) -> Outcome {
    if m.stack().pos < 3 {
        m.drained().out_of_bounds()
    } else {
        let chosen = if m.stack().top(1) != 0 {
            m.stack().top(3)
        } else {
            m.stack().top(2)
        };
        Outcome::Continue(m.with_stack(m.stack().pop(3).push(chosen)))
    }
}

pub open spec fn swap2_spec(m: Machine) -> Outcome {
    if m.stack().pos < 2 {
        m.out_of_bounds()
    } else {
        let s = m.stack();
        Outcome::Continue(
            m.with_stack(s.with_cell(s.pos - 2, s.top(1)).with_cell(s.pos - 1, s.top(2))),
        )
    }
}

pub open spec fn dup_spec(m: Machine) -> Outcome {
    if m.stack().pos < 1 {
        m.out_of_bounds()
    } else {
        m.push(m.stack().top(1))
    }
}

/// `Call n_args`. The frame is written to the call stack cell by cell: a
/// frame that does not fit fills the call stack to its end before the
/// fault.
pub open spec fn call_spec(code: Seq<u8>, m: Machine) -> Outcome {
    if !has_bytes(code, m.ip, 4) {
        m.out_of_bounds()
    } else if m.stack().pos < 2 {
        m.skip(4).drained().out_of_bounds()
    } else {
        let n_args = imm_u32(code, m.ip);
        let n_locals = cell_u64(m.stack().top(1));
        let target = cell_u64(m.stack().top(2));
        let s = m.stack();
        let cs = m.call_stack();
        if n_args + 2 > s.pos {
            m.skip(4).popped(2).out_of_bounds()
        } else {
            let args = s.cells.subrange(s.pos - 2 - n_args, s.pos - 2);
            let frame = call_frame(args, n_locals, m.ip + 4);
            let moved = m.skip(4).popped(2 + n_args);
            if frame.len() > cs.remaining() {
                moved.with_call_stack(cs.write(frame.take(cs.remaining() as int))).out_of_bounds()
            } else if target > code.len() {
                moved.with_call_stack(cs.write(frame)).out_of_bounds()
            } else {
                Outcome::Continue(moved.goto(target).with_call_stack(cs.write(frame)))
            }
        }
    }
}

pub open spec fn return_spec(code: Seq<u8>, m: Machine) -> Outcome {
    let cs = m.call_stack();
    if cs.pos < 2 {
        m.with_call_stack(cs.pop(cs.pos)).out_of_bounds()
    } else if !m.has_frame() {
        m.with_call_stack(cs.pop(2)).out_of_bounds()
    } else {
        let return_ip = cell_u64(cs.top(1));
        let back = m.with_call_stack(cs.pop(2 + m.n_locals()));
        if return_ip > code.len() {
            back.out_of_bounds()
        } else {
            Outcome::Continue(back.goto(return_ip))
        }
    }
}

pub open spec fn get_local_spec(code: Seq<u8>, m: Machine) -> Outcome {
    if !has_bytes(code, m.ip, 4) {
        m.out_of_bounds()
    } else if !m.has_frame() || imm_u32(code, m.ip) >= m.n_locals() {
        m.skip(4).out_of_bounds()
    } else {
        m.skip(4).push(m.call_stack().cells[m.local_at(imm_u32(code, m.ip))])
    }
}

pub open spec fn set_local_spec(code: Seq<u8>, m: Machine, keep: bool) -> Outcome {
    if !has_bytes(code, m.ip, 4) {
        m.out_of_bounds()
    } else if !m.has_frame() || imm_u32(code, m.ip) >= m.n_locals() || m.stack().pos < 1 {
        m.skip(4).out_of_bounds()
    } else {
        let stored = m.skip(4).with_call_stack(
            m.call_stack().with_cell(m.local_at(imm_u32(code, m.ip)), m.stack().top(1)),
        );
        Outcome::Continue(
            if keep {
                stored
            } else {
                stored.with_stack(m.stack().pop(1))
            },
        )
    }
}

pub open spec fn get_slot_spec(code: Seq<u8>, m: Machine) -> Outcome {
    if !has_bytes(code, m.ip, 4) {
        m.out_of_bounds()
    } else if imm_u32(code, m.ip) >= m.slots().len() {
        m.skip(4).out_of_bounds()
    } else {
        m.skip(4).push(m.slots()[imm_u32(code, m.ip) as int])
    }
}

pub open spec fn get_slot_indirect_spec(m: Machine) -> Outcome {
    if m.stack().pos < 1 {
        m.out_of_bounds()
    } else if cell_u64(m.stack().top(1)) >= m.slots().len() {
        m.popped(1).out_of_bounds()
    } else {
        Outcome::Continue(
            m.with_stack(m.stack().pop(1).push(m.slots()[cell_u64(m.stack().top(1)) as int])),
        )
    }
}

pub open spec fn set_slot_spec(code: Seq<u8>, m: Machine) -> Outcome {
    if !has_bytes(code, m.ip, 4) {
        m.out_of_bounds()
    } else if m.stack().pos < 1 {
        m.skip(4).out_of_bounds()
    } else if imm_u32(code, m.ip) >= m.slots().len() {
        m.skip(4).popped(1).out_of_bounds()
    } else {
        Outcome::Continue(
            m.skip(4).with_stack(m.stack().pop(1)).with_slots(
                m.slots().update(imm_u32(code, m.ip) as int, m.stack().top(1)),
            ),
        )
    }
}

/// The state in which `ResetSlots` asks the host: the fuse is blown, the
/// slots are still as they were.
pub open spec fn reset_slots_asked(m: Machine) -> Machine {
    Machine { fuse: true, ..m.skip(4) }
}

/// `ResetSlots`, if the host agrees to the reset.
pub open spec fn reset_slots_spec(code: Seq<u8>, m: Machine) -> Outcome {
    if !has_bytes(code, m.ip, 4) {
        m.out_of_bounds()
    } else if m.fuse {
        Outcome::Fault(ExecuteError::Fuse, m.skip(4))
    } else {
        Outcome::Continue(reset_slots_asked(m).with_slots(zero_cells(imm_u32(code, m.ip))))
    }
}

/// `NativeInvoke`, up to the call of the host: the state that the host is
/// handed.
pub open spec fn native_invoke_spec(code: Seq<u8>, m: Machine) -> Outcome {
    if !has_bytes(code, m.ip, 4) {
        m.out_of_bounds()
    } else {
        Outcome::Continue(m.skip(4))
    }
}

/// The state in which `GrowMemory` asks the host: the amount is popped
/// and the length of memory pushed, memory is still as it was.
pub open spec fn grow_memory_asked(m: Machine) -> Machine {
    m.with_stack(m.stack().pop(1).push(cell_of(m.memory().len() as int)))
}

/// `GrowMemory`, if the host agrees to the growth. A growth that no
/// address of this platform could reach is refused by the machine itself.
pub open spec fn grow_memory_spec(m: Machine) -> Outcome {
    if m.stack().pos < 1 {
        m.out_of_bounds()
    } else if cell_u64(m.stack().top(1)) > usize::MAX {
        Outcome::Fault(ExecuteError::MemoryLimit, grow_memory_asked(m))
    } else {
        Outcome::Continue(
            grow_memory_asked(m).with_memory(m.memory() + zero_bytes(cell_u64(m.stack().top(1)))),
        )
    }
}

pub open spec fn jmp_spec(code: Seq<u8>, m: Machine) -> Outcome {
    if !has_bytes(code, m.ip, 4) {
        m.out_of_bounds()
    } else {
        m.skip(4).jump(code, imm_u32(code, m.ip))
    }
}

pub open spec fn jmp_if_spec(code: Seq<u8>, m: Machine) -> Outcome {
    if !has_bytes(code, m.ip, 4) {
        m.out_of_bounds()
    } else if m.stack().pos < 1 {
        m.skip(4).out_of_bounds()
    } else {
        let next = m.skip(4).popped(1);
        if m.stack().top(1) != 0 {
            next.jump(code, imm_u32(code, m.ip))
        } else {
            Outcome::Continue(next)
        }
    }
}

pub open spec fn jmp_either_spec(code: Seq<u8>, m: Machine) -> Outcome {
    if !has_bytes(code, m.ip, 4) {
        m.out_of_bounds()
    } else if !has_bytes(code, m.ip, 8) {
        m.skip(4).out_of_bounds()
    } else if m.stack().pos < 1 {
        m.skip(8).out_of_bounds()
    } else {
        let next = m.skip(8).popped(1);
        if m.stack().top(1) != 0 {
            next.jump(code, imm_u32(code, m.ip))
        } else {
            next.jump(code, imm_u32(code, m.ip + 4))
        }
    }
}

/// `JmpTable default, n, table[n]`: an index below `n` selects its entry
/// of the table, any other index the default.
pub open spec fn jmp_table_spec(code: Seq<u8>, m: Machine) -> Outcome {
    if m.stack().pos < 1 {
        m.out_of_bounds()
    } else if !has_bytes(code, m.ip, 4) {
        m.popped(1).out_of_bounds()
    } else if !has_bytes(code, m.ip, 8) {
        m.popped(1).skip(4).out_of_bounds()
    } else if !has_bytes(code, m.ip + 8, 4 * imm_u32(code, m.ip + 4)) {
        m.popped(1).skip(8).out_of_bounds()
    } else {
        let index = cell_u64(m.stack().top(1));
        let n = imm_u32(code, m.ip + 4);
        let next = m.popped(1).skip(8 + 4 * n);
        if index >= n {
            next.jump(code, imm_u32(code, m.ip))
        } else {
            next.jump(code, imm_u32(code, m.ip + 8 + 4 * index))
        }
    }
}

pub open spec fn i32_const_spec(code: Seq<u8>, m: Machine) -> Outcome {
    if !has_bytes(code, m.ip, 4) {
        m.out_of_bounds()
    } else {
        m.skip(4).push(crate::numeric::wrap_i32(imm_u32(code, m.ip) as int) as i64)
    }
}

pub open spec fn i64_const_spec(code: Seq<u8>, m: Machine) -> Outcome {
    if !has_bytes(code, m.ip, 8) {
        m.out_of_bounds()
    } else {
        m.skip(8).push(cell_of(imm_u64(code, m.ip) as int))
    }
}

/// What the instruction `op` makes of the machine `m`, whose instruction
/// pointer stands just behind the opcode byte.
pub open spec fn execute_spec(code: Seq<u8>, op: Opcode, m: Machine) -> Outcome {
    if is_load(op) {
        load_spec(code, op, m)
    } else if is_store(op) {
        store_spec(code, op, m)
    } else if is_unary(op) {
        unary_op_spec(op, m)
    } else if is_binary(op) {
        binary_op_spec(op, m)
    } else if is_relational(op) {
        relational_op_spec(op, m)
    } else {
        match op {
            Opcode::Drop => if m.stack().pos < 1 {
                m.out_of_bounds()
            } else {
                Outcome::Continue(m.popped(1))
            },
            Opcode::Dup => dup_spec(m),
            Opcode::Swap2 => swap2_spec(m),
            Opcode::Select => select_spec(m),
            Opcode::Call => call_spec(code, m),
            Opcode::Return => return_spec(code, m),
            Opcode::Halt => Outcome::Halt(m),
            Opcode::GetLocal => get_local_spec(code, m),
            Opcode::SetLocal => set_local_spec(code, m, false),
            Opcode::TeeLocal => set_local_spec(code, m, true),
            Opcode::GetSlotIndirect => get_slot_indirect_spec(m),
            Opcode::GetSlot => get_slot_spec(code, m),
            Opcode::SetSlot => set_slot_spec(code, m),
            Opcode::ResetSlots => reset_slots_spec(code, m),
            Opcode::NativeInvoke => native_invoke_spec(code, m),
            Opcode::CurrentMemory => m.push(cell_of(m.memory().len() as int)),
            Opcode::GrowMemory => grow_memory_spec(m),
            Opcode::Nop => Outcome::Continue(m),
            Opcode::Unreachable => Outcome::Fault(ExecuteError::Unreachable, m),
            Opcode::NotSupported => Outcome::Fault(ExecuteError::NotSupported, m),
            Opcode::Jmp => jmp_spec(code, m),
            Opcode::JmpIf => jmp_if_spec(code, m),
            Opcode::JmpEither => jmp_either_spec(code, m),
            Opcode::JmpTable => jmp_table_spec(code, m),
            Opcode::I32Const => i32_const_spec(code, m),
            Opcode::I64Const => i64_const_spec(code, m),
            _ => Outcome::Fault(ExecuteError::IllegalOpcode, m),
        }
    }
}

/// What the instruction at the instruction pointer makes of the machine:
/// fetch, decode, execute.
pub open spec fn step_spec(code: Seq<u8>, m: Machine) -> Outcome {
    if m.ip >= code.len() {
        m.out_of_bounds()
    } else if !Opcode::is_valid(code[m.ip as int] as int) {
        Outcome::Fault(ExecuteError::IllegalOpcode, m.skip(1))
    } else {
        execute_spec(code, Opcode::of_number(code[m.ip as int] as int), m.skip(1))
    }
}

/// What replaying the initializer records of `blob` from `at` on over
/// `mem` leads to: the memory reached, and whether the replay ended
/// cleanly there or was stopped by a fault.
///
/// A record is `addr: u32, len: u32, bytes[len]`. The replay ends cleanly
/// where no further address field is left. A record that is cut short, or
/// that does not fit into memory, stops the replay with a fault: the
/// records before it stay applied and the faulty one writes nothing.
pub open spec fn replay(blob: Seq<u8>, at: nat, mem: Seq<u8>) -> (Seq<u8>, Result<(), ExecuteError>)
    decreases blob.len() - at,
{
    if !has_bytes(blob, at, 4) {
        (mem, Ok(()))
    } else if !has_bytes(blob, at, 8) || !has_bytes(blob, at + 8, imm_u32(blob, at + 4)) {
        (mem, Err(ExecuteError::Bounds))
    } else {
        let addr = imm_u32(blob, at);
        let len = imm_u32(blob, at + 4);
        if addr >= mem.len() || addr + len > mem.len() {
            (mem, Err(ExecuteError::Bounds))
        } else {
            replay(
                blob,
                at + 8 + len,
                blit(mem, addr, blob.subrange((at + 8) as int, (at + 8 + len) as int)),
            )
        }
    }
}

} // verus!
