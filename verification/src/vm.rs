//! The execution engine: replay of the memory initializers and the
//! interpreter loop.
use crate::endian::lemma_radix_values;
use crate::environment::Environment;
use crate::environment::Resources;
use crate::environment::host_kind;
use crate::environment::lemma_resources_wf;
use crate::environment::HostKind;
use crate::environment::resources;
use crate::environment::zero_cells;
use crate::error::ExecuteError;
use crate::error::ExecuteResult;
use crate::memory::bounds_check;
use crate::memory::copy_into;
use crate::memory::read_u16;
use crate::memory::read_u32;
use crate::memory::read_u64;
use crate::memory::read_u8;
use crate::memory::write_u16;
use crate::memory::write_u32;
use crate::memory::write_u64;
use crate::memory::write_u8;
use crate::module::Module;
use crate::module::Opcode;
use crate::numeric::binary;
use crate::numeric::is_binary;
use crate::numeric::is_relational;
use crate::numeric::is_unary;
use crate::numeric::lemma_cell_u64;
use crate::numeric::lemma_low_u32;
use crate::numeric::lemma_truncate;
use crate::numeric::lemma_u64_cell;
use crate::numeric::lemma_wrap_i32_near;
use crate::numeric::lemma_wrap_i64_fixed;
use crate::numeric::relational;
use crate::numeric::unary;
use crate::semantics::Machine;
use crate::semantics::Outcome;
use crate::semantics::binary_op_spec;
use crate::semantics::call_frame;
use crate::semantics::call_spec;
use crate::semantics::cell_of;
use crate::semantics::cell_u64;
use crate::semantics::dup_spec;
use crate::semantics::execute_spec;
use crate::semantics::get_local_spec;
use crate::semantics::get_slot_indirect_spec;
use crate::semantics::get_slot_spec;
use crate::semantics::grow_memory_asked;
use crate::semantics::grow_memory_spec;
use crate::semantics::has_bytes;
use crate::semantics::i32_const_spec;
use crate::semantics::i64_const_spec;
use crate::semantics::imm_u32;
use crate::semantics::imm_u64;
use crate::semantics::is_load;
use crate::semantics::is_store;
use crate::semantics::jmp_either_spec;
use crate::semantics::jmp_if_spec;
use crate::semantics::jmp_spec;
use crate::semantics::jmp_table_spec;
use crate::semantics::load_spec;
use crate::semantics::native_invoke_spec;
use crate::semantics::relational_op_spec;
use crate::semantics::replay;
use crate::semantics::reset_slots_asked;
use crate::semantics::reset_slots_spec;
use crate::semantics::return_spec;
use crate::semantics::select_spec;
use crate::semantics::set_local_spec;
use crate::semantics::set_slot_spec;
use crate::semantics::store_spec;
use crate::semantics::swap2_spec;
use crate::semantics::unary_op_spec;
use crate::tape::Tape;
use crate::tape::TapeU8;
use crate::tape::lemma_write_empty;
use crate::tape::lemma_write_push;
use vstd::prelude::*;
use vstd::slice::slice_to_vec;

verus! {

/// Whether execution goes on after an instruction.
#[derive(Copy, Clone, Debug, PartialEq, Eq, Structural)]
pub enum Control {
    /// The next instruction is to be fetched.
    Continue,
    /// `Halt` was executed: the run ended cleanly.
    Halt,
}

/// A machine that runs one module against one environment.
pub struct VirtualMachine<'a, E: Environment> {
    /// The module whose initializers are replayed and whose code is run.
    pub module: Module<'a>,
    /// The host that owns the resources of the run.
    pub env: E,
    /// Set by the first `ResetSlots`; a second one is a fault.
    reset_slots_fuse: bool,
}

/// A stack pointer and an instruction pointer.
#[derive(Copy, Clone, Debug)]
pub struct ExecutionState {
    pub sp: usize,
    pub ip: usize,
}

impl Default for ExecutionState {
    /// Both pointers at zero.
    fn default() -> (s: ExecutionState)
        ensures
            s.sp == 0,
            s.ip == 0,
    {
        ExecutionState { sp: 0, ip: 0 }
    }
}

/// Whether the result `r` and the state `post` are what the outcome `o`
/// asks for: the result it names, and the very state it leaves.
pub open spec fn agrees(o: Outcome, post: Machine, r: ExecuteResult<Control>) -> bool {
    match o {
        Outcome::Continue(m) => r == Ok::<Control, ExecuteError>(Control::Continue) && post == m,
        Outcome::Halt(m) => r == Ok::<Control, ExecuteError>(Control::Halt) && post == m,
        Outcome::Fault(e, m) => r == Err::<Control, ExecuteError>(e) && post == m,
    }
}

/// Whether the result `r` and the state `post` are what a request to the
/// host leads to, made in the state `asked` and leading to the state
/// `granted` if the host agrees.
///
/// Where the answer of the host is settled, an agreement leads to
/// `granted` and a refusal is the error of the host and leaves `asked`.
/// Where it is not, the host may refuse, and what it leaves then is up to
/// it; the instruction pointer and the fuse are not in its hands.
pub open spec fn answered(
    answer: Option<ExecuteResult<()>>,
    asked: Machine,
    granted: Machine,
    post: Machine,
    r: ExecuteResult<Control>,
) -> bool {
    match answer {
        Some(Ok(_)) => r == Ok::<Control, ExecuteError>(Control::Continue) && post == granted,
        Some(Err(e)) => r == Err::<Control, ExecuteError>(e) && post == asked,
        None => {
            &&& post.ip == asked.ip
            &&& post.fuse == asked.fuse
            &&& r is Err || (r == Ok::<Control, ExecuteError>(Control::Continue) && post == granted)
        },
    }
}

/// What [`VirtualMachine::execute`] guarantees of the instruction `op` on a
/// host of the given kind.
///
/// An instruction that does not consult the host does exactly what
/// [`execute_spec`] says, and a fault leaves exactly the state that
/// [`execute_spec`] names. `GrowMemory` and `ResetSlots` do what the
/// answer of the host makes of them. `NativeInvoke` on a host without
/// native functions fails with `InvalidNativeInvoke` once its immediate is
/// read, and changes nothing else; on a host with native functions only
/// the instruction pointer and the fuse are known afterwards: the rest is
/// up to the host function.
pub open spec fn execute_post(
    code: Seq<u8>,
    op: Opcode,
    pre: Machine,
    post: Machine,
    r: ExecuteResult<Control>,
    kind: HostKind,
) -> bool {
    let o = execute_spec(code, op, pre);
    match (op, o) {
        (Opcode::NativeInvoke, Outcome::Continue(m)) => if kind.native_functions {
            &&& post.ip == m.ip
            &&& post.fuse == m.fuse
            &&& r is Err || r == Ok::<Control, ExecuteError>(Control::Continue)
        } else {
            r == Err::<Control, ExecuteError>(ExecuteError::InvalidNativeInvoke) && post == m
        },
        (Opcode::GrowMemory, Outcome::Continue(m)) => answered(
            (kind.growth_answer)(pre.memory().len(), cell_u64(pre.stack().top(1))),
            grow_memory_asked(pre),
            m,
            post,
            r,
        ),
        (Opcode::ResetSlots, Outcome::Continue(m)) => answered(
            (kind.reset_answer)(imm_u32(code, pre.ip)),
            reset_slots_asked(pre),
            m,
            post,
            r,
        ),
        _ => agrees(o, post, r),
    }
}

/// What [`VirtualMachine::step`] guarantees of one fetched instruction on
/// a host of the given kind.
///
/// Fetching fails at the end of the code and changes nothing; decoding
/// fails on a byte that is no opcode, with the instruction pointer behind
/// that byte. Once the instruction is decoded the host is asked; a host
/// that watches the opcodes may abort the run with an error of its choice,
/// which leaves the instruction pointer behind the opcode and nothing else
/// changed. Otherwise the instruction is executed.
pub open spec fn step_post(
    code: Seq<u8>,
    pre: Machine,
    post: Machine,
    r: ExecuteResult<Control>,
    kind: HostKind,
) -> bool {
    if pre.ip >= code.len() {
        r == Err::<Control, ExecuteError>(ExecuteError::Bounds) && post == pre
    } else if !Opcode::is_valid(code[pre.ip as int] as int) {
        r == Err::<Control, ExecuteError>(ExecuteError::IllegalOpcode) && post == pre.skip(1)
    } else {
        (kind.watches_opcodes && r is Err && post == pre.skip(1)) || execute_post(
            code,
            Opcode::of_number(code[pre.ip as int] as int),
            pre.skip(1),
            post,
            r,
            kind,
        )
    }
}

/// Whether each state of `trace` leads to the next by one instruction
/// after which execution goes on. In every state of a run the cursors of
/// both stacks lie within their buffers.
pub open spec fn is_run(code: Seq<u8>, trace: Seq<Machine>, kind: HostKind) -> bool {
    &&& trace.len() >= 1
    &&& forall|i: int| 0 <= i < trace.len() ==> (#[trigger] trace[i]).wf()
    &&& forall|i: int|
        #![trigger trace[i]]
        0 <= i < trace.len() - 1 ==> step_post(
            code,
            trace[i],
            trace[i + 1],
            Ok(Control::Continue),
            kind,
        )
}

/// The result of the last instruction of a run that has the result `r`: a
/// clean end is a `Halt`, an error is the error of that instruction.
pub open spec fn last_result(r: ExecuteResult<()>) -> ExecuteResult<Control> {
    match r {
        Ok(_) => Ok(Control::Halt),
        Err(e) => Err(e),
    }
}

/// What [`VirtualMachine::run_for`] guarantees on a host of the given
/// kind: the machine went from `start` through a sequence of instructions,
/// and either the budget ran out after `budget` of them, or one more
/// instruction ended the run with `Halt` or with an error. `end` is the
/// state that the run has left, whatever its result.
pub open spec fn run_post(
    code: Seq<u8>,
    start: Machine,
    end: Machine,
    budget: nat,
    r: ExecuteResult<()>,
    kind: HostKind,
) -> bool {
    exists|trace: Seq<Machine>|
        {
            &&& #[trigger] is_run(code, trace, kind)
            &&& trace[0] == start
            &&& trace.len() <= budget + 1
            &&& {
                ||| {
                    &&& trace.len() == budget + 1
                    &&& r == Err::<(), ExecuteError>(ExecuteError::ExecutionLimit)
                    &&& end == trace.last()
                }
                ||| {
                    &&& trace.len() <= budget
                    &&& step_post(code, trace.last(), end, last_result(r), kind)
                }
            }
        }
}

/// Pops the top cell of the operand stack.
fn pop<E: Environment>(env: &mut E) -> (r: ExecuteResult<i64>)
    ensures
        resources(old(env)).stack.wf(),
        match r {
            Ok(v) => {
                &&& resources(old(env)).stack.pos >= 1
                &&& v == resources(old(env)).stack.top(1)
                &&& resources(final(env)) == (Resources {
                    stack: resources(old(env)).stack.pop(1),
                    ..resources(old(env))
                })
            },
            Err(e) => {
                &&& e == ExecuteError::Bounds
                &&& resources(old(env)).stack.pos == 0
                &&& resources(final(env)) == resources(old(env))
            },
        },
{
    proof {
        env.stack().lemma_wf();
    }
    let stack = env.get_stack_mut();
    match stack.prev() {
        Ok(v) => Ok(*v),
        Err(e) => Err(e),
    }
}

/// Pushes `v` on the operand stack.
fn push<E: Environment>(env: &mut E, v: i64) -> (r: ExecuteResult<()>)
    ensures
        resources(old(env)).stack.wf(),
        match r {
            Ok(_) => {
                &&& resources(old(env)).stack.pos < resources(old(env)).stack.cells.len()
                &&& resources(final(env)) == (Resources {
                    stack: resources(old(env)).stack.push(v),
                    ..resources(old(env))
                })
            },
            Err(e) => {
                &&& e == ExecuteError::Bounds
                &&& resources(old(env)).stack.pos >= resources(old(env)).stack.cells.len()
                &&& resources(final(env)) == resources(old(env))
            },
        },
{
    proof {
        env.stack().lemma_wf();
    }
    env.get_stack_mut().write_next(v)
}

/// Reads a 32-bit immediate and advances past it.
fn imm32(code: &mut Tape<u8>) -> (r: ExecuteResult<u32>)
    ensures
        final(code)@.cells == old(code)@.cells,
        old(code)@.wf(),
        match r {
            Ok(v) => {
                &&& has_bytes(old(code)@.cells, old(code)@.pos, 4)
                &&& v == imm_u32(old(code)@.cells, old(code)@.pos)
                &&& final(code)@.pos == old(code)@.pos + 4
            },
            Err(e) => {
                &&& e == ExecuteError::Bounds
                &&& !has_bytes(old(code)@.cells, old(code)@.pos, 4)
                &&& final(code)@.pos == old(code)@.pos
            },
        },
{
    proof {
        code.lemma_wf();
    }
    code.next_u32()
}

/// Reads a 64-bit immediate and advances past it.
fn imm64(code: &mut Tape<u8>) -> (r: ExecuteResult<u64>)
    ensures
        final(code)@.cells == old(code)@.cells,
        old(code)@.wf(),
        match r {
            Ok(v) => {
                &&& has_bytes(old(code)@.cells, old(code)@.pos, 8)
                &&& v == imm_u64(old(code)@.cells, old(code)@.pos)
                &&& final(code)@.pos == old(code)@.pos + 8
            },
            Err(e) => {
                &&& e == ExecuteError::Bounds
                &&& !has_bytes(old(code)@.cells, old(code)@.pos, 8)
                &&& final(code)@.pos == old(code)@.pos
            },
        },
{
    proof {
        code.lemma_wf();
    }
    code.next_u64()
}

/// Moves the instruction pointer to `target`.
fn jump_to(code: &mut Tape<u8>, target: u32) -> (r: ExecuteResult<()>)
    ensures
        final(code)@.cells == old(code)@.cells,
        match r {
            Ok(_) => target <= old(code)@.cells.len() && final(code)@.pos == target,
            Err(e) => {
                &&& e == ExecuteError::Bounds
                &&& target > old(code)@.cells.len()
                &&& final(code)@.pos == old(code)@.pos
            },
        },
{
    code.set_pos(target as usize)
}

/// Finds the frame on top of the call stack: the index of its first local
/// and the number of its locals.
fn frame<E: Environment>(env: &E) -> (r: ExecuteResult<(usize, usize)>)
    ensures
        resources(env).call_stack.wf(),
        resources(env).call_stack.cells.len() <= usize::MAX,
        match r {
            Ok((base, n)) => {
                &&& resources(env).call_stack.pos >= 2
                &&& n == cell_u64(resources(env).call_stack.top(2))
                &&& n + 2 <= resources(env).call_stack.pos
                &&& base == resources(env).call_stack.pos - 2 - n
            },
            Err(e) => {
                &&& e == ExecuteError::Bounds
                &&& !(resources(env).call_stack.pos >= 2 && cell_u64(
                    resources(env).call_stack.top(2),
                ) + 2 <= resources(env).call_stack.pos)
            },
        },
{
    proof {
        env.call_stack().lemma_wf();
    }
    let cs = env.get_call_stack();
    let pos = cs.get_pos();
    if pos < 2 {
        return Err(ExecuteError::Bounds);
    }
    let cell = *cs.at(pos - 2)?;
    let n = cell as u64;
    proof {
        lemma_cell_u64(cell);
    }
    if n > (pos - 2) as u64 {
        return Err(ExecuteError::Bounds);
    }
    Ok((pos - 2 - n as usize, n as usize))
}

/// Whether `op` is a load.
fn loads(op: Opcode) -> (b: bool)
    ensures
        b == is_load(op),
{
    match op {
        Opcode::I32Load | Opcode::I32Load8U | Opcode::I32Load8S | Opcode::I32Load16U
        | Opcode::I32Load16S | Opcode::I64Load | Opcode::I64Load8U | Opcode::I64Load8S
        | Opcode::I64Load16U | Opcode::I64Load16S | Opcode::I64Load32U | Opcode::I64Load32S => true,
        _ => false,
    }
}

/// Whether `op` is a store.
fn stores(op: Opcode) -> (b: bool)
    ensures
        b == is_store(op),
{
    match op {
        Opcode::I32Store | Opcode::I32Store8 | Opcode::I32Store16 | Opcode::I64Store
        | Opcode::I64Store8 | Opcode::I64Store16 | Opcode::I64Store32 => true,
        _ => false,
    }
}

/// Whether `op` takes one operand and leaves one result.
fn computes_unary(op: Opcode) -> (b: bool)
    ensures
        b == is_unary(op),
{
    match op {
        Opcode::I32Ctz | Opcode::I32Clz | Opcode::I32Popcnt | Opcode::I32WrapI64
        | Opcode::I64Ctz | Opcode::I64Clz | Opcode::I64Popcnt | Opcode::I64ExtendI32U
        | Opcode::I64ExtendI32S => true,
        _ => false,
    }
}

/// Whether `op` takes two operands and leaves one result.
fn computes_binary(op: Opcode) -> (b: bool)
    ensures
        b == is_binary(op),
{
    match op {
        Opcode::I32Add | Opcode::I32Sub | Opcode::I32Mul | Opcode::I32DivU | Opcode::I32DivS
        | Opcode::I32RemU | Opcode::I32RemS | Opcode::I32And | Opcode::I32Or
        | Opcode::I32Xor | Opcode::I32Shl | Opcode::I32ShrU | Opcode::I32ShrS
        | Opcode::I32Rotl | Opcode::I32Rotr | Opcode::I64Add | Opcode::I64Sub
        | Opcode::I64Mul | Opcode::I64DivU | Opcode::I64DivS | Opcode::I64RemU
        | Opcode::I64RemS | Opcode::I64And | Opcode::I64Or | Opcode::I64Xor | Opcode::I64Shl
        | Opcode::I64ShrU | Opcode::I64ShrS | Opcode::I64Rotl | Opcode::I64Rotr => true,
        _ => false,
    }
}

/// Whether `op` is a comparison.
fn compares(op: Opcode) -> (b: bool)
    ensures
        b == is_relational(op),
{
    match op {
        Opcode::I32Eq | Opcode::I32Ne | Opcode::I32LtU | Opcode::I32LtS | Opcode::I32LeU
        | Opcode::I32LeS | Opcode::I32GtU | Opcode::I32GtS | Opcode::I32GeU | Opcode::I32GeS
        | Opcode::I64Eq | Opcode::I64Ne | Opcode::I64LtU | Opcode::I64LtS | Opcode::I64LeU
        | Opcode::I64LeS | Opcode::I64GtU | Opcode::I64GtS | Opcode::I64GeU | Opcode::I64GeS => true,
        _ => false,
    }
}

impl<'a, E: Environment> VirtualMachine<'a, E> {
    /// The environment of the machine.
    pub closed spec fn host(&self) -> E {
        self.env
    }

    /// The module that the machine runs.
    pub closed spec fn program(&self) -> Module<'a> {
        self.module
    }

    /// Whether `ResetSlots` has been executed on this machine.
    pub closed spec fn fuse(&self) -> bool {
        self.reset_slots_fuse
    }

    /// The state of the machine when the instruction pointer is `ip`.
    pub open spec fn state(&self, ip: nat) -> Machine {
        Machine { ip, fuse: self.fuse(), res: resources(&self.host()) }
    }

    /// The environment, to read what a run has left.
    pub fn environment(&self) -> (e: &E)
        ensures
            *e == self.host(),
    {
        &self.env
    }

    /// Hands the environment back and ends the machine.
    pub fn into_environment(self) -> (e: E)
        ensures
            e == self.host(),
    {
        self.env
    }

    /// The module that the machine runs.
    pub fn loaded_module(&self) -> (m: &Module<'a>)
        ensures
            *m == self.program(),
    {
        &self.module
    }

    /// Whether `ResetSlots` has been executed on this machine.
    pub fn fuse_is_blown(&self) -> (b: bool)
        ensures
            b == self.fuse(),
    {
        self.reset_slots_fuse
    }

    /// A machine for `module` over `env`, with the fuse intact.
    pub fn new(module: &Module<'a>, env: E) -> (vm: VirtualMachine<'a, E>)
        ensures
            vm.host() == env,
            !vm.fuse(),
            vm.program() == *module,
    {
        VirtualMachine { module: *module, env: env, reset_slots_fuse: false }
    }

    fn op_drop(&mut self, code: &Tape<u8>) -> (r: ExecuteResult<Control>)
        ensures
            final(self).program() == old(self).program(),
            agrees(
                if old(self).state(code@.pos).stack().pos < 1 {
                    old(self).state(code@.pos).out_of_bounds()
                } else {
                    Outcome::Continue(old(self).state(code@.pos).popped(1))
                },
                final(self).state(code@.pos),
                r,
            ),
    {
        pop(&mut self.env)?;
        Ok(Control::Continue)
    }

    fn op_dup(&mut self, code: &Tape<u8>) -> (r: ExecuteResult<Control>)
        ensures
            final(self).program() == old(self).program(),
            agrees(dup_spec(old(self).state(code@.pos)), final(self).state(code@.pos), r),
    {
        let top = match self.env.get_stack().tail_many(1) {
            Ok(tail) => tail[0],
            Err(e) => { return Err(e); },
        };
        push(&mut self.env, top)?;
        Ok(Control::Continue)
    }

    fn op_swap2(&mut self, code: &Tape<u8>) -> (r: ExecuteResult<Control>)
        ensures
            final(self).program() == old(self).program(),
            agrees(swap2_spec(old(self).state(code@.pos)), final(self).state(code@.pos), r),
    {
        let stack = self.env.get_stack_mut();
        let pos = stack.get_pos();
        if pos < 2 {
            return Err(ExecuteError::Bounds);
        }
        let a = *stack.at(pos - 2)?;
        let b = *stack.at(pos - 1)?;
        stack.write_at(pos - 2, b)?;
        stack.write_at(pos - 1, a)?;
        Ok(Control::Continue)
    }

    fn op_select(&mut self, code: &Tape<u8>) -> (r: ExecuteResult<Control>)
        ensures
            final(self).program() == old(self).program(),
            agrees(select_spec(old(self).state(code@.pos)), final(self).state(code@.pos), r),
    {
        let cond = pop(&mut self.env)?;
        let val2 = pop(&mut self.env)?;
        let val1 = pop(&mut self.env)?;
        push(
            &mut self.env,
            if cond != 0 {
                val1
            } else {
                val2
            },
        )?;
        Ok(Control::Continue)
    }

    fn op_unary(&mut self, code: &Tape<u8>, op: Opcode) -> (r: ExecuteResult<Control>)
        requires
            is_unary(op),
        ensures
            final(self).program() == old(self).program(),
            agrees(
                unary_op_spec(op, old(self).state(code@.pos)),
                final(self).state(code@.pos),
                r,
            ),
    {
        let v = pop(&mut self.env)?;
        push(&mut self.env, unary(op, v))?;
        Ok(Control::Continue)
    }

    fn op_binary(&mut self, code: &Tape<u8>, op: Opcode) -> (r: ExecuteResult<Control>)
        requires
            is_binary(op),
        ensures
            final(self).program() == old(self).program(),
            agrees(
                binary_op_spec(op, old(self).state(code@.pos)),
                final(self).state(code@.pos),
                r,
            ),
    {
        let b = pop(&mut self.env)?;
        let a = pop(&mut self.env)?;
        let v = binary(op, a, b)?;
        push(&mut self.env, v)?;
        Ok(Control::Continue)
    }

    fn op_relational(&mut self, code: &Tape<u8>, op: Opcode) -> (r: ExecuteResult<Control>)
        requires
            is_relational(op),
        ensures
            final(self).program() == old(self).program(),
            agrees(
                relational_op_spec(op, old(self).state(code@.pos)),
                final(self).state(code@.pos),
                r,
            ),
    {
        let b = pop(&mut self.env)?;
        let a = pop(&mut self.env)?;
        let holds = relational(op, a, b);
        push(
            &mut self.env,
            if holds {
                1
            } else {
                0
            },
        )?;
        Ok(Control::Continue)
    }

    fn op_i32_const(&mut self, code: &mut Tape<u8>) -> (r: ExecuteResult<Control>)
        ensures
            final(code)@.cells == old(code)@.cells,
            final(self).program() == old(self).program(),
            agrees(
                i32_const_spec(old(code)@.cells, old(self).state(old(code)@.pos)),
                final(self).state(final(code)@.pos),
                r,
            ),
    {
        let v = imm32(code)?;
        let cell: i64 = if v >= 0x8000_0000 {
            v as i64 - 0x1_0000_0000
        } else {
            v as i64
        };
        proof {
            lemma_wrap_i32_near(v as int);
        }
        push(&mut self.env, cell)?;
        Ok(Control::Continue)
    }

    fn op_i64_const(&mut self, code: &mut Tape<u8>) -> (r: ExecuteResult<Control>)
        ensures
            final(code)@.cells == old(code)@.cells,
            final(self).program() == old(self).program(),
            agrees(
                i64_const_spec(old(code)@.cells, old(self).state(old(code)@.pos)),
                final(self).state(final(code)@.pos),
                r,
            ),
    {
        let v = imm64(code)?;
        proof {
            lemma_u64_cell(v);
        }
        push(&mut self.env, v as i64)?;
        Ok(Control::Continue)
    }

    fn op_jmp(&mut self, code: &mut Tape<u8>) -> (r: ExecuteResult<Control>)
        ensures
            final(code)@.cells == old(code)@.cells,
            final(self).program() == old(self).program(),
            agrees(
                jmp_spec(old(code)@.cells, old(self).state(old(code)@.pos)),
                final(self).state(final(code)@.pos),
                r,
            ),
    {
        let target = imm32(code)?;
        jump_to(code, target)?;
        Ok(Control::Continue)
    }

    fn op_jmp_if(&mut self, code: &mut Tape<u8>) -> (r: ExecuteResult<Control>)
        ensures
            final(code)@.cells == old(code)@.cells,
            final(self).program() == old(self).program(),
            agrees(
                jmp_if_spec(old(code)@.cells, old(self).state(old(code)@.pos)),
                final(self).state(final(code)@.pos),
                r,
            ),
    {
        let target = imm32(code)?;
        let cond = pop(&mut self.env)?;
        if cond != 0 {
            jump_to(code, target)?;
        }
        Ok(Control::Continue)
    }

    fn op_jmp_either(&mut self, code: &mut Tape<u8>) -> (r: ExecuteResult<Control>)
        ensures
            final(code)@.cells == old(code)@.cells,
            final(self).program() == old(self).program(),
            agrees(
                jmp_either_spec(old(code)@.cells, old(self).state(old(code)@.pos)),
                final(self).state(final(code)@.pos),
                r,
            ),
    {
        let target_a = imm32(code)?;
        let target_b = imm32(code)?;
        let cond = pop(&mut self.env)?;
        if cond != 0 {
            jump_to(code, target_a)?;
        } else {
            jump_to(code, target_b)?;
        }
        Ok(Control::Continue)
    }

    fn op_jmp_table(&mut self, code: &mut Tape<u8>) -> (r: ExecuteResult<Control>)
        ensures
            final(code)@.cells == old(code)@.cells,
            final(self).program() == old(self).program(),
            agrees(
                jmp_table_spec(old(code)@.cells, old(self).state(old(code)@.pos)),
                final(self).state(final(code)@.pos),
                r,
            ),
    {
        let index = pop(&mut self.env)? as u64;
        let default_target = imm32(code)?;
        let table_len = imm32(code)?;
        let table_bytes = table_len as u64 * 4;
        if table_bytes > code.remaining() as u64 {
            return Err(ExecuteError::Bounds);
        }
        let ghost cells = code@.cells;
        let ghost start = code@.pos;
        let table = code.next_many(table_bytes as usize)?;
        proof {
            lemma_cell_u64(old(self).state(old(code)@.pos).stack().top(1));
        }
        let target = if index >= table_len as u64 {
            default_target
        } else {
            let at = (index * 4) as usize;
            proof {
                assert(table@.subrange(at as int, at + 4) =~= cells.subrange(
                    start + at,
                    start + at + 4,
                ));
            }
            read_u32(table, at)?
        };
        jump_to(code, target)?;
        Ok(Control::Continue)
    }

    fn op_get_slot(&mut self, code: &mut Tape<u8>) -> (r: ExecuteResult<Control>)
        ensures
            final(code)@.cells == old(code)@.cells,
            final(self).program() == old(self).program(),
            agrees(
                get_slot_spec(old(code)@.cells, old(self).state(old(code)@.pos)),
                final(self).state(final(code)@.pos),
                r,
            ),
    {
        let id = imm32(code)? as usize;
        let slots = self.env.get_slots();
        bounds_check(slots, id, 1)?;
        let val = slots[id];
        push(&mut self.env, val)?;
        Ok(Control::Continue)
    }

    fn op_get_slot_indirect(&mut self, code: &Tape<u8>) -> (r: ExecuteResult<Control>)
        ensures
            final(self).program() == old(self).program(),
            agrees(
                get_slot_indirect_spec(old(self).state(code@.pos)),
                final(self).state(code@.pos),
                r,
            ),
    {
        let cell = pop(&mut self.env)?;
        let id = cell as u64;
        proof {
            lemma_cell_u64(cell);
        }
        let slots = self.env.get_slots();
        if id >= slots.len() as u64 {
            return Err(ExecuteError::Bounds);
        }
        let val = slots[id as usize];
        push(&mut self.env, val)?;
        Ok(Control::Continue)
    }

    fn op_set_slot(&mut self, code: &mut Tape<u8>) -> (r: ExecuteResult<Control>)
        ensures
            final(code)@.cells == old(code)@.cells,
            final(self).program() == old(self).program(),
            agrees(
                set_slot_spec(old(code)@.cells, old(self).state(old(code)@.pos)),
                final(self).state(final(code)@.pos),
                r,
            ),
    {
        let id = imm32(code)? as usize;
        let val = pop(&mut self.env)?;
        let slots = self.env.get_slots_mut();
        bounds_check(slots, id, 1)?;
        slots[id] = val;
        Ok(Control::Continue)
    }

    fn op_current_memory(&mut self, code: &Tape<u8>) -> (r: ExecuteResult<Control>)
        ensures
            final(self).program() == old(self).program(),
            agrees(
                old(self).state(code@.pos).push(
                    cell_of(old(self).state(code@.pos).memory().len() as int),
                ),
                final(self).state(code@.pos),
                r,
            ),
    {
        let len = self.env.get_memory().len() as u64;
        proof {
            lemma_u64_cell(len);
        }
        push(&mut self.env, len as i64)?;
        Ok(Control::Continue)
    }

    fn op_get_local(&mut self, code: &mut Tape<u8>) -> (r: ExecuteResult<Control>)
        ensures
            final(code)@.cells == old(code)@.cells,
            final(self).program() == old(self).program(),
            agrees(
                get_local_spec(old(code)@.cells, old(self).state(old(code)@.pos)),
                final(self).state(final(code)@.pos),
                r,
            ),
    {
        let id = imm32(code)? as usize;
        let (base, n) = frame(&self.env)?;
        if id >= n {
            return Err(ExecuteError::Bounds);
        }
        let v = *self.env.get_call_stack().at(base + id)?;
        push(&mut self.env, v)?;
        Ok(Control::Continue)
    }

    fn op_set_local(&mut self, code: &mut Tape<u8>, keep: bool) -> (r: ExecuteResult<Control>)
        ensures
            final(code)@.cells == old(code)@.cells,
            final(self).program() == old(self).program(),
            agrees(
                set_local_spec(old(code)@.cells, old(self).state(old(code)@.pos), keep),
                final(self).state(final(code)@.pos),
                r,
            ),
    {
        let id = imm32(code)? as usize;
        let (base, n) = frame(&self.env)?;
        if id >= n {
            return Err(ExecuteError::Bounds);
        }
        proof {
            self.env.stack().lemma_wf();
        }
        let v = if keep {
            match self.env.get_stack().tail_many(1) {
                Ok(tail) => tail[0],
                Err(e) => { return Err(e); },
            }
        } else {
            pop(&mut self.env)?
        };
        self.env.get_call_stack_mut().write_at(base + id, v)?;
        Ok(Control::Continue)
    }

    fn op_return(&mut self, code: &mut Tape<u8>) -> (r: ExecuteResult<Control>)
        ensures
            final(code)@.cells == old(code)@.cells,
            final(self).program() == old(self).program(),
            agrees(
                return_spec(old(code)@.cells, old(self).state(old(code)@.pos)),
                final(self).state(final(code)@.pos),
                r,
            ),
    {
        proof {
            self.env.call_stack().lemma_wf();
        }
        let cs = self.env.get_call_stack_mut();
        let ip_cell = *cs.prev()?;
        let n_cell = *cs.prev()?;
        let return_ip = ip_cell as u64;
        let n = n_cell as u64;
        proof {
            lemma_cell_u64(ip_cell);
            lemma_cell_u64(n_cell);
        }
        if n > cs.get_pos() as u64 {
            return Err(ExecuteError::Bounds);
        }
        cs.prev_many(n as usize)?;
        if return_ip > code.len() as u64 {
            return Err(ExecuteError::Bounds);
        }
        code.set_pos(return_ip as usize)?;
        Ok(Control::Continue)
    }

    fn op_load(&mut self, code: &mut Tape<u8>, op: Opcode) -> (r: ExecuteResult<Control>)
        requires
            is_load(op),
        ensures
            final(code)@.cells == old(code)@.cells,
            final(self).program() == old(self).program(),
            agrees(
                load_spec(old(code)@.cells, op, old(self).state(old(code)@.pos)),
                final(self).state(final(code)@.pos),
                r,
            ),
    {
        let offset = imm32(code)?;
        let addr_cell = pop(&mut self.env)?;
        let addr = addr_cell as u32;
        proof {
            lemma_low_u32(addr_cell);
            lemma_radix_values();
        }
        let address = offset as u64 + addr as u64;
        let mem = self.env.get_memory();
        if address >= mem.len() as u64 {
            return Err(ExecuteError::Bounds);
        }
        let at = address as usize;
        let cell: i64 = match op {
            Opcode::I32Load8U | Opcode::I64Load8U => read_u8(mem, at)? as i64,
            Opcode::I32Load8S | Opcode::I64Load8S => {
                let v = read_u8(mem, at)?;
                if v >= 0x80 {
                    v as i64 - 0x100
                } else {
                    v as i64
                }
            },
            Opcode::I32Load16U | Opcode::I64Load16U => read_u16(mem, at)? as i64,
            Opcode::I32Load16S | Opcode::I64Load16S => {
                let v = read_u16(mem, at)?;
                if v >= 0x8000 {
                    v as i64 - 0x1_0000
                } else {
                    v as i64
                }
            },
            Opcode::I32Load | Opcode::I64Load32U => read_u32(mem, at)? as i64,
            Opcode::I64Load32S => {
                let v = read_u32(mem, at)?;
                if v >= 0x8000_0000 {
                    v as i64 - 0x1_0000_0000
                } else {
                    v as i64
                }
            },
            _ => {
                let v = read_u64(mem, at)?;
                proof {
                    lemma_u64_cell(v);
                }
                v as i64
            },
        };
        proof {
            lemma_wrap_i64_fixed(cell as int);
        }
        self.env.trace_load(offset as usize, addr as usize, cell as u64);
        push(&mut self.env, cell)?;
        Ok(Control::Continue)
    }

    fn op_store(&mut self, code: &mut Tape<u8>, op: Opcode) -> (r: ExecuteResult<Control>)
        requires
            is_store(op),
        ensures
            final(code)@.cells == old(code)@.cells,
            final(self).program() == old(self).program(),
            agrees(
                store_spec(old(code)@.cells, op, old(self).state(old(code)@.pos)),
                final(self).state(final(code)@.pos),
                r,
            ),
    {
        let offset = imm32(code)?;
        let val = pop(&mut self.env)?;
        let addr_cell = pop(&mut self.env)?;
        let addr = addr_cell as u32;
        proof {
            lemma_low_u32(addr_cell);
            lemma_truncate(val);
            lemma_radix_values();
        }
        let address = offset as u64 + addr as u64;
        let mem = self.env.get_memory_mut();
        if address >= mem.len() as u64 {
            return Err(ExecuteError::Bounds);
        }
        let at = address as usize;
        match op {
            Opcode::I32Store8 | Opcode::I64Store8 => write_u8(mem, at, val as u8)?,
            Opcode::I32Store16 | Opcode::I64Store16 => write_u16(mem, at, val as u16)?,
            Opcode::I32Store | Opcode::I64Store32 => write_u32(mem, at, val as u32)?,
            _ => write_u64(mem, at, val as u64)?,
        }
        Ok(Control::Continue)
    }

    #[verifier::loop_isolation(false)]
    fn op_call(&mut self, code: &mut Tape<u8>) -> (r: ExecuteResult<Control>)
        ensures
            final(code)@.cells == old(code)@.cells,
            final(self).program() == old(self).program(),
            agrees(
                call_spec(old(code)@.cells, old(self).state(old(code)@.pos)),
                final(self).state(final(code)@.pos),
                r,
            ),
    {
        let ghost m = old(self).state(old(code)@.pos);
        let ghost fuse = self.reset_slots_fuse;
        let ghost program = self.module;
        proof {
            self.env.stack().lemma_wf();
            self.env.call_stack().lemma_wf();
        }
        let n_args = imm32(code)? as usize;
        let locals_cell = pop(&mut self.env)?;
        let target_cell = pop(&mut self.env)?;
        let n_locals = locals_cell as u64;
        let target = target_cell as u64;
        proof {
            lemma_cell_u64(locals_cell);
            lemma_cell_u64(target_cell);
        }
        self.env.trace_call(target as usize, n_locals as usize);
        let base = {
            let stack = self.env.get_stack_mut();
            match stack.prev_many(n_args) {
                Ok(_) => {},
                Err(e) => { return Err(e); },
            }
            stack.get_pos()
        };
        let frame_base = self.env.get_call_stack().get_pos();
        let ghost args = m.stack().cells.subrange(m.stack().pos - 2 - n_args, m.stack().pos - 2);
        let ghost cs0 = m.call_stack();
        let ghost moved = Resources { stack: m.stack().pop((2 + n_args) as nat), ..m.res };
        let ghost whole = call_frame(args, n_locals as nat, m.ip + 4);
        proof {
            lemma_write_empty(cs0);
            assert(args.take(0) =~= Seq::<i64>::empty());
        }
        let mut i: usize = 0;
        while i < n_args
            invariant
                i <= n_args,
                self.reset_slots_fuse == fuse,
                self.module == program,
                resources(&self.env) == (Resources {
                    call_stack: cs0.write(args.take(i as int)),
                    ..moved
                }),
                cs0.pos + i <= cs0.cells.len(),
            decreases n_args - i,
        {
            let v = *self.env.get_stack().at(base + i)?;
            match self.env.get_call_stack_mut().write_next(v) {
                Ok(_) => {},
                Err(e) => {
                    proof {
                        assert(whole.take(cs0.remaining() as int) =~= args.take(i as int));
                    }
                    return Err(e);
                },
            }
            proof {
                lemma_write_push(cs0, args.take(i as int), v);
                assert(args.take(i as int).push(v) =~= args.take(i + 1));
            }
            i += 1;
        }
        proof {
            assert(args.take(n_args as int) =~= args + zero_cells(0));
        }
        let mut j: u64 = 0;
        while j < n_locals
            invariant
                j <= n_locals,
                self.reset_slots_fuse == fuse,
                self.module == program,
                resources(&self.env) == (Resources {
                    call_stack: cs0.write(args + zero_cells(j as nat)),
                    ..moved
                }),
                cs0.pos + n_args + j <= cs0.cells.len(),
            decreases n_locals - j,
        {
            match self.env.get_call_stack_mut().write_next(0) {
                Ok(_) => {},
                Err(e) => {
                    proof {
                        assert(whole.take(cs0.remaining() as int) =~= args + zero_cells(j as nat));
                    }
                    return Err(e);
                },
            }
            proof {
                lemma_write_push(cs0, args + zero_cells(j as nat), 0i64);
                assert((args + zero_cells(j as nat)).push(0i64) =~= args + zero_cells(
                    (j + 1) as nat,
                ));
            }
            j += 1;
        }
        let ghost body = args + zero_cells(n_locals as nat);
        let total = (self.env.get_call_stack().get_pos() - frame_base) as u64;
        let return_ip = code.get_pos() as u64;
        proof {
            lemma_u64_cell(total);
            lemma_u64_cell(return_ip);
        }
        proof {
            assert(body.push(total as i64).push(return_ip as i64) =~= whole);
        }
        match self.env.get_call_stack_mut().write_next(total as i64) {
            Ok(_) => {},
            Err(e) => {
                proof {
                    assert(whole.take(cs0.remaining() as int) =~= body);
                }
                return Err(e);
            },
        }
        proof {
            lemma_write_push(cs0, body, total as i64);
        }
        match self.env.get_call_stack_mut().write_next(return_ip as i64) {
            Ok(_) => {},
            Err(e) => {
                proof {
                    assert(whole.take(cs0.remaining() as int) =~= body.push(total as i64));
                }
                return Err(e);
            },
        }
        proof {
            lemma_write_push(cs0, body.push(total as i64), return_ip as i64);
        }
        if target > code.len() as u64 {
            return Err(ExecuteError::Bounds);
        }
        code.set_pos(target as usize)?;
        Ok(Control::Continue)
    }

    fn op_grow_memory(&mut self, code: &Tape<u8>) -> (r: ExecuteResult<Control>)
        ensures
            final(self).program() == old(self).program(),
            match grow_memory_spec(old(self).state(code@.pos)) {
                Outcome::Continue(m) => answered(
                    E::growth_answer(
                        old(self).state(code@.pos).memory().len(),
                        cell_u64(old(self).state(code@.pos).stack().top(1)),
                    ),
                    grow_memory_asked(old(self).state(code@.pos)),
                    m,
                    final(self).state(code@.pos),
                    r,
                ),
                o => agrees(o, final(self).state(code@.pos), r),
            },
    {
        let cell = pop(&mut self.env)?;
        let delta = cell as u64;
        let len = self.env.get_memory().len() as u64;
        proof {
            lemma_cell_u64(cell);
            lemma_u64_cell(len);
        }
        push(&mut self.env, len as i64)?;
        if delta > usize::MAX as u64 {
            return Err(ExecuteError::MemoryLimit);
        }
        self.env.grow_memory(delta as usize)?;
        Ok(Control::Continue)
    }

    fn op_reset_slots(&mut self, code: &mut Tape<u8>) -> (r: ExecuteResult<Control>)
        ensures
            final(code)@.cells == old(code)@.cells,
            final(self).program() == old(self).program(),
            match reset_slots_spec(old(code)@.cells, old(self).state(old(code)@.pos)) {
                Outcome::Continue(m) => answered(
                    E::reset_answer(imm_u32(old(code)@.cells, old(code)@.pos)),
                    reset_slots_asked(old(self).state(old(code)@.pos)),
                    m,
                    final(self).state(final(code)@.pos),
                    r,
                ),
                o => agrees(o, final(self).state(final(code)@.pos), r),
            },
    {
        let n = imm32(code)? as usize;
        if self.reset_slots_fuse {
            return Err(ExecuteError::Fuse);
        }
        self.reset_slots_fuse = true;
        self.env.reset_slots(n)?;
        Ok(Control::Continue)
    }

    /// Finishes a `NativeInvoke` once the host function has returned: an
    /// error aborts the run, a value is pushed on the operand stack, and no
    /// value leaves the stack as it is.
    pub fn deliver_native_result(
        &mut self,
        code: &Tape<u8>,
        ret: ExecuteResult<Option<i64>>,
    ) -> (r: ExecuteResult<Control>)
        ensures
            final(self).program() == old(self).program(),
            final(self).fuse() == old(self).fuse(),
            match ret {
                Err(e) => r == Err::<Control, ExecuteError>(e) && final(self).state(code@.pos)
                    == old(self).state(code@.pos),
                Ok(None) => {
                    &&& r == Ok::<Control, ExecuteError>(Control::Continue)
                    &&& final(self).state(code@.pos) == old(self).state(code@.pos)
                },
                Ok(Some(v)) => agrees(
                    old(self).state(code@.pos).push(v),
                    final(self).state(code@.pos),
                    r,
                ),
            },
    {
        match ret {
            Err(e) => Err(e),
            Ok(None) => Ok(Control::Continue),
            Ok(Some(v)) => {
                push(&mut self.env, v)?;
                Ok(Control::Continue)
            },
        }
    }

    fn op_native_invoke(&mut self, code: &mut Tape<u8>) -> (r: ExecuteResult<Control>)
        ensures
            final(code)@.cells == old(code)@.cells,
            final(self).program() == old(self).program(),
            final(self).fuse() == old(self).fuse(),
            match native_invoke_spec(old(code)@.cells, old(self).state(old(code)@.pos)) {
                Outcome::Continue(m) => if E::has_native_functions() {
                    final(code)@.pos == m.ip && (r is Err || r == Ok::<Control, ExecuteError>(
                        Control::Continue,
                    ))
                } else {
                    &&& r == Err::<Control, ExecuteError>(ExecuteError::InvalidNativeInvoke)
                    &&& final(self).state(final(code)@.pos) == m
                },
                o => agrees(o, final(self).state(final(code)@.pos), r),
            },
    {
        let id = imm32(code)? as usize;
        let ret = self.env.do_native_invoke(id);
        self.deliver_native_result(code, ret)
    }

    /// Executes an instruction that is neither a load, a store, nor one of
    /// the arithmetic and comparison instructions.
    fn execute_plain(&mut self, code: &mut Tape<u8>, op: Opcode) -> (r: ExecuteResult<Control>)
        requires
            !is_load(op),
            !is_store(op),
            !is_unary(op),
            !is_binary(op),
            !is_relational(op),
        ensures
            final(code)@.cells == old(code)@.cells,
            final(self).program() == old(self).program(),
            execute_post(
                old(code)@.cells,
                op,
                old(self).state(old(code)@.pos),
                final(self).state(final(code)@.pos),
                r,
                host_kind::<E>(),
            ),
    {
        match op {
            Opcode::Drop => self.op_drop(code),
            Opcode::Dup => self.op_dup(code),
            Opcode::Swap2 => self.op_swap2(code),
            Opcode::Select => self.op_select(code),
            Opcode::Call => self.op_call(code),
            Opcode::Return => self.op_return(code),
            Opcode::Halt => Ok(Control::Halt),
            Opcode::GetLocal => self.op_get_local(code),
            Opcode::SetLocal => self.op_set_local(code, false),
            Opcode::TeeLocal => self.op_set_local(code, true),
            Opcode::GetSlotIndirect => self.op_get_slot_indirect(code),
            Opcode::GetSlot => self.op_get_slot(code),
            Opcode::SetSlot => self.op_set_slot(code),
            Opcode::ResetSlots => self.op_reset_slots(code),
            Opcode::NativeInvoke => self.op_native_invoke(code),
            Opcode::CurrentMemory => self.op_current_memory(code),
            Opcode::GrowMemory => self.op_grow_memory(code),
            Opcode::Nop => Ok(Control::Continue),
            Opcode::Unreachable => Err(ExecuteError::Unreachable),
            Opcode::NotSupported => Err(ExecuteError::NotSupported),
            Opcode::Jmp => self.op_jmp(code),
            Opcode::JmpIf => self.op_jmp_if(code),
            Opcode::JmpEither => self.op_jmp_either(code),
            Opcode::JmpTable => self.op_jmp_table(code),
            Opcode::I32Const => self.op_i32_const(code),
            Opcode::I64Const => self.op_i64_const(code),
            _ => Err(ExecuteError::IllegalOpcode),
        }
    }

    /// Executes the decoded instruction `op`, whose immediates stand at the
    /// cursor of `code`. An instruction that fails leaves the state that
    /// its fault names: it has read the immediates and taken the operands
    /// that it got to, and changed nothing else.
    pub fn execute(&mut self, code: &mut Tape<u8>, op: Opcode) -> (r: ExecuteResult<Control>)
        ensures
            final(code)@.cells == old(code)@.cells,
            final(self).program() == old(self).program(),
            final(self).state(final(code)@.pos).wf(),
            execute_post(
                old(code)@.cells,
                op,
                old(self).state(old(code)@.pos),
                final(self).state(final(code)@.pos),
                r,
                host_kind::<E>(),
            ),
    {
        let r = if loads(op) {
            self.op_load(code, op)
        } else if stores(op) {
            self.op_store(code, op)
        } else if computes_unary(op) {
            self.op_unary(code, op)
        } else if computes_binary(op) {
            self.op_binary(code, op)
        } else if compares(op) {
            self.op_relational(code, op)
        } else {
            self.execute_plain(code, op)
        };
        proof {
            lemma_resources_wf(&self.env);
        }
        r
    }

    /// Fetches, decodes and executes the instruction at the cursor of
    /// `code`. The host is asked before the instruction is executed and may
    /// abort the run; nothing but the cursor has moved then.
    pub fn step(&mut self, code: &mut Tape<u8>) -> (r: ExecuteResult<Control>)
        ensures
            final(code)@.cells == old(code)@.cells,
            final(self).program() == old(self).program(),
            final(self).state(final(code)@.pos).wf(),
            step_post(
                old(code)@.cells,
                old(self).state(old(code)@.pos),
                final(self).state(final(code)@.pos),
                r,
                host_kind::<E>(),
            ),
    {
        proof {
            code.lemma_wf();
            lemma_resources_wf(&self.env);
        }
        let byte = *code.next()?;
        let op = Opcode::from_raw(byte)?;
        self.env.trace_opcode(&op)?;
        self.execute(code, op)
    }

    /// Runs the code of the module from its start for at most `budget`
    /// instructions. The run ends cleanly on `Halt`, with
    /// [`ExecuteError::ExecutionLimit`] when the budget is used up, and
    /// with the error of the instruction that failed otherwise. Whatever
    /// the result, the machine is left as the last instruction left it.
    #[verifier::loop_isolation(false)]
    pub fn run_for(&mut self, budget: u64) -> (r: ExecuteResult<()>)
        ensures
            final(self).program() == old(self).program(),
            exists|end_ip: nat|
                run_post(
                    old(self).program().code@,
                    old(self).state(0),
                    #[trigger] final(self).state(end_ip),
                    budget as nat,
                    r,
                    host_kind::<E>(),
                ),
    {
        let ghost start = self.state(0);
        let ghost program = self.module;
        let ghost bytes = self.module.code@;
        let image = slice_to_vec(self.module.code);
        let mut code = Tape::from(image);
        let ghost mut trace = seq![start];
        let mut steps: u64 = 0;
        proof {
            lemma_resources_wf(&self.env);
        }
        loop
            invariant
                self.module == program,
                bytes == program.code@,
                code@.cells == bytes,
                steps <= budget,
                trace.len() == steps + 1,
                is_run(bytes, trace, host_kind::<E>()),
                trace[0] == start,
                trace.last() == self.state(code@.pos),
            decreases budget - steps,
        {
            if steps >= budget {
                proof {
                    assert(run_post(
                        bytes,
                        start,
                        self.state(code@.pos),
                        budget as nat,
                        Err(ExecuteError::ExecutionLimit),
                        host_kind::<E>(),
                    )) by {
                        assert(is_run(bytes, trace, host_kind::<E>()));
                    }
                }
                return Err(ExecuteError::ExecutionLimit);
            }
            match self.step(&mut code) {
                Ok(Control::Halt) => {
                    proof {
                        assert(run_post(
                            bytes,
                            start,
                            self.state(code@.pos),
                            budget as nat,
                            Ok(()),
                            host_kind::<E>(),
                        )) by {
                            assert(is_run(bytes, trace, host_kind::<E>()));
                        }
                    }
                    return Ok(());
                },
                Ok(Control::Continue) => {
                    proof {
                        let longer = trace.push(self.state(code@.pos));
                        assert forall|i: int| 0 <= i < longer.len() implies (#[trigger] longer[i]).wf() by {
                            if i < trace.len() {
                                assert(longer[i] == trace[i]);
                            }
                        }
                        assert forall|i: int| 0 <= i < longer.len() - 1 implies step_post(
                            bytes,
                            #[trigger] longer[i],
                            longer[i + 1],
                            Ok(Control::Continue),
                            host_kind::<E>(),
                        ) by {
                            if i < trace.len() - 1 {
                                assert(longer[i] == trace[i]);
                                assert(longer[i + 1] == trace[i + 1]);
                            }
                        }
                        trace = longer;
                    }
                    steps += 1;
                },
                Err(e) => {
                    proof {
                        assert(run_post(
                            bytes,
                            start,
                            self.state(code@.pos),
                            budget as nat,
                            Err(e),
                            host_kind::<E>(),
                        )) by {
                            assert(is_run(bytes, trace, host_kind::<E>()));
                        }
                    }
                    return Err(e);
                },
            }
        }
    }

    /// Runs the code of the module from its start until `Halt` or an
    /// error. The run is cut off with [`ExecuteError::ExecutionLimit`]
    /// after `u64::MAX` instructions.
    pub fn run(&mut self) -> (r: ExecuteResult<()>)
        ensures
            final(self).program() == old(self).program(),
            exists|end_ip: nat|
                run_post(
                    old(self).program().code@,
                    old(self).state(0),
                    #[trigger] final(self).state(end_ip),
                    u64::MAX as nat,
                    r,
                    host_kind::<E>(),
                ),
    {
        self.run_for(u64::MAX)
    }

    /// Replays the memory initializers of the module: each record is
    /// copied into memory at its address. Nothing but memory changes, and
    /// memory keeps its length. A faulty record stops the replay: the
    /// records before it stay applied, and it writes nothing itself.
    #[verifier::loop_isolation(false)]
    pub fn run_memory_initializers(&mut self) -> (r: ExecuteResult<()>)
        ensures
            final(self).program() == old(self).program(),
            final(self).fuse() == old(self).fuse(),
            r == replay(old(self).program().memory_initializers@, 0, old(self).host().memory()).1,
            resources(&final(self).host()) == (Resources {
                memory: replay(
                    old(self).program().memory_initializers@,
                    0,
                    old(self).host().memory(),
                ).0,
                ..resources(&old(self).host())
            }),
            final(self).host().memory().len() == old(self).host().memory().len(),
    {
        let ghost blob = self.module.memory_initializers@;
        let ghost before = resources(&self.env);
        let ghost program = self.module;
        let ghost fuse = self.reset_slots_fuse;
        let image = slice_to_vec(self.module.memory_initializers);
        let mut mi = Tape::from(image);
        loop
            invariant
                self.module == program,
                self.reset_slots_fuse == fuse,
                mi@.cells == blob,
                mi@.wf(),
                resources(&self.env) == (Resources { memory: self.env.memory(), ..before }),
                replay(blob, 0, before.memory) == replay(blob, mi@.pos, self.env.memory()),
                self.env.memory().len() == before.memory.len(),
            decreases mi@.remaining(),
        {
            let addr = match imm32(&mut mi) {
                Ok(v) => v as usize,
                Err(_) => { return Ok(()); },
            };
            let data_len = imm32(&mut mi)? as usize;
            let data = mi.next_many(data_len)?;
            let mem = self.env.get_memory_mut();
            bounds_check(mem, addr, data_len)?;
            copy_into(mem, addr, data);
            self.env.trace_mem_init(addr, data);
        }
    }
}

} // verus!
